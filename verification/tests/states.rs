use dmz::states::{after_loading_screen, infil_complete, AppState, InfilCountdown, RaidState};

#[test]
fn raid_screens_toggle() {
    let s = RaidState::new();
    assert_eq!(s.toggle_loot_cache(), Some(RaidState::AccessLootCache));
    assert_eq!(RaidState::AccessLootCache.toggle_loot_cache(), Some(RaidState::Raid));
    assert_eq!(RaidState::AccessBackpack.toggle_loot_cache(), None);
    assert_eq!(s.toggle_backpack(), Some(RaidState::AccessBackpack));
    assert_eq!(RaidState::AccessBackpack.toggle_backpack(), Some(RaidState::Raid));
    assert_eq!(RaidState::AccessLootCache.toggle_backpack(), None);
    assert_eq!(s.on_loot_cache_accessed(), Some(RaidState::AccessLootCache));
    assert_eq!(RaidState::AccessBackpack.on_loot_cache_accessed(), None);
}

#[test]
fn infil_countdown_completes_once() {
    let mut c = InfilCountdown::new();
    let mut completions = 0;
    let mut reports = 0;
    for _ in 0..40 {
        if let Some(v) = c.tick() {
            reports += 1;
            if infil_complete(v) {
                completions += 1;
            }
        }
    }
    assert_eq!(reports, 31);
    assert_eq!(completions, 1);
    assert_eq!(c.0, 0);
}

#[test]
fn game_starts_on_loading_screen() {
    assert_eq!(AppState::new(), AppState::LoadingScreen);
    assert_eq!(after_loading_screen(), AppState::Raid);
}
