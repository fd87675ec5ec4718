use dmz::backpack_summary::BackpackSummary;
use dmz::combat::{damage_fits, split_fits, Armor, Damage, Health};
use dmz::contracts::{has_state_machine, ContractType};
use dmz::loot::{Price, Stackable};
use dmz::matchmake::{EventCounter, MatchmakeEvent};
use dmz::raid_summary::RaidSummary;
use dmz::wallet::Wallet;

#[test]
fn damage_split_fits_ordinary_hits() {
    assert!(split_fits(Damage(110), Some(Armor(100)), Some(Health(100))));
    assert!(split_fits(Damage(10), None, None));
}

#[test]
fn damage_split_overflow_is_detected() {
    assert!(!split_fits(Damage(i32::MIN), Some(Armor(i32::MAX)), None));
    assert!(!split_fits(Damage(-1), None, Some(Health(i32::MAX))));
}

#[test]
fn damage_fits_pools() {
    assert!(damage_fits(100, 10));
    assert!(!damage_fits(i32::MIN, 1));
    assert!(!damage_fits(i32::MAX, -1));
}

#[test]
fn wallet_range_checks() {
    let w = Wallet { money: 10, limit: 100 };
    assert!(w.can_drop_money(10));
    assert!(!w.can_drop_money(11));
    assert!(w.can_receive_money(90));
    assert!(!w.can_receive_money(91));
    assert!(w.can_stow_money(200));
    assert!(!w.can_stow_money(u32::MAX));
    assert!(!Wallet { money: 200, limit: 100 }.can_stow_money(1));
}

#[test]
fn backpack_summary_range_checks() {
    let s = BackpackSummary(u32::MAX - 5);
    assert!(s.can_add_money(5));
    assert!(!s.can_add_money(6));
    let stack = Some(Stackable { max_stack: 3, current_stack: 2 });
    assert!(s.can_add_loot(Price(2), stack));
    assert!(!s.can_add_loot(Price(3), stack));
    assert!(!BackpackSummary(0).can_add_loot(Price(u32::MAX), stack));
}

#[test]
fn matchmake_range_checks() {
    assert!(EventCounter(0).can_step());
    assert!(!EventCounter(u32::MAX).can_step());
    assert!(MatchmakeEvent::PlayersFoundUpdate(30).has_message());
    assert!(!MatchmakeEvent::PlayersFoundUpdate(31).has_message());
    assert!(MatchmakeEvent::Launching(8).has_message());
}

#[test]
fn only_secure_supplies_have_a_state_machine() {
    assert!(has_state_machine(ContractType::SecureSupplies));
    assert!(!has_state_machine(ContractType::HuntSquad));
}

#[test]
fn raid_summary_range_check() {
    let s = RaidSummary { contract_counter: u32::MAX - 1, loot_container_counter: 0 };
    assert!(s.can_add_contracts(1));
    assert!(!s.can_add_contracts(2));
}
