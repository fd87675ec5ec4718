use dmz::loot::{stowed_loot_value, Durability, LootCacheState, Price, Stackable};

#[test]
fn should_calculate_durabilities() {
    let full = Durability { max: 100, current: 100 };
    let half = Durability { max: 100, current: 50 };
    let quarter = Durability { max: 100, current: 25 };
    let zero = Durability { max: 100, current: 0 };
    assert_eq!(100, full.percent());
    assert_eq!(50, half.percent());
    assert_eq!(25, quarter.percent());
    assert_eq!(0, zero.percent());
}

#[test]
fn should_give_next_loot_cache_state() {
    assert_eq!(LootCacheState::Closed, LootCacheState::Locked.next());
    assert_eq!(LootCacheState::Open, LootCacheState::Closed.next());
    assert_eq!(LootCacheState::Empty, LootCacheState::Open.next());
    assert_eq!(LootCacheState::Empty, LootCacheState::Empty.next());
}

#[test]
fn durability_percent_rounds_down() {
    assert_eq!(Durability { max: 3, current: 1 }.percent(), 33);
    assert_eq!(Durability::default(), Durability { max: 100, current: 100 });
}

#[test]
fn loot_value_multiplies_stack() {
    assert_eq!(stowed_loot_value(Price(100), None), 100);
    assert_eq!(
        stowed_loot_value(Price(100), Some(Stackable { max_stack: 5, current_stack: 3 })),
        300
    );
}
