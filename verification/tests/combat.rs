use dmz::combat::{split_damage, Armor, Damage, DamageSplit, Health};

#[test]
fn should_reduce_armor() {
    let mut armor = Armor(100);
    armor.receive_damage(10);
    assert_eq!(armor.0, 90);
}

#[test]
fn should_reduce_health() {
    let mut health = Health(100);
    let dies = health.receive_damage(10);
    assert_eq!(health.0, 90);
    assert!(!dies);
}

#[test]
fn should_update_armor_partial_damage() {
    let split = split_damage(Damage(10), Some(Armor(100)), Some(Health(100)));
    assert_eq!(split.armor_damage, Some(10));
    assert_eq!(split.health_damage, Some(0));
    assert_eq!(split.remaining, 0);
}

#[test]
fn should_update_full_armor_and_partial_health_damage() {
    let split = split_damage(Damage(110), Some(Armor(100)), Some(Health(100)));
    assert_eq!(split.armor_damage, Some(100));
    assert_eq!(split.health_damage, Some(10));
}

#[test]
fn should_update_armor_and_health_full_damage() {
    let split = split_damage(Damage(210), Some(Armor(100)), Some(Health(100)));
    assert_eq!(
        split,
        DamageSplit { armor_damage: Some(100), health_damage: Some(100), remaining: 10 }
    );
}

#[test]
fn damage_without_armor_goes_to_health() {
    let split = split_damage(Damage(30), None, Some(Health(100)));
    assert_eq!(split, DamageSplit { armor_damage: None, health_damage: Some(30), remaining: 0 });
}

#[test]
fn damage_without_any_pool_remains() {
    let split = split_damage(Damage(30), None, None);
    assert_eq!(split, DamageSplit { armor_damage: None, health_damage: None, remaining: 30 });
}

#[test]
fn health_at_zero_dies() {
    let mut health = Health::default();
    assert!(health.receive_damage(100));
    assert_eq!(health.0, 0);
}

#[test]
fn defaults_are_full() {
    assert_eq!(Armor::default(), Armor(100));
    assert_eq!(Health::default(), Health(100));
}
