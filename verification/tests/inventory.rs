use dmz::inventory::{
    calc_stow_item_slot, calc_stow_weapon_slot, drop_allowed, plan_stow, ItemSlot, StowPlacement,
    WeaponSlot,
};
use dmz::loot::{ItemType, LootType};

#[test]
fn should_stow_item_loot() {
    let r = plan_stow(&LootType::Item(ItemType::Item), &[], 1, &[], 0);
    assert_eq!(r, Some(StowPlacement::Item(ItemSlot(0))));
}

#[test]
fn should_stow_weapon_loot() {
    let r = plan_stow(&LootType::Weapon, &[], 0, &[], 1);
    assert_eq!(r, Some(StowPlacement::Weapon(WeaponSlot(0))));
}

#[test]
fn should_stow_item_loot_and_respect_capacity() {
    let first = calc_stow_item_slot(&[], 2);
    assert_eq!(first, Some(0));
    let second = calc_stow_item_slot(&[ItemSlot(0)], 2);
    assert_eq!(second, Some(1));
    let third = calc_stow_item_slot(&[ItemSlot(0), ItemSlot(1)], 2);
    assert_eq!(third, None);
}

#[test]
fn should_stow_weapon_loot_and_respect_capacity() {
    let first = calc_stow_weapon_slot(&[], 2);
    assert_eq!(first, Some(0));
    let second = calc_stow_weapon_slot(&[WeaponSlot(0)], 2);
    assert_eq!(second, Some(1));
    let third = calc_stow_weapon_slot(&[WeaponSlot(0), WeaponSlot(1)], 2);
    assert_eq!(third, None);
}

#[test]
fn should_stow_item_loot_in_the_only_empty_slot() {
    assert_eq!(calc_stow_item_slot(&[], 1), Some(0));
}

#[test]
fn should_stow_weapon_loot_in_the_only_empty_slot() {
    assert_eq!(calc_stow_weapon_slot(&[], 1), Some(0));
}

#[test]
fn should_stow_item_loot_in_the_second_slot_of_two() {
    assert_eq!(calc_stow_item_slot(&[ItemSlot(0)], 2), Some(1));
}

#[test]
fn should_stow_weapon_loot_in_the_second_slot_of_two() {
    assert_eq!(calc_stow_weapon_slot(&[WeaponSlot(0)], 2), Some(1));
}

#[test]
fn should_drop_item_loot() {
    let inventory = 5u64;
    assert!(drop_allowed(Some(inventory), inventory, true));
}

#[test]
fn should_drop_weapon_loot() {
    let inventory = 9u64;
    assert!(drop_allowed(Some(inventory), inventory, true));
}

#[test]
fn drop_refused_for_other_inventory_or_loose_loot() {
    assert!(!drop_allowed(Some(1), 2, true));
    assert!(!drop_allowed(None, 2, true));
    assert!(!drop_allowed(Some(2), 2, false));
}

#[test]
fn stow_fills_gap_left_by_dropped_loot() {
    assert_eq!(calc_stow_item_slot(&[ItemSlot(1), ItemSlot(2)], 9), Some(0));
    assert_eq!(calc_stow_item_slot(&[ItemSlot(0), ItemSlot(2)], 9), Some(1));
}

#[test]
fn non_weapon_loot_goes_to_item_slots() {
    let r = plan_stow(&LootType::Key, &[ItemSlot(0)], 2, &[], 2);
    assert_eq!(r, Some(StowPlacement::Item(ItemSlot(1))));
    let full = plan_stow(&LootType::Cash, &[ItemSlot(0)], 1, &[], 2);
    assert_eq!(full, None);
}
