use dmz::loot::{Durability, Price, Rarity, Stackable};
use dmz::ui::{
    backpack_title, button_response, item_background, price_label, slot_layout, stack_label,
    ButtonInteraction, ButtonLook, ItemBackground,
};

#[test]
fn buttons_react_to_interaction() {
    assert_eq!(button_response(ButtonInteraction::Pressed), (ButtonLook::Pressed, true));
    assert_eq!(button_response(ButtonInteraction::Hovered), (ButtonLook::Hovered, false));
    assert_eq!(button_response(ButtonInteraction::Idle), (ButtonLook::Normal, false));
}

#[test]
fn layout_places_entries_in_their_slots() {
    assert_eq!(slot_layout(&[2, 0], 4), vec![Some(1), None, Some(0), None]);
    assert_eq!(slot_layout(&[], 2), vec![None, None]);
    assert_eq!(slot_layout(&[5], 2), vec![None, None]);
}

#[test]
fn layout_stops_after_a_doubly_held_slot() {
    // entries holding slot 1 twice: the second blocks the walk
    assert_eq!(slot_layout(&[1, 2, 1, 0], 4), vec![Some(3), Some(0), None, None]);
}

#[test]
fn item_labels() {
    assert_eq!(price_label(Some(Price(250)), None), "$250");
    assert_eq!(price_label(None, Some(Durability { max: 100, current: 40 })), "%40");
    assert_eq!(price_label(Some(Price(7)), Some(Durability::default())), "$7");
    assert_eq!(price_label(None, None), "");
    assert_eq!(stack_label(Some(Stackable { max_stack: 9, current_stack: 3 })), "3");
    assert_eq!(stack_label(None), "");
    assert_eq!(backpack_title("Large Backpack", 1200), "Large Backpack ($1200)");
}

#[test]
fn rare_items_get_golden_background() {
    assert_eq!(item_background(Some(Rarity::Rare)), ItemBackground::Rare);
    assert_eq!(item_background(Some(Rarity::Regular)), ItemBackground::Normal);
    assert_eq!(item_background(None), ItemBackground::Normal);
}
