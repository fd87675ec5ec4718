use vstd::prelude::*;
use vstd::set_lib::{lemma_int_range, lemma_len_subset, set_int_range};

use crate::loot::LootType;

verus! {

/// Number of item slots of an inventory.
#[derive(Debug, Clone, Copy, PartialEq, Eq, Structural)]
pub struct ItemSlots(pub u8);

/// Position of a piece of loot within the item slots.
#[derive(Debug, Clone, Copy, PartialEq, Eq, Structural)]
pub struct ItemSlot(pub u8);

/// Number of weapon slots of an inventory.
#[derive(Debug, Clone, Copy, PartialEq, Eq, Structural)]
pub struct WeaponSlots(pub u8);

/// Position of a piece of loot within the weapon slots.
#[derive(Debug, Clone, Copy, PartialEq, Eq, Structural)]
pub struct WeaponSlot(pub u8);

/// Whether slot number `t` is taken by one of `slots`.
pub open spec fn occupies(slots: Seq<u8>, t: int) -> bool {
    exists|i: int| 0 <= i < slots.len() && slots[i] == t
}

/// `t` is the lowest slot number not taken by `slots`.
pub open spec fn is_lowest_free(slots: Seq<u8>, t: int) -> bool {
    &&& 0 <= t
    &&& !occupies(slots, t)
    &&& forall|j: int| 0 <= j < t ==> occupies(slots, j)
}

/// The lowest slot number not taken by `slots`.
pub open spec fn lowest_free(slots: Seq<u8>) -> int {
    choose|t: int| is_lowest_free(slots, t)
}

/// The slot numbers held by item slots.
pub open spec fn item_slot_numbers(items: Seq<ItemSlot>) -> Seq<u8> {
    items.map_values(|s: ItemSlot| s.0)
}

/// The slot numbers held by weapon slots.
pub open spec fn weapon_slot_numbers(weapons: Seq<WeaponSlot>) -> Seq<u8> {
    weapons.map_values(|s: WeaponSlot| s.0)
}

/// The slot a new piece of loot is stowed in, for an inventory whose taken
/// slots are `taken` and which has `capacity` slots: none when the inventory
/// is full, otherwise the lowest free slot (as a `u8`).
pub open spec fn stow_slot(taken: Seq<u8>, capacity: int) -> Option<u8> {
    if taken.len() < capacity {
        Some(lowest_free(taken) as u8)
    } else {
        None
    }
}

/// Pigeonhole: `n` taken slots leave one of the slots `0..=n` free.
pub proof fn lemma_free_slot_exists(slots: Seq<u8>)
    ensures
        exists|t: int| 0 <= t <= slots.len() && !occupies(slots, t),
{
    let ints = slots.map_values(|x: u8| x as int);
    let n: int = slots.len() as int + 1;
    ints.lemma_cardinality_of_set();
    if forall|t: int| 0 <= t <= slots.len() ==> occupies(slots, t) {
        lemma_int_range(0, n);
        assert(set_int_range(0, n).subset_of(ints.to_set())) by {
            assert forall|t: int| #[trigger] set_int_range(0, n).contains(t)
                implies ints.to_set().contains(t) by {
                assert(occupies(slots, t));
                let i = choose|i: int| 0 <= i < slots.len() && slots[i] == t;
                assert(ints[i] == t);
            }
        }
        lemma_len_subset(set_int_range(0, n), ints.to_set());
        assert(false);
    }
}

/// The lowest free slot is unique and lies within `0..=slots.len()`.
pub proof fn lemma_lowest_free(slots: Seq<u8>, t: int)
    requires
        is_lowest_free(slots, t),
    ensures
        lowest_free(slots) == t,
        t <= slots.len(),
{
    let c = lowest_free(slots);
    assert(is_lowest_free(slots, c));
    if c < t {
        assert(occupies(slots, c));
    }
    if t < c {
        assert(occupies(slots, t));
    }
    lemma_free_slot_exists(slots);
    let f = choose|f: int| 0 <= f <= slots.len() && !occupies(slots, f);
    if t > f {
        assert(occupies(slots, f));
    }
}

fn contains_slot(slots: &Vec<u8>, t: usize) -> (r: bool)
    ensures
        r == occupies(slots@, t as int),
{
    let mut i: usize = 0;
    while i < slots.len()
        invariant
            i <= slots.len(),
            forall|j: int| 0 <= j < i ==> slots@[j] != t,
        decreases slots.len() - i,
    {
        if slots[i] as usize == t {
            return true;
        }
        i = i + 1;
    }
    false
}

fn lowest_free_slot(slots: &Vec<u8>) -> (r: usize)
    ensures
        r as int == lowest_free(slots@),
        r <= slots.len(),
{
    proof {
        lemma_free_slot_exists(slots@);
    }
    let mut t: usize = 0;
    while t <= slots.len()
        invariant
            t <= slots.len() + 1,
            forall|j: int| 0 <= j < t ==> occupies(slots@, j),
            exists|f: int| 0 <= f <= slots.len() && !occupies(slots@, f),
        decreases slots.len() + 1 - t,
    {
        if !contains_slot(slots, t) {
            proof {
                lemma_lowest_free(slots@, t as int);
            }
            return t;
        }
        t = t + 1;
    }
    proof {
        let f = choose|f: int| 0 <= f <= slots.len() && !occupies(slots@, f);
        assert(occupies(slots@, f));
    }
    0
}

/// Picks the item slot for a piece of loot stowed into an inventory that
/// holds `items` and has `item_slots` item slots: `None` when all slots are
/// taken, otherwise the lowest free slot.
pub fn calc_stow_item_slot(items: &[ItemSlot], item_slots: usize) -> (r: Option<u8>)
    ensures
        r == stow_slot(item_slot_numbers(items@), item_slots as int),
{
    if items.len() < item_slots {
        let mut taken: Vec<u8> = Vec::new();
        let mut i: usize = 0;
        while i < items.len()
            invariant
                i <= items.len(),
                taken@ == item_slot_numbers(items@).take(i as int),
            decreases items.len() - i,
        {
            taken.push(items[i].0);
            i = i + 1;
            assert(taken@ == item_slot_numbers(items@).take(i as int));
        }
        assert(taken@ == item_slot_numbers(items@));
        let t = lowest_free_slot(&taken);
        Some(t as u8)
    } else {
        None
    }
}

/// Picks the weapon slot for a weapon stowed into an inventory that holds
/// `weapons` and has `weapon_slots` weapon slots: `None` when all slots are
/// taken, otherwise the lowest free slot.
pub fn calc_stow_weapon_slot(weapons: &[WeaponSlot], weapon_slots: usize) -> (r: Option<u8>)
    ensures
        r == stow_slot(weapon_slot_numbers(weapons@), weapon_slots as int),
{
    if weapons.len() < weapon_slots {
        let mut taken: Vec<u8> = Vec::new();
        let mut i: usize = 0;
        while i < weapons.len()
            invariant
                i <= weapons.len(),
                taken@ == weapon_slot_numbers(weapons@).take(i as int),
            decreases weapons.len() - i,
        {
            taken.push(weapons[i].0);
            i = i + 1;
            assert(taken@ == weapon_slot_numbers(weapons@).take(i as int));
        }
        assert(taken@ == weapon_slot_numbers(weapons@));
        let t = lowest_free_slot(&taken);
        Some(t as u8)
    } else {
        None
    }
}

/// Where a piece of loot ends up when it is stowed.
#[derive(Debug, Clone, Copy, PartialEq, Eq, Structural)]
pub enum StowPlacement {
    Item(ItemSlot),
    Weapon(WeaponSlot),
}

/// Decides where a piece of loot of type `loot_type` is stowed: weapons go
/// to the weapon slots, everything else to the item slots; `None` when the
/// matching slots are all taken.
pub fn plan_stow(
    loot_type: &LootType,
    items: &[ItemSlot],
    item_slots: usize,
    weapons: &[WeaponSlot],
    weapon_slots: usize,
) -> (r: Option<StowPlacement>)
    ensures
        loot_type.is_weapon() ==> r == match stow_slot(weapon_slot_numbers(weapons@), weapon_slots as int) {
            Some(s) => Some(StowPlacement::Weapon(WeaponSlot(s))),
            None => None,
        },
        !loot_type.is_weapon() ==> r == match stow_slot(item_slot_numbers(items@), item_slots as int) {
            Some(s) => Some(StowPlacement::Item(ItemSlot(s))),
            None => None,
        },
{
    match loot_type {
        LootType::Weapon => match calc_stow_weapon_slot(weapons, weapon_slots) {
            Some(s) => Some(StowPlacement::Weapon(WeaponSlot(s))),
            None => None,
        },
        _ => match calc_stow_item_slot(items, item_slots) {
            Some(s) => Some(StowPlacement::Item(ItemSlot(s))),
            None => None,
        },
    }
}

/// Decides whether a drop command for a piece of loot is carried out: the
/// loot must sit in the slots of an inventory (`holder`), that inventory must
/// be the one named by the command, and it must be ready to drop (it has the
/// matching slots and a position).
pub fn drop_allowed(holder: Option<u64>, dropping_entity: u64, holder_ready: bool) -> (r: bool)
    ensures
        r == (holder == Some(dropping_entity) && holder_ready),
{
    match holder {
        Some(h) => h == dropping_entity && holder_ready,
        None => false,
    }
}

/// Inventory invariant: the taken slots are distinct and within capacity.
pub open spec fn slots_valid(taken: Seq<u8>, capacity: int) -> bool {
    &&& taken.no_duplicates()
    &&& forall|i: int| 0 <= i < taken.len() ==> taken[i] < capacity
}

/// Law: stowing keeps the inventory invariant. Whenever the inventory is not
/// full, the chosen slot is free and within capacity, so the slots after
/// stowing are again distinct and within capacity; a full inventory refuses
/// the loot.
pub proof fn lemma_stow_keeps_slots_valid(taken: Seq<u8>, capacity: int)
    requires
        slots_valid(taken, capacity),
        capacity <= 256,
    ensures
        stow_slot(taken, capacity) is None <==> taken.len() >= capacity,
        stow_slot(taken, capacity) matches Some(s) ==> {
            &&& !occupies(taken, s as int)
            &&& (s as int) <= taken.len()
            &&& slots_valid(taken.push(s), capacity)
        },
{
    if taken.len() < capacity {
        lemma_free_slot_exists(taken);
        let f = choose|f: int| 0 <= f <= taken.len() && !occupies(taken, f);
        let t = lowest_free(taken);
        assert(exists|t: int| is_lowest_free(taken, t)) by {
            lowest_free_exists(taken, f);
        }
        assert(is_lowest_free(taken, t));
        lemma_lowest_free(taken, t);
        assert(t < 256);
        let s = t as u8;
        assert(s as int == t);
        let pushed = taken.push(s);
        assert forall|i: int, j: int| 0 <= i < pushed.len() && 0 <= j < pushed.len() && i != j
            implies pushed[i] != pushed[j] by {
            if i == taken.len() as int {
                assert(!occupies(taken, t));
            } else if j == taken.len() as int {
                assert(!occupies(taken, t));
            }
        }
    }
}

/// Some lowest free slot exists whenever some slot is free.
proof fn lowest_free_exists(slots: Seq<u8>, f: int)
    requires
        0 <= f,
        !occupies(slots, f),
    ensures
        exists|t: int| is_lowest_free(slots, t),
    decreases f,
{
    if exists|j: int| 0 <= j < f && !occupies(slots, j) {
        let j = choose|j: int| 0 <= j < f && !occupies(slots, j);
        lowest_free_exists(slots, j);
    } else {
        assert(is_lowest_free(slots, f));
    }
}

} // verus!
