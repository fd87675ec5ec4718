use vstd::prelude::*;

use crate::loot::{Durability, Price, Rarity, Stackable};
use crate::text::{decimal, u32_text};

verus! {

/// How the pointer interacts with a button.
#[derive(Debug, Clone, Copy, PartialEq, Eq, Structural)]
pub enum ButtonInteraction {
    Pressed,
    Hovered,
    Idle,
}

/// How a button is drawn.
#[derive(Debug, Clone, Copy, PartialEq, Eq, Structural)]
pub enum ButtonLook {
    Normal,
    Hovered,
    Pressed,
}

/// The look a button takes on for an interaction, and whether the
/// interaction triggers the button's action (only a press does).
pub open spec fn button_response_spec(i: ButtonInteraction) -> (ButtonLook, bool) {
    match i {
        ButtonInteraction::Pressed => (ButtonLook::Pressed, true),
        ButtonInteraction::Hovered => (ButtonLook::Hovered, false),
        ButtonInteraction::Idle => (ButtonLook::Normal, false),
    }
}

/// Reacts to a changed button interaction: returns the button's new look
/// and whether its action (a screen change, a call, a stow) is triggered.
pub fn button_response(i: ButtonInteraction) -> (r: (ButtonLook, bool))
    ensures
        r == button_response_spec(i),
{
    match i {
        ButtonInteraction::Pressed => (ButtonLook::Pressed, true),
        ButtonInteraction::Hovered => (ButtonLook::Hovered, false),
        ButtonInteraction::Idle => (ButtonLook::Normal, false),
    }
}

/// Background of an item slot.
#[derive(Debug, Clone, Copy, PartialEq, Eq, Structural)]
pub enum ItemBackground {
    Normal,
    Rare,
}

/// The background of an item slot: golden for rare items, normal otherwise.
pub fn item_background(rarity: Option<Rarity>) -> (b: ItemBackground)
    ensures
        b == (if rarity == Some(Rarity::Rare) { ItemBackground::Rare } else { ItemBackground::Normal }),
{
    match rarity {
        Some(Rarity::Rare) => ItemBackground::Rare,
        _ => ItemBackground::Normal,
    }
}

/// Whether slot number `v` is held by two or more entries of `keys`.
pub open spec fn duplicated(keys: Seq<u8>, v: int) -> bool {
    exists|i: int, j: int| 0 <= i < j < keys.len() && keys[i] == v && keys[j] == v
}

/// Whether some slot number below `n` is held twice: from there on the
/// slot walk of the inventory screen no longer places any entry.
pub open spec fn stalled_before(keys: Seq<u8>, n: int) -> bool {
    exists|v: int| 0 <= v < n && duplicated(keys, v)
}

/// Index of the first entry of `keys` that holds slot `n`.
pub open spec fn first_holder(keys: Seq<u8>, n: int) -> Option<int> {
    if exists|i: int| 0 <= i < keys.len() && keys[i] == n {
        Some(choose|i: int| 0 <= i < keys.len() && keys[i] == n && forall|j: int| 0 <= j < i ==> keys[j] != n)
    } else {
        None
    }
}

/// What the inventory screen shows in slot `n`.
///
/// The screen sorts the entries by slot number (stably) and walks the slots
/// `0..count` alongside them, placing the next entry when it holds the
/// current slot. An entry that holds the same slot as the one before it is
/// never placed and blocks every entry after it; so slot `n` shows the first
/// entry holding `n`, unless some lower slot number is held twice.
pub open spec fn slot_shows(keys: Seq<u8>, n: int) -> Option<int> {
    if stalled_before(keys, n) {
        None
    } else {
        first_holder(keys, n)
    }
}

proof fn lemma_first_holder(keys: Seq<u8>, n: int, i: int)
    requires
        0 <= i < keys.len(),
        keys[i] == n,
        forall|j: int| 0 <= j < i ==> keys[j] != n,
    ensures
        first_holder(keys, n) == Some(i),
{
    let c = choose|c: int| 0 <= c < keys.len() && keys[c] == n && forall|j: int| 0 <= j < c ==> keys[j] != n;
    assert(0 <= c < keys.len() && keys[c] == n && forall|j: int| 0 <= j < c ==> keys[j] != n);
    if c < i {
        assert(keys[c] != n);
    }
    if i < c {
        assert(keys[i] != n);
    }
}

/// Lays out an inventory screen with `count` slots whose entries hold the
/// slot numbers `keys`: for each slot, the index of the entry shown in it,
/// or `None` for an empty slot.
pub fn slot_layout(keys: &[u8], count: usize) -> (r: Vec<Option<usize>>)
    ensures
        r@.len() == count,
        forall|n: int| 0 <= n < count ==> (match #[trigger] r@[n] {
            Some(i) => Some(i as int),
            None => None,
        }) == slot_shows(keys@, n),
{
    let mut r: Vec<Option<usize>> = Vec::new();
    let mut stalled = false;
    let mut n: usize = 0;
    while n < count
        invariant
            n <= count,
            r@.len() == n,
            stalled == stalled_before(keys@, n as int),
            forall|m: int| 0 <= m < n ==> (match #[trigger] r@[m] {
                Some(i) => Some(i as int),
                None => None,
            }) == slot_shows(keys@, m),
        decreases count - n,
    {
        let mut first: Option<usize> = None;
        let mut twice = false;
        let mut i: usize = 0;
        while i < keys.len()
            invariant
                i <= keys.len(),
                first is None ==> forall|j: int| 0 <= j < i ==> keys@[j] != n,
                first matches Some(f) ==> f < i && keys@[f as int] == n && forall|j: int|
                    0 <= j < f ==> keys@[j] != n,
                twice == exists|a: int, b: int| 0 <= a < b < i && keys@[a] == n && keys@[b] == n,
            decreases keys.len() - i,
        {
            if keys[i] as usize == n {
                proof {
                    if let Some(f) = first {
                        assert(0 <= f < i && keys@[f as int] == n && keys@[i as int] == n);
                    }
                }
                if first.is_none() {
                    first = Some(i);
                } else {
                    twice = true;
                }
            }
            proof {
                if twice {
                    if keys@[i as int] != n {
                        let (a, b) = choose|a: int, b: int| 0 <= a < b < i + 1 && keys@[a] == n && keys@[b] == n;
                        assert(0 <= a < b < i + 1 && keys@[a] == n && keys@[b] == n);
                    }
                }
                if exists|a: int, b: int| 0 <= a < b < i + 1 && keys@[a] == n && keys@[b] == n {
                    let (a, b) = choose|a: int, b: int| 0 <= a < b < i + 1 && keys@[a] == n && keys@[b] == n;
                    if b == i {
                        assert(keys@[a] == n);
                        assert(first is Some);
                    }
                }
            }
            i = i + 1;
        }
        proof {
            match first {
                Some(f) => {
                    lemma_first_holder(keys@, n as int, f as int);
                },
                None => {
                    assert(first_holder(keys@, n as int) is None);
                },
            }
            assert(twice == duplicated(keys@, n as int));
        }
        if stalled {
            r.push(None);
        } else {
            r.push(first);
        }
        if twice {
            stalled = true;
        }
        proof {
            assert(stalled == stalled_before(keys@, n + 1)) by {
                if stalled_before(keys@, n + 1) {
                    let v = choose|v: int| 0 <= v < n + 1 && duplicated(keys@, v);
                    if v < n {
                        assert(stalled_before(keys@, n as int));
                    }
                }
                if stalled_before(keys@, n as int) {
                    let v = choose|v: int| 0 <= v < n && duplicated(keys@, v);
                    assert(0 <= v < n + 1 && duplicated(keys@, v));
                }
                if twice {
                    assert(0 <= n < n + 1 && duplicated(keys@, n as int));
                }
            }
        }
        n = n + 1;
    }
    r
}

proof fn lemma_minimal_holder_exists(keys: Seq<u8>, n: int, i: int)
    requires
        0 <= i < keys.len(),
        keys[i] == n,
    ensures
        exists|c: int| 0 <= c < keys.len() && keys[c] == n && forall|j: int| 0 <= j < c ==> keys[j] != n,
    decreases i,
{
    if exists|j: int| 0 <= j < i && keys[j] == n {
        let j = choose|j: int| 0 <= j < i && keys[j] == n;
        lemma_minimal_holder_exists(keys, n, j);
    } else {
        assert(0 <= i < keys.len() && keys[i] == n && forall|j: int| 0 <= j < i ==> keys[j] != n);
    }
}

proof fn lemma_first_holder_holds(keys: Seq<u8>, n: int)
    ensures
        first_holder(keys, n) matches Some(i) ==> 0 <= i < keys.len() && keys[i] == n,
{
    if exists|i: int| 0 <= i < keys.len() && keys[i] == n {
        let i = choose|i: int| 0 <= i < keys.len() && keys[i] == n;
        lemma_minimal_holder_exists(keys, n, i);
    }
}

/// Law: the inventory screen shows each entry at most once, and only in the
/// slot that entry holds.
pub proof fn lemma_slot_layout_faithful(keys: Seq<u8>, n1: int, n2: int)
    requires
        0 <= n1,
        0 <= n2,
        n1 != n2,
    ensures
        slot_shows(keys, n1) matches Some(i) ==> 0 <= i < keys.len() && keys[i] == n1,
        slot_shows(keys, n1) is Some ==> slot_shows(keys, n1) != slot_shows(keys, n2),
{
    lemma_first_holder_holds(keys, n1);
    lemma_first_holder_holds(keys, n2);
    if slot_shows(keys, n1) is Some {
        let i = slot_shows(keys, n1)->0;
        assert(0 <= i < keys.len() && keys[i] == n1);
        if slot_shows(keys, n2) is Some {
            let k = slot_shows(keys, n2)->0;
            assert(0 <= k < keys.len() && keys[k] == n2);
        }
    }
}

/// Label of an item's price, or of its durability for items without price,
/// or nothing.
pub open spec fn price_label_spec(price: Option<Price>, durability: Option<Durability>) -> Seq<char> {
    match price {
        Some(p) => seq!['$'] + decimal(p.0 as nat),
        None => match durability {
            Some(d) => seq!['%'] + decimal(d.current as nat),
            None => Seq::empty(),
        },
    }
}

/// Writes the label in the corner of an item slot: `$` and the price, or
/// `%` and the current durability, or nothing.
pub fn price_label(price: Option<Price>, durability: Option<Durability>) -> (s: String)
    ensures
        s@ == price_label_spec(price, durability),
{
    match price {
        Some(p) => {
            proof {
                reveal_strlit("$");
            }
            let mut s = String::from_str("$");
            s.append(u32_text(p.0).as_str());
            s
        },
        None => match durability {
            Some(d) => {
                proof {
                    reveal_strlit("%");
                }
                let mut s = String::from_str("%");
                s.append(u32_text(d.current as u32).as_str());
                s
            },
            None => String::new(),
        },
    }
}

/// Writes the stack size of an item slot, or nothing for unstacked loot.
pub fn stack_label(stack: Option<Stackable>) -> (s: String)
    ensures
        s@ == match stack {
            Some(st) => decimal(st.current_stack as nat),
            None => Seq::empty(),
        },
{
    match stack {
        Some(st) => u32_text(st.current_stack),
        None => String::new(),
    }
}

/// Writes the header of the backpack screen: the backpack's name and, in
/// brackets, the cash value of its contents.
pub fn backpack_title(name: &str, summary: u32) -> (s: String)
    ensures
        s@ == name@ + seq![' ', '(', '$'] + decimal(summary as nat) + seq![')'],
{
    proof {
        reveal_strlit(" ($");
        reveal_strlit(")");
    }
    let mut s = String::from_str(name);
    s.append(" ($");
    s.append(u32_text(summary).as_str());
    s.append(")");
    s
}

} // verus!
