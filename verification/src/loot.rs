use vstd::prelude::*;

verus! {

/// Kind of item.
#[derive(Debug, Clone, Copy, PartialEq, Eq, Structural)]
pub enum ItemType {
    Equipment,
    Item,
}

/// Category of a piece of loot.
#[derive(Debug, Clone, Copy, PartialEq, Eq, Structural)]
pub enum LootType {
    Item(ItemType),
    Weapon,
    Ammo,
    Lethal,
    Tactical,
    CombatDefense,
    FieldUpgrade,
    KillStreak,
    CircleDefense,
    RadiationProtection,
    LastStand,
    Cash,
    Intel,
    Key,
}

impl LootType {
    /// Whether loot of this type goes into the weapon slots.
    pub open spec fn is_weapon(&self) -> bool {
        *self == LootType::Weapon
    }
}

/// Price (cash amount) per item, in cents.
#[derive(Debug, Clone, Copy, PartialEq, Eq, Structural)]
pub struct Price(pub u32);

/// Stack of equal items.
#[derive(Debug, Clone, Copy, PartialEq, Eq, Structural)]
pub struct Stackable {
    pub max_stack: u32,
    pub current_stack: u32,
}

/// Rarity of a piece of loot.
#[derive(Debug, Clone, Copy, PartialEq, Eq, Structural)]
pub enum Rarity {
    /// shown with a transparent/grey background
    Regular,
    /// shown with a golden background
    Rare,
}

/// Usage state of a piece of loot.
#[derive(Debug, Clone, Copy, PartialEq, Eq, Structural)]
pub enum Uses {
    /// fresh and pristine
    Pristine,
    /// used once or multiple times
    Used,
    /// most likely the last usage
    Worn,
}

/// Durability of items like gas masks that deplete with use.
#[derive(Debug, Clone, Copy, PartialEq, Eq, Structural)]
pub struct Durability {
    pub max: u8,
    pub current: u8,
}

impl Durability {
    /// Full durability: 100 out of 100.
    pub fn new() -> (d: Durability)
        ensures
            d.max == 100,
            d.current == 100,
    {
        Durability { max: 100, current: 100 }
    }

    /// Current durability as a whole percentage of the maximum, rounded down.
    pub fn percent(&self) -> (p: u8)
        requires
            self.max > 0,
            self.current * 100 / (self.max as int) <= u8::MAX,
        ensures
            p == self.current * 100 / (self.max as int),
    {
        let max: u32 = self.max as u32;
        let current: u32 = self.current as u32;
        (current * 100 / max) as u8
    }
}

impl Default for Durability {
    fn default() -> (d: Durability)
        ensures
            d == (Durability { max: 100, current: 100 }),
    {
        Durability::new()
    }
}

/// Loot cache state machine: a cache is unlocked, opened and finally emptied.
#[derive(Debug, Clone, Copy, PartialEq, Eq, Structural)]
pub enum LootCacheState {
    Locked,
    Closed,
    Open,
    Empty,
}

/// The state that follows `s` in the loot cache state machine.
pub open spec fn loot_cache_successor(s: LootCacheState) -> LootCacheState {
    match s {
        LootCacheState::Locked => LootCacheState::Closed,
        LootCacheState::Closed => LootCacheState::Open,
        LootCacheState::Open => LootCacheState::Empty,
        LootCacheState::Empty => LootCacheState::Empty,
    }
}

impl LootCacheState {
    /// A new loot cache is closed.
    pub fn new() -> (s: LootCacheState)
        ensures
            s == LootCacheState::Closed,
    {
        LootCacheState::Closed
    }

    /// The state that follows this one.
    pub fn next(self) -> (r: LootCacheState)
        ensures
            r == loot_cache_successor(self),
    {
        match self {
            LootCacheState::Locked => LootCacheState::Closed,
            LootCacheState::Closed => LootCacheState::Open,
            LootCacheState::Open => LootCacheState::Empty,
            LootCacheState::Empty => LootCacheState::Empty,
        }
    }
}

/// Law: every loot cache ends up empty within three steps and then stays
/// empty.
pub proof fn lemma_loot_cache_ends_empty(s: LootCacheState)
    ensures
        loot_cache_successor(loot_cache_successor(loot_cache_successor(s)))
            == LootCacheState::Empty,
        loot_cache_successor(LootCacheState::Empty) == LootCacheState::Empty,
{
}

/// Cash value of a piece of loot: its price, times the stack size for
/// stacked loot.
pub open spec fn loot_value(price: Price, stack: Option<Stackable>) -> int {
    match stack {
        Some(st) => st.current_stack * price.0,
        None => price.0 as int,
    }
}

/// Computes the cash value of a piece of loot.
pub fn stowed_loot_value(price: Price, stack: Option<Stackable>) -> (v: u32)
    requires
        loot_value(price, stack) <= u32::MAX,
    ensures
        v == loot_value(price, stack),
{
    match stack {
        Some(st) => st.current_stack * price.0,
        None => price.0,
    }
}


/// Law: a piece of loot is worth its price times the number of items in its
/// stack, and a single unstacked item its price; in particular a stack of one
/// is worth exactly its price, and a bigger stack is worth more.
pub proof fn lemma_loot_value_is_price_times_stack(price: Price, stack: Stackable)
    ensures
        loot_value(price, Some(stack)) == stack.current_stack * price.0,
        loot_value(price, None) == price.0,
        stack.current_stack == 1 ==> loot_value(price, Some(stack)) == loot_value(price, None),
        loot_value(price, Some(Stackable { current_stack: (stack.current_stack + 1) as u32, ..stack }))
            == loot_value(price, Some(stack)) + price.0 || stack.current_stack == u32::MAX,
{
    if stack.current_stack < u32::MAX {
        assert((stack.current_stack + 1) * price.0 == stack.current_stack * price.0 + price.0)
            by (nonlinear_arith);
    }
}

} // verus!
