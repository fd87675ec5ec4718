use vstd::prelude::*;

use crate::loot::{loot_value, Price, Stackable, stowed_loot_value};

verus! {

/// Cash value of all cash and valuables an operator carries, in cents.
#[derive(Debug, Clone, Copy, PartialEq, Eq, Structural)]
pub struct BackpackSummary(pub u32);

impl BackpackSummary {
    /// An empty backpack.
    pub fn new() -> (s: BackpackSummary)
        ensures
            s.0 == 0,
    {
        BackpackSummary(0)
    }

    /// Adds stowed money.
    pub fn on_stowed_money(&mut self, amount: u32)
        requires
            old(self).0 + amount <= u32::MAX,
        ensures
            final(self).0 == old(self).0 + amount,
    {
        self.0 = self.0 + amount;
    }

    /// Adds a stowed piece of loot: its price, times the stack size for
    /// stacked loot.
    pub fn on_stowed_loot(&mut self, price: Price, stack: Option<Stackable>)
        requires
            loot_value(price, stack) <= u32::MAX,
            old(self).0 + loot_value(price, stack) <= u32::MAX,
        ensures
            final(self).0 == old(self).0 + loot_value(price, stack),
    {
        let v = stowed_loot_value(price, stack);
        self.0 = self.0 + v;
    }
}

impl BackpackSummary {
    /// Whether `amount` cents of money can be added without overflow.
    pub fn can_add_money(&self, amount: u32) -> (r: bool)
        ensures
            r == (self.0 + amount <= u32::MAX),
    {
        self.0 as u64 + amount as u64 <= u32::MAX as u64
    }

    /// Whether a piece of loot can be added without overflow.
    pub fn can_add_loot(&self, price: Price, stack: Option<Stackable>) -> (r: bool)
        ensures
            r == (loot_value(price, stack) <= u32::MAX && self.0 + loot_value(price, stack) <= u32::MAX),
    {
        let value: u64 = match stack {
            Some(st) => {
                assert(st.current_stack * price.0 <= u32::MAX * u32::MAX) by (nonlinear_arith)
                    requires st.current_stack <= u32::MAX, price.0 <= u32::MAX;
                st.current_stack as u64 * price.0 as u64
            },
            None => price.0 as u64,
        };
        value <= u32::MAX as u64 && self.0 as u64 + value <= u32::MAX as u64
    }
}

impl Default for BackpackSummary {
    fn default() -> (s: BackpackSummary)
        ensures
            s == BackpackSummary(0),
    {
        BackpackSummary::new()
    }
}

} // verus!
