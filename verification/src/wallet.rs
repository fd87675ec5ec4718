use vstd::prelude::*;

verus! {

/// Default wallet limit, in cents.
pub const WALLET_LIMIT: u32 = 250_000;

/// Money an operator carries, and the most it can carry.
#[derive(Debug, Clone, Copy, PartialEq, Eq, Structural)]
pub struct Wallet {
    pub money: u32,
    pub limit: u32,
}

/// What happened to a pile of money an operator tried to stow.
#[derive(Debug, Clone, Copy, PartialEq, Eq, Structural)]
pub enum MoneyStowed {
    /// All of it went into the wallet; the pile is gone.
    All { amount: u32 },
    /// The wallet filled up; `stowed` went in and `remainder` stays on the
    /// ground.
    Partial { stowed: u32, remainder: u32 },
}

impl MoneyStowed {
    /// The amount that went into the wallet.
    pub open spec fn stowed_amount(self) -> u32 {
        match self {
            MoneyStowed::All { amount } => amount,
            MoneyStowed::Partial { stowed, .. } => stowed,
        }
    }
}

/// A wallet and a pile of `amount` cents after the pile was stowed, and
/// what happened to the pile.
pub open spec fn wallet_after_stow(w: Wallet, amount: u32) -> (Wallet, MoneyStowed) {
    if w.money + amount <= w.limit {
        (
            Wallet { money: (w.money + amount) as u32, ..w },
            MoneyStowed::All { amount },
        )
    } else {
        let remainder = (w.money + amount - w.limit) as u32;
        (
            Wallet { money: w.limit, ..w },
            MoneyStowed::Partial { stowed: (amount - remainder) as u32, remainder },
        )
    }
}

/// Inputs on which stowing does not overflow: the sum fits a `u32`, and a
/// wallet that would overflow its limit is not already above it.
pub open spec fn stow_in_range(w: Wallet, amount: u32) -> bool {
    &&& w.money + amount <= u32::MAX
    &&& w.money + amount > w.limit ==> w.money <= w.limit
}

impl Wallet {
    /// An empty wallet with the default limit.
    pub fn new() -> (w: Wallet)
        ensures
            w.money == 0,
            w.limit == WALLET_LIMIT,
    {
        Wallet { money: 0, limit: WALLET_LIMIT }
    }

    /// Takes `amount` cents out of the wallet to drop them on the ground;
    /// returns the amount of the dropped pile.
    pub fn drop_money(&mut self, amount: u32) -> (dropped: u32)
        requires
            amount <= old(self).money,
        ensures
            final(self).money == old(self).money - amount,
            final(self).limit == old(self).limit,
            dropped == amount,
    {
        self.money = self.money - amount;
        amount
    }

    /// Stows a pile of `amount` cents: everything fits when the limit allows
    /// it, otherwise the wallet is filled up to its limit and the rest stays
    /// in the pile.
    pub fn stow_money(&mut self, amount: u32) -> (r: MoneyStowed)
        requires
            stow_in_range(*old(self), amount),
        ensures
            (*final(self), r) == wallet_after_stow(*old(self), amount),
    {
        if self.money + amount <= self.limit {
            self.money = self.money + amount;
            MoneyStowed::All { amount }
        } else {
            let remainder = self.money + amount - self.limit;
            self.money = self.limit;
            MoneyStowed::Partial { stowed: amount - remainder, remainder }
        }
    }

    /// Receives `amount` cents (a payout); returns the amount received.
    ///
    /// The wallet takes the whole amount when it fits under the limit; a
    /// payout beyond the limit has no defined outcome (the amount it would
    /// report is negative), so such inputs are excluded: see
    /// `can_receive_money`.
    pub fn receive_money(&mut self, amount: u32) -> (received: u32)
        requires
            old(self).money + amount <= old(self).limit,
        ensures
            final(self).money == old(self).money + amount,
            final(self).limit == old(self).limit,
            received == amount,
    {
        self.money = self.money + amount;
        amount
    }

    /// Whether `amount` cents can be dropped: the wallet must hold them.
    pub fn can_drop_money(&self, amount: u32) -> (r: bool)
        ensures
            r == (amount <= self.money),
    {
        amount <= self.money
    }

    /// Whether a pile of `amount` cents can be stowed without overflow.
    pub fn can_stow_money(&self, amount: u32) -> (r: bool)
        ensures
            r == stow_in_range(*self, amount),
    {
        let sum: u64 = self.money as u64 + amount as u64;
        sum <= u32::MAX as u64 && (sum <= self.limit as u64 || self.money <= self.limit)
    }

    /// Whether a payout of `amount` cents fits under the limit.
    pub fn can_receive_money(&self, amount: u32) -> (r: bool)
        ensures
            r == (self.money + amount <= self.limit),
    {
        (self.money as u64 + amount as u64) <= self.limit as u64
    }
}

impl Default for Wallet {
    fn default() -> (w: Wallet)
        ensures
            w == (Wallet { money: 0, limit: WALLET_LIMIT }),
    {
        Wallet::new()
    }
}

/// Law: stowing conserves money and respects the limit. What enters the
/// wallet plus what stays on the ground is the pile, the wallet grows by
/// exactly what entered, and a wallet within its limit stays within it.
pub proof fn lemma_stow_conserves_money(w: Wallet, amount: u32)
    requires
        stow_in_range(w, amount),
    ensures
        ({
            let (w2, r) = wallet_after_stow(w, amount);
            &&& w2.money == w.money + r.stowed_amount()
            &&& w2.limit == w.limit
            &&& match r {
                MoneyStowed::All { amount: a } => a == amount,
                MoneyStowed::Partial { stowed, remainder } => stowed + remainder == amount
                    && remainder > 0,
            }
            &&& w.money <= w.limit ==> w2.money <= w2.limit
        }),
{
}

/// Law: dropping money and stowing the dropped pile again restores the
/// wallet, for a wallet within its limit.
pub proof fn lemma_drop_then_stow_restores(w: Wallet, amount: u32)
    requires
        amount <= w.money,
        w.money <= w.limit,
    ensures
        ({
            let dropped = Wallet { money: (w.money - amount) as u32, ..w };
            &&& stow_in_range(dropped, amount)
            &&& wallet_after_stow(dropped, amount) == (w, MoneyStowed::All { amount })
        }),
{
}

} // verus!
