use vstd::prelude::*;

use crate::countdown::Countdown;

verus! {

/// Seconds an operator may stay out of bounds before the countdown expires.
pub const OUT_OF_BOUNDS_SECONDS: u64 = 3;

/// Whether an operator is out of bounds.
#[derive(Debug, Clone, Copy, PartialEq, Eq, Structural)]
pub struct OutOfBounds(pub bool);

/// Notice that an operator crossed the bounds.
#[derive(Debug, Clone, Copy, PartialEq, Eq, Structural)]
pub enum BoundsCrossing {
    /// the operator left the bounds
    Left,
    /// the operator came back within the bounds
    Returned,
}

/// Result of one bounds check for an operator.
#[derive(Debug, Clone, Copy, PartialEq, Eq, Structural)]
pub struct BoundsCheck {
    /// the out-of-bounds flag to store for the operator
    pub stored: bool,
    /// the crossing to report, if any
    pub crossing: Option<BoundsCrossing>,
}

/// The bounds check for an operator whose stored flag is `current` (none
/// before the first check) and who is now out of bounds when `now_out`.
///
/// The crossing compares `now_out` with the stored flag (taken as "inside"
/// when there is none). An operator without a stored flag gets the flag
/// "inside" stored, whatever `now_out` is.
pub open spec fn bounds_check(current: Option<OutOfBounds>, now_out: bool) -> BoundsCheck {
    let was_out = match current {
        Some(f) => f.0,
        None => false,
    };
    BoundsCheck {
        stored: match current {
            Some(_) => now_out,
            None => was_out,
        },
        crossing: if was_out != now_out {
            if now_out { Some(BoundsCrossing::Left) } else { Some(BoundsCrossing::Returned) }
        } else {
            None
        },
    }
}

/// Checks an operator against the bounds.
pub fn check_bounds(current: Option<OutOfBounds>, now_out: bool) -> (r: BoundsCheck)
    ensures
        r == bounds_check(current, now_out),
{
    let mut was_out = false;
    let stored;
    match current {
        Some(f) => {
            was_out = f.0;
            stored = now_out;
        },
        None => {
            stored = was_out;
        },
    }
    let crossing = if was_out != now_out {
        if now_out {
            Some(BoundsCrossing::Left)
        } else {
            Some(BoundsCrossing::Returned)
        }
    } else {
        None
    };
    BoundsCheck { stored, crossing }
}

/// Law: once an operator's flag is stored, checks report a crossing exactly
/// when the operator's side of the bounds changes, store the new side, and
/// a second check on the same side reports nothing.
pub proof fn lemma_bounds_check_stable(was_out: bool, now_out: bool)
    ensures
        bounds_check(Some(OutOfBounds(was_out)), now_out).stored == now_out,
        bounds_check(Some(OutOfBounds(was_out)), now_out).crossing is Some <==> was_out != now_out,
        bounds_check(Some(OutOfBounds(now_out)), now_out).crossing is None,
{
}

/// Countdown that runs while an operator is out of bounds.
#[derive(Debug, Clone, Copy, PartialEq, Eq, Structural)]
pub struct OutOfBoundsCountdown(pub Countdown);

impl OutOfBoundsCountdown {
    /// A fresh three-second countdown.
    pub fn new() -> (c: OutOfBoundsCountdown)
        ensures
            c.0 == Countdown::fresh((OUT_OF_BOUNDS_SECONDS * 1_000_000_000) as u64),
            c.0.wf(),
    {
        OutOfBoundsCountdown(Countdown::from_seconds(OUT_OF_BOUNDS_SECONDS))
    }

    /// Lets `delta` nanoseconds pass; returns whether the countdown has
    /// expired, in which case the operator is lost.
    pub fn count_down(&mut self, delta: u64) -> (expired: bool)
        ensures
            final(self).0 == old(self).0.ticked(delta),
            old(self).0.wf() ==> final(self).0.wf(),
            expired == final(self).0.finished,
    {
        self.0.tick(delta);
        self.0.is_finished()
    }
}

} // verus!
