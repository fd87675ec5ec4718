use vstd::prelude::*;

use crate::countdown::Countdown;

verus! {

/// Seconds of a raid before the gas starts spreading.
pub const RAID_COUNTDOWN_SECONDS: u64 = 30;

/// Seconds the gas takes to spread.
pub const GAS_SPREADING_COUNTDOWN_SECONDS: u64 = 30;

/// Countdown of the raid; when it runs out the gas starts spreading.
#[derive(Debug, Clone, Copy, PartialEq, Eq, Structural)]
pub struct RaidCountdown(pub Countdown);

/// Countdown of the spreading gas.
#[derive(Debug, Clone, Copy, PartialEq, Eq, Structural)]
pub struct GasSpreadingCountdown(pub Countdown);

impl RaidCountdown {
    /// A fresh raid countdown.
    pub fn new() -> (c: RaidCountdown)
        ensures
            c.0 == Countdown::fresh((RAID_COUNTDOWN_SECONDS * 1_000_000_000) as u64),
            c.0.wf(),
    {
        RaidCountdown(Countdown::from_seconds(RAID_COUNTDOWN_SECONDS))
    }

    /// Lets `delta` nanoseconds pass; returns whether the raid countdown ran
    /// out just now, which is when the gas starts spreading and the raid
    /// countdown is dropped.
    pub fn update(&mut self, delta: u64) -> (gas_starts: bool)
        ensures
            final(self).0 == old(self).0.ticked(delta),
            old(self).0.wf() ==> final(self).0.wf(),
            gas_starts == final(self).0.just_finished,
    {
        self.0.tick(delta);
        self.0.is_just_finished()
    }
}

impl GasSpreadingCountdown {
    /// A fresh gas countdown.
    pub fn new() -> (c: GasSpreadingCountdown)
        ensures
            c.0 == Countdown::fresh((GAS_SPREADING_COUNTDOWN_SECONDS * 1_000_000_000) as u64),
            c.0.wf(),
    {
        GasSpreadingCountdown(Countdown::from_seconds(GAS_SPREADING_COUNTDOWN_SECONDS))
    }

    /// Lets `delta` nanoseconds pass; returns whether the gas finished
    /// spreading just now.
    pub fn update(&mut self, delta: u64) -> (spread: bool)
        ensures
            final(self).0 == old(self).0.ticked(delta),
            old(self).0.wf() ==> final(self).0.wf(),
            spread == final(self).0.just_finished,
    {
        self.0.tick(delta);
        self.0.is_just_finished()
    }
}

/// Law: the raid countdown starts the gas exactly once: the tick that
/// completes thirty seconds reports it, and no later tick does.
pub proof fn lemma_gas_starts_once(c: Countdown, delta: u64, later: u64)
    requires
        c.wf(),
        !c.finished,
    ensures
        c.ticked(delta).just_finished <==> c.elapsed + delta >= c.duration,
        !c.ticked(delta).ticked(later).just_finished || !c.ticked(delta).just_finished,
{
}

} // verus!
