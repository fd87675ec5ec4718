use vstd::prelude::*;

verus! {

/// Nanoseconds in one second.
pub const NANOS_PER_SECOND: u64 = 1_000_000_000;

/// A one-shot countdown, measured in nanoseconds.
///
/// It counts `elapsed` up towards `duration`. Once `elapsed` reaches
/// `duration` the countdown is finished and stays finished; `just_finished`
/// is set only by the tick during which it finished.
///
/// These are the semantics of bevy's `Timer` in `TimerMode::Once` (bevy_time
/// 0.15, `Timer::tick`), unpaused: ticking a finished timer only clears
/// `just_finished`; otherwise the elapsed time grows by the tick, and when it
/// reaches the duration it is set to the duration and the timer is finished
/// and just finished. `Timer::finished`, `Timer::just_finished` and
/// `Timer::remaining` correspond to `is_finished`, `is_just_finished` and
/// `remaining`. The timer there is built from float seconds; here durations
/// are whole nanoseconds and the elapsed time saturates at `u64::MAX`
/// instead of overflowing. `ticked` states one tick as a spec function.
#[derive(Debug, Clone, Copy, PartialEq, Eq, Structural)]
pub struct Countdown {
    pub duration: u64,
    pub elapsed: u64,
    pub finished: bool,
    pub just_finished: bool,
}

/// Saturating addition on `u64`, as a mathematical function.
pub open spec fn saturating_sum(a: u64, b: u64) -> u64 {
    if a + b > u64::MAX { u64::MAX } else { (a + b) as u64 }
}

impl Countdown {
    /// Well-formedness: elapsed never passes the duration, a finished
    /// countdown sits exactly at its duration, and only a finished countdown
    /// can have just finished.
    pub open spec fn wf(self) -> bool {
        &&& self.elapsed <= self.duration
        &&& self.finished ==> self.elapsed == self.duration
        &&& self.just_finished ==> self.finished
    }

    /// A countdown of `duration` nanoseconds that has not started yet.
    pub open spec fn fresh(duration: u64) -> Countdown {
        Countdown { duration, elapsed: 0, finished: false, just_finished: false }
    }

    /// The countdown after `delta` more nanoseconds have passed.
    pub open spec fn ticked(self, delta: u64) -> Countdown {
        if self.finished {
            Countdown { just_finished: false, ..self }
        } else {
            let e = saturating_sum(self.elapsed, delta);
            if e >= self.duration {
                Countdown {
                    duration: self.duration,
                    elapsed: self.duration,
                    finished: true,
                    just_finished: true,
                }
            } else {
                Countdown { duration: self.duration, elapsed: e, finished: false, just_finished: false }
            }
        }
    }

    /// Starts a countdown over `duration` nanoseconds.
    pub fn new(duration: u64) -> (c: Countdown)
        ensures
            c == Countdown::fresh(duration),
            c.wf(),
    {
        Countdown { duration, elapsed: 0, finished: false, just_finished: false }
    }

    /// Starts a countdown over `seconds` whole seconds.
    pub fn from_seconds(seconds: u64) -> (c: Countdown)
        requires
            seconds * NANOS_PER_SECOND <= u64::MAX,
        ensures
            c == Countdown::fresh((seconds * NANOS_PER_SECOND) as u64),
            c.wf(),
    {
        Countdown::new(seconds * NANOS_PER_SECOND)
    }

    /// Lets `delta` nanoseconds pass.
    pub fn tick(&mut self, delta: u64)
        ensures
            *final(self) == old(self).ticked(delta),
            old(self).wf() ==> final(self).wf(),
    {
        if self.finished {
            self.just_finished = false;
        } else {
            let e = self.elapsed.saturating_add(delta);
            if e >= self.duration {
                self.elapsed = self.duration;
                self.finished = true;
                self.just_finished = true;
            } else {
                self.elapsed = e;
                self.just_finished = false;
            }
        }
    }

    /// Whether the countdown has run out.
    pub fn is_finished(&self) -> (r: bool)
        ensures
            r == self.finished,
    {
        self.finished
    }

    /// Whether the countdown ran out during the last tick.
    pub fn is_just_finished(&self) -> (r: bool)
        ensures
            r == self.just_finished,
    {
        self.just_finished
    }

    /// Nanoseconds left until the countdown runs out.
    pub fn remaining(&self) -> (r: u64)
        requires
            self.wf(),
        ensures
            r == self.duration - self.elapsed,
    {
        self.duration - self.elapsed
    }
}

/// Law: a tick of at least the remaining time finishes a running countdown,
/// and the tick after that no longer reports it as just finished.
pub proof fn lemma_countdown_runs_out(c: Countdown, delta: u64, later: u64)
    requires
        c.wf(),
        !c.finished,
        delta >= c.duration - c.elapsed,
    ensures
        c.ticked(delta).finished,
        c.ticked(delta).just_finished,
        c.ticked(delta).elapsed == c.duration,
        c.ticked(delta).ticked(later).finished,
        !c.ticked(delta).ticked(later).just_finished,
{
}

/// Law: ticks never shrink the elapsed time and never un-finish a countdown.
pub proof fn lemma_countdown_monotone(c: Countdown, delta: u64)
    requires
        c.wf(),
    ensures
        c.ticked(delta).wf(),
        c.ticked(delta).elapsed >= c.elapsed,
        c.finished ==> c.ticked(delta).finished,
        c.ticked(delta).duration == c.duration,
{
}


/// Law: one tick, in terms of the countdown's fields. A running countdown
/// that the tick does not finish gains exactly the tick's length; one that the
/// tick finishes ends at its duration and is finished and just finished; a
/// finished countdown stays as it is but for no longer being just finished.
pub proof fn lemma_tick_adds_delta(c: Countdown, delta: u64)
    ensures
        c.ticked(delta).duration == c.duration,
        !c.finished && c.elapsed + delta < c.duration ==> {
            &&& c.ticked(delta).elapsed == c.elapsed + delta
            &&& !c.ticked(delta).finished
            &&& !c.ticked(delta).just_finished
        },
        !c.finished && c.elapsed + delta >= c.duration ==> {
            &&& c.ticked(delta).elapsed == c.duration
            &&& c.ticked(delta).finished
            &&& c.ticked(delta).just_finished
        },
        c.finished ==> {
            &&& c.ticked(delta).elapsed == c.elapsed
            &&& c.ticked(delta).finished
            &&& !c.ticked(delta).just_finished
        },
{
}

} // verus!
