use vstd::prelude::*;

use crate::countdown::{Countdown, NANOS_PER_SECOND};

verus! {

/// States of the exfil procedure, in the order in which an exfil passes them.
#[derive(Debug, Clone, Copy, PartialEq, Eq, Structural)]
pub enum ExfilState {
    Available,
    Called,
    EnteredAO,
    Spawned,
    Approached,
    Descended,
    LandingHover,
    TouchedDown,
    BoardingHold,
    TookOff,
    Climbed,
    Cruised,
    ExitedAO,
    Cooldown,
}

/// The state that follows `s`; `Cooldown` leads back to `Available`.
pub open spec fn exfil_successor(s: ExfilState) -> ExfilState {
    match s {
        ExfilState::Available => ExfilState::Called,
        ExfilState::Called => ExfilState::EnteredAO,
        ExfilState::EnteredAO => ExfilState::Spawned,
        ExfilState::Spawned => ExfilState::Approached,
        ExfilState::Approached => ExfilState::Descended,
        ExfilState::Descended => ExfilState::LandingHover,
        ExfilState::LandingHover => ExfilState::TouchedDown,
        ExfilState::TouchedDown => ExfilState::BoardingHold,
        ExfilState::BoardingHold => ExfilState::TookOff,
        ExfilState::TookOff => ExfilState::Climbed,
        ExfilState::Climbed => ExfilState::Cruised,
        ExfilState::Cruised => ExfilState::ExitedAO,
        ExfilState::ExitedAO => ExfilState::Cooldown,
        ExfilState::Cooldown => ExfilState::Available,
    }
}

/// `s` after `n` steps of the exfil state machine.
pub open spec fn exfil_steps(s: ExfilState, n: nat) -> ExfilState
    decreases n,
{
    if n == 0 {
        s
    } else {
        exfil_steps(exfil_successor(s), (n - 1) as nat)
    }
}

/// Length of each exfil phase in seconds.
pub const EXFIL_PHASE_SECONDS: u64 = 1;

/// Length of each exfil phase in nanoseconds.
pub open spec fn exfil_phase_nanos() -> u64 {
    (EXFIL_PHASE_SECONDS * NANOS_PER_SECOND) as u64
}

/// The timer an exfil runs while it is in state `s`: none while it is
/// available, a fresh one-second phase timer otherwise.
pub open spec fn phase_timer(s: ExfilState) -> Option<Countdown> {
    if s == ExfilState::Available {
        None
    } else {
        Some(Countdown::fresh(exfil_phase_nanos()))
    }
}

/// One exfil site: its procedure state, the timer of the current phase and
/// the operator who called it.
#[derive(Debug, Clone, Copy, PartialEq, Eq, Structural)]
pub struct Exfil {
    pub current_state: ExfilState,
    pub current_timer: Option<Countdown>,
    pub exfil_operator: Option<u64>,
}

/// The exfil after one step of its state machine.
pub open spec fn exfil_advanced(e: Exfil) -> Exfil {
    Exfil {
        current_state: exfil_successor(e.current_state),
        current_timer: phase_timer(exfil_successor(e.current_state)),
        exfil_operator: e.exfil_operator,
    }
}

/// The exfil after a call by `caller`: only an available exfil can be called.
pub open spec fn exfil_after_call(e: Exfil, caller: u64) -> Exfil {
    if e.current_state == ExfilState::Available {
        Exfil { exfil_operator: Some(caller), ..exfil_advanced(e) }
    } else {
        e
    }
}

/// The exfil after `delta` nanoseconds, and the operator who is reported as
/// having left the area of operations during that time, if any.
pub open spec fn exfil_after_progress(e: Exfil, delta: u64) -> (Exfil, Option<u64>) {
    match e.current_timer {
        None => (e, None),
        Some(t) => {
            let t2 = t.ticked(delta);
            let e1 = Exfil { current_timer: Some(t2), ..e };
            if t2.just_finished {
                let e2 = if e1.current_state != ExfilState::Available {
                    exfil_advanced(e1)
                } else {
                    e1
                };
                let exited = if e2.current_state == ExfilState::ExitedAO {
                    e2.exfil_operator
                } else {
                    None
                };
                (e2, exited)
            } else {
                (e1, None)
            }
        },
    }
}

impl ExfilState {
    /// The state that follows this one.
    pub fn successor(self) -> (r: ExfilState)
        ensures
            r == exfil_successor(self),
    {
        match self {
            ExfilState::Available => ExfilState::Called,
            ExfilState::Called => ExfilState::EnteredAO,
            ExfilState::EnteredAO => ExfilState::Spawned,
            ExfilState::Spawned => ExfilState::Approached,
            ExfilState::Approached => ExfilState::Descended,
            ExfilState::Descended => ExfilState::LandingHover,
            ExfilState::LandingHover => ExfilState::TouchedDown,
            ExfilState::TouchedDown => ExfilState::BoardingHold,
            ExfilState::BoardingHold => ExfilState::TookOff,
            ExfilState::TookOff => ExfilState::Climbed,
            ExfilState::Climbed => ExfilState::Cruised,
            ExfilState::Cruised => ExfilState::ExitedAO,
            ExfilState::ExitedAO => ExfilState::Cooldown,
            ExfilState::Cooldown => ExfilState::Available,
        }
    }
}

impl Exfil {
    /// A fresh exfil: available, without timer and without operator.
    pub fn new() -> (e: Exfil)
        ensures
            e.current_state == ExfilState::Available,
            e.current_timer.is_none(),
            e.exfil_operator.is_none(),
    {
        Exfil { current_state: ExfilState::Available, current_timer: None, exfil_operator: None }
    }

    /// Steps the state machine and starts the timer of the new phase;
    /// returns the new state.
    pub fn next(&mut self) -> (r: ExfilState)
        ensures
            *final(self) == exfil_advanced(*old(self)),
            r == final(self).current_state,
    {
        let s = self.current_state.successor();
        self.current_state = s;
        self.current_timer = match s {
            ExfilState::Available => None,
            _ => Some(Countdown::from_seconds(EXFIL_PHASE_SECONDS)),
        };
        s
    }

    /// Handles a call of this exfil by operator `caller`: an available exfil
    /// starts its procedure for that operator, any other call is ignored.
    /// Returns whether the call was accepted.
    pub fn call(&mut self, caller: u64) -> (accepted: bool)
        ensures
            *final(self) == exfil_after_call(*old(self), caller),
            accepted == (old(self).current_state == ExfilState::Available),
    {
        if self.current_state == ExfilState::Available {
            self.next();
            self.exfil_operator = Some(caller);
            true
        } else {
            false
        }
    }

    /// Lets `delta` nanoseconds pass for this exfil. When the phase timer
    /// runs out the exfil moves on to its next phase; returns the operator
    /// to report as having left the area when that phase is `ExitedAO`.
    pub fn progress(&mut self, delta: u64) -> (exited: Option<u64>)
        ensures
            (*final(self), exited) == exfil_after_progress(*old(self), delta),
    {
        match self.current_timer {
            None => None,
            Some(t) => {
                let mut t2 = t;
                t2.tick(delta);
                self.current_timer = Some(t2);
                if t2.is_just_finished() {
                    if self.current_state != ExfilState::Available {
                        self.next();
                    }
                    if self.current_state == ExfilState::ExitedAO {
                        self.exfil_operator
                    } else {
                        None
                    }
                } else {
                    None
                }
            },
        }
    }
}

/// Position of a state within the exfil procedure.
pub open spec fn exfil_position(s: ExfilState) -> int {
    match s {
        ExfilState::Available => 0,
        ExfilState::Called => 1,
        ExfilState::EnteredAO => 2,
        ExfilState::Spawned => 3,
        ExfilState::Approached => 4,
        ExfilState::Descended => 5,
        ExfilState::LandingHover => 6,
        ExfilState::TouchedDown => 7,
        ExfilState::BoardingHold => 8,
        ExfilState::TookOff => 9,
        ExfilState::Climbed => 10,
        ExfilState::Cruised => 11,
        ExfilState::ExitedAO => 12,
        ExfilState::Cooldown => 13,
    }
}

proof fn lemma_exfil_steps_position(s: ExfilState, n: nat)
    ensures
        exfil_position(exfil_steps(s, n)) == (exfil_position(s) + n) % 14,
    decreases n,
{
    if n > 0 {
        lemma_exfil_steps_position(exfil_successor(s), (n - 1) as nat);
    }
}

proof fn lemma_exfil_position_injective(a: ExfilState, b: ExfilState)
    requires
        exfil_position(a) == exfil_position(b),
    ensures
        a == b,
{
}

/// Law: the exfil procedure is a cycle of fourteen states; fourteen steps
/// from any state lead back to it, and no fewer steps do.
pub proof fn lemma_exfil_cycle(s: ExfilState)
    ensures
        exfil_steps(s, 14) == s,
        forall|k: nat| 0 < k < 14 ==> #[trigger] exfil_steps(s, k) != s,
{
    lemma_exfil_steps_position(s, 14);
    lemma_exfil_position_injective(exfil_steps(s, 14), s);
    assert forall|k: nat| 0 < k < 14 implies #[trigger] exfil_steps(s, k) != s by {
        lemma_exfil_steps_position(s, k);
    }
}

/// Law: after any step, an exfil runs a fresh phase timer exactly when it is
/// not available, and it keeps its operator.
pub proof fn lemma_exfil_timer_iff_busy(e: Exfil)
    ensures
        exfil_advanced(e).current_timer.is_some() <==> exfil_advanced(e).current_state
            != ExfilState::Available,
        exfil_advanced(e).current_timer matches Some(t) ==> t.wf() && !t.finished,
        exfil_advanced(e).exfil_operator == e.exfil_operator,
{
}

/// Law: an exfil that is busy with a fresh phase timer moves exactly one
/// state on once a full phase has passed, and not before.
pub proof fn lemma_exfil_progress_one_phase(e: Exfil, delta: u64)
    requires
        e.current_state != ExfilState::Available,
        e.current_timer == phase_timer(e.current_state),
    ensures
        delta >= exfil_phase_nanos() ==> exfil_after_progress(e, delta).0.current_state
            == exfil_successor(e.current_state),
        delta < exfil_phase_nanos() ==> exfil_after_progress(e, delta).0.current_state
            == e.current_state,
        exfil_after_progress(e, delta).1 is Some <==> (delta >= exfil_phase_nanos()
            && e.current_state == ExfilState::Cruised && e.exfil_operator is Some),
{
}

/// Law: only an available exfil can be called; a call starts the procedure
/// for the caller, and a second call is refused and changes nothing.
pub proof fn lemma_exfil_call_once(e: Exfil, first: u64, second: u64)
    requires
        e.current_state == ExfilState::Available,
    ensures
        exfil_after_call(e, first).current_state == ExfilState::Called,
        exfil_after_call(e, first).exfil_operator == Some(first),
        exfil_after_call(exfil_after_call(e, first), second) == exfil_after_call(e, first),
{
}

/// Name of an exfil area.
pub struct ExfilArea(pub String);

/// How an operator's exfil-area membership changes in one detection pass.
#[derive(Debug, Clone, Copy, PartialEq, Eq, Structural)]
pub enum AreaChange {
    /// Nothing happens.
    Unchanged,
    /// The operator is now inside the nearby area: it is recorded as the
    /// operator's area and an "entered" event names the nearby exfil.
    Entered,
    /// The operator left its recorded area: the record is removed and an
    /// "exited" event names the area that was left.
    Left,
}

/// Index of the last candidate that is in range, if any.
pub open spec fn is_last_in_range(in_range: Seq<bool>, r: Option<usize>) -> bool {
    match r {
        Some(i) => i < in_range.len() && in_range[i as int] && forall|j: int|
            i < j < in_range.len() ==> !in_range[j],
        None => forall|j: int| 0 <= j < in_range.len() ==> !in_range[j],
    }
}

/// Picks the exfil area an operator counts as being inside: the last of the
/// candidates that lies within range.
pub fn last_in_range(in_range: &[bool]) -> (r: Option<usize>)
    ensures
        is_last_in_range(in_range@, r),
{
    let mut found: Option<usize> = None;
    let mut i: usize = 0;
    while i < in_range.len()
        invariant
            i <= in_range.len(),
            match found {
                Some(k) => k < i && in_range@[k as int] && forall|j: int| k < j < i ==> !in_range@[j],
                None => forall|j: int| 0 <= j < i ==> !in_range@[j],
            },
        decreases in_range.len() - i,
    {
        if in_range[i] {
            found = Some(i);
        }
        i = i + 1;
    }
    found
}

/// The change of membership for an operator whose recorded area is `inside`
/// and who is now near `nearby` (if any), comparing areas by name.
pub open spec fn area_change(inside: Option<Seq<char>>, nearby: Option<Seq<char>>) -> AreaChange {
    match (nearby, inside) {
        (Some(n), Some(i)) => if n != i { AreaChange::Entered } else { AreaChange::Unchanged },
        (Some(_), None) => AreaChange::Entered,
        (None, Some(_)) => AreaChange::Left,
        (None, None) => AreaChange::Unchanged,
    }
}

/// Decides how an operator's exfil-area membership changes, given the area
/// recorded for the operator and the area it is near now.
pub fn exfil_area_change(inside: Option<&ExfilArea>, nearby: Option<&ExfilArea>) -> (r: AreaChange)
    ensures
        r == area_change(
            match inside { Some(a) => Some(a.0@), None => None },
            match nearby { Some(a) => Some(a.0@), None => None },
        ),
{
    match (nearby, inside) {
        (Some(n), Some(i)) => {
            if !n.0.eq(&i.0) {
                AreaChange::Entered
            } else {
                AreaChange::Unchanged
            }
        },
        (Some(_), None) => AreaChange::Entered,
        (None, Some(_)) => AreaChange::Left,
        (None, None) => AreaChange::Unchanged,
    }
}

/// Law: detection is idempotent: once the change has been applied, the same
/// situation produces no further change.
pub proof fn lemma_area_change_settles(inside: Option<Seq<char>>, nearby: Option<Seq<char>>)
    ensures
        ({
            let after = match area_change(inside, nearby) {
                AreaChange::Entered => nearby,
                AreaChange::Left => None,
                AreaChange::Unchanged => inside,
            };
            area_change(after, nearby) == AreaChange::Unchanged
        }),
{
}


/// Law: an exfil reports its operator as having left the area of operations
/// exactly on the tick that ends its cruise: the exfil is cruising with a
/// running phase timer and the tick brings the timer's elapsed time to its
/// duration, whatever the size of the tick. On that tick the exfil is
/// exited; any other tick reports nobody.
pub proof fn lemma_exfil_reports_exit(e: Exfil, delta: u64)
    requires
        e.current_timer matches Some(t) ==> t.wf(),
    ensures
        ({
            let ends_cruise = e.current_state == ExfilState::Cruised && match e.current_timer {
                Some(t) => !t.finished && t.elapsed + delta >= t.duration,
                None => false,
            };
            &&& exfil_after_progress(e, delta).1 == if ends_cruise { e.exfil_operator } else { None }
            &&& ends_cruise ==> exfil_after_progress(e, delta).0.current_state == ExfilState::ExitedAO
        }),
{
}

} // verus!
