use dmz::countdown::Countdown;
use dmz::exfil::{
    exfil_area_change, last_in_range, AreaChange, Exfil, ExfilArea, ExfilState,
};

const SECOND: u64 = 1_000_000_000;

#[test]
fn should_exfil() {
    let mut exfil = Exfil::new();
    assert_eq!(ExfilState::Available, exfil.current_state);
    assert_eq!(ExfilState::Called, exfil.next());
    assert_eq!(ExfilState::Called, exfil.current_state);
    assert_eq!(ExfilState::EnteredAO, exfil.next());
    assert_eq!(ExfilState::EnteredAO, exfil.current_state);
    assert_eq!(ExfilState::Spawned, exfil.next());
    assert_eq!(ExfilState::Spawned, exfil.current_state);
    assert_eq!(ExfilState::Approached, exfil.next());
    assert_eq!(ExfilState::Approached, exfil.current_state);
    assert_eq!(ExfilState::Descended, exfil.next());
    assert_eq!(ExfilState::Descended, exfil.current_state);
    assert_eq!(ExfilState::LandingHover, exfil.next());
    assert_eq!(ExfilState::LandingHover, exfil.current_state);
    assert_eq!(ExfilState::TouchedDown, exfil.next());
    assert_eq!(ExfilState::TouchedDown, exfil.current_state);
    assert_eq!(ExfilState::BoardingHold, exfil.next());
    assert_eq!(ExfilState::BoardingHold, exfil.current_state);
    assert_eq!(ExfilState::TookOff, exfil.next());
    assert_eq!(ExfilState::TookOff, exfil.current_state);
    assert_eq!(ExfilState::Climbed, exfil.next());
    assert_eq!(ExfilState::Climbed, exfil.current_state);
    assert_eq!(ExfilState::Cruised, exfil.next());
    assert_eq!(ExfilState::Cruised, exfil.current_state);
    assert_eq!(ExfilState::ExitedAO, exfil.next());
    assert_eq!(ExfilState::ExitedAO, exfil.current_state);
    assert_eq!(ExfilState::Cooldown, exfil.next());
    assert_eq!(ExfilState::Cooldown, exfil.current_state);
    assert_eq!(ExfilState::Available, exfil.next());
    assert_eq!(ExfilState::Available, exfil.current_state);
}

#[test]
fn next_starts_phase_timer_except_when_available() {
    let mut exfil = Exfil::new();
    exfil.next();
    assert_eq!(exfil.current_timer, Some(Countdown::new(SECOND)));
    for _ in 0..13 {
        exfil.next();
    }
    assert_eq!(exfil.current_state, ExfilState::Available);
    assert_eq!(exfil.current_timer, None);
}

#[test]
fn call_only_accepted_when_available() {
    let mut exfil = Exfil::new();
    assert!(exfil.call(7));
    assert_eq!(exfil.current_state, ExfilState::Called);
    assert_eq!(exfil.exfil_operator, Some(7));
    assert!(!exfil.call(8));
    assert_eq!(exfil.current_state, ExfilState::Called);
    assert_eq!(exfil.exfil_operator, Some(7));
}

#[test]
fn progress_walks_through_procedure_and_reports_exit_once() {
    let mut exfil = Exfil::new();
    exfil.call(42);
    let mut reports = Vec::new();
    // half a phase does not advance
    assert_eq!(exfil.progress(SECOND / 2), None);
    assert_eq!(exfil.current_state, ExfilState::Called);
    assert_eq!(exfil.progress(SECOND / 2), None);
    assert_eq!(exfil.current_state, ExfilState::EnteredAO);
    for _ in 0..12 {
        if let Some(op) = exfil.progress(SECOND) {
            reports.push((op, exfil.current_state));
        }
    }
    assert_eq!(reports, vec![(42, ExfilState::ExitedAO)]);
    assert_eq!(exfil.current_state, ExfilState::Available);
    assert_eq!(exfil.current_timer, None);
    // an available exfil does not move on its own
    assert_eq!(exfil.progress(SECOND), None);
    assert_eq!(exfil.current_state, ExfilState::Available);
}

#[test]
fn last_in_range_picks_last_candidate() {
    assert_eq!(last_in_range(&[true, false, true, false]), Some(2));
    assert_eq!(last_in_range(&[false, false]), None);
    assert_eq!(last_in_range(&[]), None);
}

#[test]
fn area_changes() {
    let a = ExfilArea("north".to_string());
    let b = ExfilArea("south".to_string());
    assert_eq!(exfil_area_change(None, Some(&a)), AreaChange::Entered);
    assert_eq!(exfil_area_change(Some(&a), Some(&a)), AreaChange::Unchanged);
    assert_eq!(exfil_area_change(Some(&a), Some(&b)), AreaChange::Entered);
    assert_eq!(exfil_area_change(Some(&a), None), AreaChange::Left);
    assert_eq!(exfil_area_change(None, None), AreaChange::Unchanged);
}
