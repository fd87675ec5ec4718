use dmz::spawn::{assign_spawns, SpawnPoint};
use dmz::squad::SquadId;

#[test]
fn should_move_single_operator_to_single_spawn_position() {
    let r = assign_spawns(&[SquadId(123)], &[SpawnPoint { squad: SquadId(123), occupied: false }]);
    assert_eq!(r, vec![Some(0)]);
}

#[test]
fn should_move_two_operators_to_two_spawn_positions() {
    let spawns = [
        SpawnPoint { squad: SquadId(123), occupied: false },
        SpawnPoint { squad: SquadId(123), occupied: false },
    ];
    let r = assign_spawns(&[SquadId(123), SquadId(123)], &spawns);
    assert_eq!(r, vec![Some(0), Some(1)]);
}

#[test]
fn spawns_respect_squad_and_occupation() {
    let spawns = [
        SpawnPoint { squad: SquadId(1), occupied: true },
        SpawnPoint { squad: SquadId(2), occupied: false },
        SpawnPoint { squad: SquadId(1), occupied: false },
    ];
    let r = assign_spawns(&[SquadId(1), SquadId(1), SquadId(2), SquadId(3)], &spawns);
    assert_eq!(r, vec![Some(2), None, Some(1), None]);
}

#[test]
fn spawns_first_come_first_served_per_squad() {
    let spawns = [
        SpawnPoint { squad: SquadId(7), occupied: false },
        SpawnPoint { squad: SquadId(8), occupied: false },
        SpawnPoint { squad: SquadId(8), occupied: true },
    ];
    let r = assign_spawns(&[SquadId(8), SquadId(7), SquadId(8), SquadId(7)], &spawns);
    assert_eq!(r, vec![Some(1), Some(0), None, None]);
}
