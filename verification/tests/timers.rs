use dmz::bounds::{check_bounds, BoundsCheck, BoundsCrossing, OutOfBounds, OutOfBoundsCountdown};
use dmz::countdown::Countdown;
use dmz::projectile::{emitters_of, Projectile, ProjectileEmitter, ProjectileTime};
use dmz::timers::{GasSpreadingCountdown, RaidCountdown};

const SECOND: u64 = 1_000_000_000;

#[test]
fn countdown_finishes_once() {
    let mut c = Countdown::new(2 * SECOND);
    c.tick(SECOND);
    assert!(!c.is_finished());
    assert_eq!(c.remaining(), SECOND);
    c.tick(3 * SECOND);
    assert!(c.is_finished());
    assert!(c.is_just_finished());
    assert_eq!(c.remaining(), 0);
    c.tick(SECOND);
    assert!(c.is_finished());
    assert!(!c.is_just_finished());
    c.tick(u64::MAX);
    assert_eq!(c.elapsed, 2 * SECOND);
}

#[test]
fn raid_countdown_starts_gas_after_thirty_seconds() {
    let mut raid = RaidCountdown::new();
    let mut starts = 0;
    for _ in 0..40 {
        if raid.update(SECOND) {
            starts += 1;
        }
    }
    assert_eq!(starts, 1);
    let mut gas = GasSpreadingCountdown::new();
    assert!(!gas.update(29 * SECOND));
    assert!(gas.update(SECOND));
}

#[test]
fn out_of_bounds_checks() {
    assert_eq!(
        check_bounds(None, true),
        BoundsCheck { stored: false, crossing: Some(BoundsCrossing::Left) }
    );
    assert_eq!(
        check_bounds(Some(OutOfBounds(false)), true),
        BoundsCheck { stored: true, crossing: Some(BoundsCrossing::Left) }
    );
    assert_eq!(
        check_bounds(Some(OutOfBounds(true)), false),
        BoundsCheck { stored: false, crossing: Some(BoundsCrossing::Returned) }
    );
    assert_eq!(check_bounds(Some(OutOfBounds(true)), true), BoundsCheck { stored: true, crossing: None });
    assert_eq!(check_bounds(None, false), BoundsCheck { stored: false, crossing: None });
}

#[test]
fn out_of_bounds_countdown_expires_after_three_seconds() {
    let mut c = OutOfBoundsCountdown::new();
    assert!(!c.count_down(2 * SECOND));
    assert!(c.count_down(SECOND));
}

#[test]
fn projectiles_expire_and_emit() {
    let mut t = ProjectileTime::new();
    assert!(!t.expire(SECOND));
    assert!(t.expire(2 * SECOND));
    assert_eq!(Projectile::default().mass, 8);
    assert_eq!(ProjectileEmitter::default(), ProjectileEmitter { velocity: 300, rate: 13 });
    assert_eq!(emitters_of(&[1, 2, 1, 3], 1), vec![0, 2]);
    assert_eq!(emitters_of(&[1, 2], 9), Vec::<usize>::new());
}
