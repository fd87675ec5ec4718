use vstd::prelude::*;

use crate::countdown::Countdown;

verus! {

/// Seconds a projectile flies before it disappears.
pub const BULLET_TTL_SECONDS: u64 = 3;

/// Speed of a bullet.
pub const BULLET_VELOCITY: u32 = 300;

/// Mass of a bullet.
pub const BULLET_MASS: u32 = 8;

/// Shots per second.
pub const RATE_OF_FIRE: u32 = 13;

/// A flying projectile.
#[derive(Debug, Clone, Copy, PartialEq, Eq, Structural)]
pub struct Projectile {
    pub mass: u32,
}

/// Time a projectile has left.
#[derive(Debug, Clone, Copy, PartialEq, Eq, Structural)]
pub struct ProjectileTime {
    pub timer: Countdown,
}

/// A weapon that emits projectiles.
#[derive(Debug, Clone, Copy, PartialEq, Eq, Structural)]
pub struct ProjectileEmitter {
    pub velocity: u32,
    pub rate: u32,
}

impl Projectile {
    /// A bullet.
    pub fn new() -> (p: Projectile)
        ensures
            p.mass == BULLET_MASS,
    {
        Projectile { mass: BULLET_MASS }
    }
}

impl Default for Projectile {
    fn default() -> (p: Projectile)
        ensures
            p == (Projectile { mass: BULLET_MASS }),
    {
        Projectile::new()
    }
}

impl ProjectileEmitter {
    /// A rifle firing bullets.
    pub fn new() -> (e: ProjectileEmitter)
        ensures
            e.velocity == BULLET_VELOCITY,
            e.rate == RATE_OF_FIRE,
    {
        ProjectileEmitter { velocity: BULLET_VELOCITY, rate: RATE_OF_FIRE }
    }
}

impl Default for ProjectileEmitter {
    fn default() -> (e: ProjectileEmitter)
        ensures
            e == (ProjectileEmitter { velocity: BULLET_VELOCITY, rate: RATE_OF_FIRE }),
    {
        ProjectileEmitter::new()
    }
}

impl ProjectileTime {
    /// A fresh projectile lifetime.
    pub fn new() -> (t: ProjectileTime)
        ensures
            t.timer == Countdown::fresh((BULLET_TTL_SECONDS * 1_000_000_000) as u64),
            t.timer.wf(),
    {
        ProjectileTime { timer: Countdown::from_seconds(BULLET_TTL_SECONDS) }
    }

    /// Lets `delta` nanoseconds pass; returns whether the projectile's time
    /// is up and it disappears.
    pub fn expire(&mut self, delta: u64) -> (expired: bool)
        ensures
            final(self).timer == old(self).timer.ticked(delta),
            old(self).timer.wf() ==> final(self).timer.wf(),
            expired == final(self).timer.finished,
    {
        self.timer.tick(delta);
        self.timer.is_finished()
    }
}

/// The emitters that fire a single shot of `shooter`: the indices, in
/// order, of the emitters whose parent is the shooter.
pub fn emitters_of(parents: &[u64], shooter: u64) -> (r: Vec<usize>)
    ensures
        forall|k: int| 0 <= k < r@.len() ==> r@[k] < parents@.len() && parents@[r@[k] as int] == shooter,
        forall|k1: int, k2: int| 0 <= k1 < k2 < r@.len() ==> r@[k1] < r@[k2],
        forall|i: int| 0 <= i < parents@.len() && parents@[i] == shooter ==> exists|k: int|
            0 <= k < r@.len() && r@[k] == i,
{
    let mut r: Vec<usize> = Vec::new();
    let mut i: usize = 0;
    while i < parents.len()
        invariant
            i <= parents.len(),
            forall|k: int| 0 <= k < r@.len() ==> r@[k] < i && parents@[r@[k] as int] == shooter,
            forall|k1: int, k2: int| 0 <= k1 < k2 < r@.len() ==> r@[k1] < r@[k2],
            forall|j: int| 0 <= j < i && parents@[j] == shooter ==> exists|k: int|
                0 <= k < r@.len() && r@[k] == j,
        decreases parents.len() - i,
    {
        if parents[i] == shooter {
            let ghost old_r = r@;
            r.push(i);
            proof {
                assert forall|j: int| 0 <= j < i + 1 && parents@[j] == shooter implies exists|k: int|
                    0 <= k < r@.len() && r@[k] == j by {
                    if j == i {
                        assert(r@[r@.len() - 1] == j);
                    } else {
                        let k = choose|k: int| 0 <= k < old_r.len() && old_r[k] == j;
                        assert(r@[k] == j);
                    }
                }
            }
        }
        i = i + 1;
    }
    r
}

} // verus!
