use vstd::prelude::*;

verus! {

/// Default armor of an operator.
pub const DEFAULT_ARMOR: i32 = 100;

/// Default health of an operator.
pub const DEFAULT_HEALTH: i32 = 100;

/// Armor points; damage is taken from armor first.
#[derive(Debug, Clone, Copy, PartialEq, Eq, Structural)]
pub struct Armor(pub i32);

/// Health points; an entity whose health drops to zero or below dies.
#[derive(Debug, Clone, Copy, PartialEq, Eq, Structural)]
pub struct Health(pub i32);

/// Damage a hit box deals.
#[derive(Debug, Clone, Copy, PartialEq, Eq, Structural)]
pub struct Damage(pub i32);

/// How the damage of one hit is split between armor and health.
#[derive(Debug, Clone, Copy, PartialEq, Eq, Structural)]
pub struct DamageSplit {
    /// damage assigned to the armor, if the target has armor
    pub armor_damage: Option<i32>,
    /// damage assigned to the health, if the target has health
    pub health_damage: Option<i32>,
    /// damage neither of them took
    pub remaining: i32,
}

/// The part of `damage` a pool of `points` absorbs:
/// `points - max(0, points - damage)`.
pub open spec fn absorbed(points: int, damage: int) -> int {
    points - if points - damage > 0 { points - damage } else { 0 }
}

/// The split of `damage` over optional armor and health: armor absorbs
/// first, health absorbs what armor left over.
pub open spec fn damage_split(damage: int, armor: Option<i32>, health: Option<i32>) -> (
    Option<int>,
    Option<int>,
    int,
) {
    let (armor_damage, after_armor) = match armor {
        Some(a) => (Some(absorbed(a as int, damage)), damage - absorbed(a as int, damage)),
        None => (None, damage),
    };
    let (health_damage, rest) = match health {
        Some(h) => (
            Some(absorbed(h as int, after_armor)),
            after_armor - absorbed(h as int, after_armor),
        ),
        None => (None, after_armor),
    };
    (armor_damage, health_damage, rest)
}

/// Whether `x` fits an `i32`.
pub open spec fn fits_i32(x: int) -> bool {
    i32::MIN <= x <= i32::MAX
}

/// Inputs on which every intermediate value of the damage split fits an
/// `i32`, so that the split does not overflow.
pub open spec fn split_in_range(damage: i32, armor: Option<i32>, health: Option<i32>) -> bool {
    let after_armor = match armor {
        Some(a) => damage - absorbed(a as int, damage as int),
        None => damage as int,
    };
    &&& armor matches Some(a) ==> fits_i32(a - damage) && fits_i32(after_armor)
    &&& health matches Some(h) ==> fits_i32(h - after_armor) && fits_i32(
        after_armor - absorbed(h as int, after_armor),
    )
}

/// Splits the damage of one hit between the target's armor and health.
pub fn split_damage(damage: Damage, armor: Option<Armor>, health: Option<Health>) -> (r: DamageSplit)
    requires
        split_in_range(
            damage.0,
            match armor { Some(a) => Some(a.0), None => None },
            match health { Some(h) => Some(h.0), None => None },
        ),
    ensures
        ({
            let (a, h, rest) = damage_split(
                damage.0 as int,
                match armor { Some(a) => Some(a.0), None => None },
                match health { Some(h) => Some(h.0), None => None },
            );
            &&& a == match r.armor_damage { Some(x) => Some(x as int), None => None }
            &&& h == match r.health_damage { Some(x) => Some(x as int), None => None }
            &&& rest == r.remaining as int
        }),
{
    let mut remaining_damage = damage.0;
    let mut armor_damage: Option<i32> = None;
    let mut health_damage: Option<i32> = None;
    if let Some(a) = armor {
        let x = if a.0 - damage.0 > 0 { a.0 - damage.0 } else { 0 };
        let y = a.0 - x;
        armor_damage = Some(y);
        remaining_damage = damage.0 - y;
    }
    if let Some(h) = health {
        let x = if h.0 - remaining_damage > 0 { h.0 - remaining_damage } else { 0 };
        let y = h.0 - x;
        health_damage = Some(y);
        remaining_damage = remaining_damage - y;
    }
    DamageSplit { armor_damage, health_damage, remaining: remaining_damage }
}

/// Whether the damage split of one hit stays within `i32` at every step,
/// that is, whether `split_damage` may be called on these inputs.
pub fn split_fits(damage: Damage, armor: Option<Armor>, health: Option<Health>) -> (r: bool)
    ensures
        r == split_in_range(
            damage.0,
            match armor { Some(a) => Some(a.0), None => None },
            match health { Some(h) => Some(h.0), None => None },
        ),
{
    let d: i64 = damage.0 as i64;
    let lo: i64 = i32::MIN as i64;
    let hi: i64 = i32::MAX as i64;
    let mut after_armor: i64 = d;
    if let Some(a) = armor {
        let a: i64 = a.0 as i64;
        if !(lo <= a - d && a - d <= hi) {
            return false;
        }
        let absorbed: i64 = a - if a - d > 0 { a - d } else { 0 };
        after_armor = d - absorbed;
        if !(lo <= after_armor && after_armor <= hi) {
            return false;
        }
    }
    if let Some(h) = health {
        let h: i64 = h.0 as i64;
        if !(lo <= h - after_armor && h - after_armor <= hi) {
            return false;
        }
        let absorbed: i64 = h - if h - after_armor > 0 { h - after_armor } else { 0 };
        let rest: i64 = after_armor - absorbed;
        if !(lo <= rest && rest <= hi) {
            return false;
        }
    }
    true
}

/// Whether `damage` can be taken off a pool of `points` without leaving
/// `i32`.
pub fn damage_fits(points: i32, damage: i32) -> (r: bool)
    ensures
        r == (i32::MIN <= points - damage <= i32::MAX),
{
    let v: i64 = points as i64 - damage as i64;
    i32::MIN as i64 <= v && v <= i32::MAX as i64
}

impl Armor {
    /// Full armor.
    pub fn new() -> (a: Armor)
        ensures
            a.0 == DEFAULT_ARMOR,
    {
        Armor(DEFAULT_ARMOR)
    }

    /// Takes `damage` off the armor.
    pub fn receive_damage(&mut self, damage: i32)
        requires
            i32::MIN <= old(self).0 - damage <= i32::MAX,
        ensures
            final(self).0 == old(self).0 - damage,
    {
        self.0 = self.0 - damage;
    }
}

impl Health {
    /// Full health.
    pub fn new() -> (h: Health)
        ensures
            h.0 == DEFAULT_HEALTH,
    {
        Health(DEFAULT_HEALTH)
    }

    /// Takes `damage` off the health; returns whether the entity dies, that
    /// is, whether its health is now zero or below.
    pub fn receive_damage(&mut self, damage: i32) -> (dies: bool)
        requires
            i32::MIN <= old(self).0 - damage <= i32::MAX,
        ensures
            final(self).0 == old(self).0 - damage,
            dies == (final(self).0 <= 0),
    {
        self.0 = self.0 - damage;
        self.0 <= 0
    }
}

impl Default for Armor {
    fn default() -> (a: Armor)
        ensures
            a == Armor(DEFAULT_ARMOR),
    {
        Armor::new()
    }
}

impl Default for Health {
    fn default() -> (h: Health)
        ensures
            h == Health(DEFAULT_HEALTH),
    {
        Health::new()
    }
}

/// Law: for non-negative armor, health and damage, the split accounts for
/// every point of damage, no pool takes more than it has or than the hit
/// deals, health only takes damage once the armor is used up, and applying
/// the split leaves both pools at zero or above.
pub proof fn lemma_damage_split_sound(damage: int, armor: i32, health: i32)
    requires
        damage >= 0,
        armor >= 0,
        health >= 0,
    ensures
        ({
            let (a, h, rest) = damage_split(damage, Some(armor), Some(health));
            let ad = a.unwrap();
            let hd = h.unwrap();
            &&& ad + hd + rest == damage
            &&& 0 <= ad <= armor && ad <= damage
            &&& 0 <= hd <= health
            &&& rest >= 0
            &&& hd > 0 ==> ad == armor
            &&& rest > 0 ==> ad == armor && hd == health
            &&& armor - ad >= 0 && health - hd >= 0
            &&& ad == if damage < armor { damage } else { armor as int }
            &&& hd == if damage - ad < health { damage - ad } else { health as int }
        }),
{
}


/// The smaller of two integers.
pub open spec fn min_int(x: int, y: int) -> int {
    if x <= y { x } else { y }
}

/// Law: every pool takes the smaller of what it has and what reaches it.
/// The armor (if any) takes min(damage, armor); the health (if any) takes
/// min(what the armor let through, health); the rest is left over. So health
/// never takes more than it has, with or without armor, and an unarmored
/// target of health `h` hit for `d` takes min(d, h) with d - min(d, h) left.
pub proof fn lemma_damage_split_caps(damage: int, armor: Option<i32>, health: Option<i32>)
    ensures
        ({
            let to_armor = match armor {
                Some(a) => min_int(damage, a as int),
                None => 0,
            };
            let after_armor = damage - to_armor;
            let to_health = match health {
                Some(h) => min_int(after_armor, h as int),
                None => 0,
            };
            damage_split(damage, armor, health) == (
                match armor {
                    Some(_) => Some(to_armor),
                    None => None::<int>,
                },
                match health {
                    Some(_) => Some(to_health),
                    None => None::<int>,
                },
                after_armor - to_health,
            )
        }),
        health matches Some(h) ==> damage_split(damage, None, Some(h)) == (
            None::<int>,
            Some(min_int(damage, h as int)),
            damage - min_int(damage, h as int),
        ),
{
}

} // verus!
