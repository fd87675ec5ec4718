use vstd::prelude::*;

use crate::text::{i32_text, signed_decimal};

verus! {

/// The eight compass directions.
#[derive(Debug, Clone, Copy, PartialEq, Eq, Structural)]
pub enum Direction {
    N,
    NE,
    E,
    SE,
    S,
    SW,
    W,
    NW,
}

/// The direction of a heading in degrees. Headings are taken modulo 360 by
/// truncating division, so negative headings (whose remainder is negative)
/// count as north, like remainders outside the sectors.
pub open spec fn direction_of(value: int) -> Direction {
    if value < 0 {
        Direction::N
    } else {
        let angle = value % 360;
        if angle <= 22 {
            Direction::N
        } else if angle <= 67 {
            Direction::NE
        } else if angle <= 112 {
            Direction::E
        } else if angle <= 157 {
            Direction::SE
        } else if angle <= 202 {
            Direction::S
        } else if angle <= 247 {
            Direction::SW
        } else if angle <= 292 {
            Direction::W
        } else if angle <= 337 {
            Direction::NW
        } else {
            Direction::N
        }
    }
}

/// Name of a direction, as shown on the compass.
pub open spec fn direction_name(d: Direction) -> Seq<char> {
    match d {
        Direction::N => "N"@,
        Direction::NE => "NE"@,
        Direction::E => "E"@,
        Direction::SE => "SE"@,
        Direction::S => "S"@,
        Direction::SW => "SW"@,
        Direction::W => "W"@,
        Direction::NW => "NW"@,
    }
}

impl Direction {
    /// The direction of a heading in degrees.
    pub fn from_heading(value: i32) -> (d: Direction)
        ensures
            d == direction_of(value as int),
    {
        if value < 0 {
            return Direction::N;
        }
        let angle = value % 360;
        if angle <= 22 {
            Direction::N
        } else if angle <= 67 {
            Direction::NE
        } else if angle <= 112 {
            Direction::E
        } else if angle <= 157 {
            Direction::SE
        } else if angle <= 202 {
            Direction::S
        } else if angle <= 247 {
            Direction::SW
        } else if angle <= 292 {
            Direction::W
        } else if angle <= 337 {
            Direction::NW
        } else {
            Direction::N
        }
    }

    /// Writes the name of the direction.
    pub fn name(&self) -> (s: String)
        ensures
            s@ == direction_name(*self),
    {
        match self {
            Direction::N => String::from_str("N"),
            Direction::NE => String::from_str("NE"),
            Direction::E => String::from_str("E"),
            Direction::SE => String::from_str("SE"),
            Direction::S => String::from_str("S"),
            Direction::SW => String::from_str("SW"),
            Direction::W => String::from_str("W"),
            Direction::NW => String::from_str("NW"),
        }
    }
}

/// The heading of an operator's compass and its direction.
#[derive(Debug, Clone, Copy, PartialEq, Eq, Structural)]
pub struct Compass {
    pub heading: i32,
    pub direction: Direction,
}

/// The heading for a view angle in whole degrees: negative angles are
/// turned into the equivalent positive ones.
pub open spec fn heading_of(angle: int) -> int {
    if angle < 0 { 360 + angle } else { angle }
}

impl Compass {
    /// A compass pointing north.
    pub fn new() -> (c: Compass)
        ensures
            c.heading == 0,
            c.direction == Direction::N,
    {
        Compass { heading: 0, direction: Direction::N }
    }

    /// Points the compass along a view angle in whole degrees.
    pub fn update(&mut self, angle: i32)
        ensures
            final(self).heading == heading_of(angle as int),
            final(self).direction == direction_of(heading_of(angle as int)),
    {
        let heading = if angle < 0 { 360 + angle } else { angle };
        self.heading = heading;
        self.direction = Direction::from_heading(heading);
    }

    /// Writes the compass label: the direction, a space and the heading.
    pub fn label(&self) -> (s: String)
        ensures
            s@ == direction_name(self.direction) + " "@ + signed_decimal(self.heading as int),
    {
        let mut s = self.direction.name();
        s.append(" ");
        s.append(i32_text(self.heading).as_str());
        s
    }
}

/// Law: every view angle in the range of a full turn either way gives a
/// heading in `0..360`, and the direction of a heading only depends on it
/// modulo a full turn.
pub proof fn lemma_heading_in_circle(angle: int, k: nat)
    requires
        -360 <= angle < 360,
    ensures
        0 <= heading_of(angle) < 360,
        direction_of(heading_of(angle) + 360 * k) == direction_of(heading_of(angle)),
{
    let h = heading_of(angle);
    assert((h + 360 * k) % 360 == h % 360) by (nonlinear_arith)
        requires
            0 <= h < 360,
    ;
}


/// Numbers the compass directions clockwise from north.
pub open spec fn direction_index(d: Direction) -> int {
    match d {
        Direction::N => 0,
        Direction::NE => 1,
        Direction::E => 2,
        Direction::SE => 3,
        Direction::S => 4,
        Direction::SW => 5,
        Direction::W => 6,
        Direction::NW => 7,
    }
}

/// Law: the heading of a view angle within a full turn either way is the
/// one angle in `0..360` that equals it up to whole turns.
pub proof fn lemma_heading_congruent(angle: int)
    requires
        -360 <= angle < 360,
    ensures
        0 <= heading_of(angle) < 360,
        (heading_of(angle) - angle) % 360 == 0,
{
}

/// Law: a heading points to the nearest of the eight compass directions, in
/// 45-degree sectors centred on them (ties round clockwise from the centre
/// towards the next direction: a heading of 22 is north, 23 north-east).
pub proof fn lemma_direction_sectors(heading: int)
    requires
        0 <= heading < 360,
    ensures
        direction_index(direction_of(heading)) == ((heading + 22) / 45) % 8,
{
}

} // verus!
