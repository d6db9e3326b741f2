//! The walled field. Its origin is at the centre, `x` grows to the right
//! and `y` upwards. Positions are kept in thousandths of a pixel.

use vstd::prelude::*;

verus! {

/// Width of the field, in pixels.
pub const FIELD_WIDTH: i64 = 1200;

/// Height of the field, in pixels.
pub const FIELD_HEIGHT: i64 = 640;

/// Thousandths of a pixel in a pixel.
pub const SUBPIXELS: i64 = 1000;

/// Distance from the centre to the left and right walls, in thousandths.
pub const HALF_WIDTH: i64 = 600_000;

/// Distance from the centre to the top and bottom walls, in thousandths.
pub const HALF_HEIGHT: i64 = 320_000;

/// Distance a hopper moves in one frame, in pixels.
pub const STRIDE: i64 = 5;

/// A point of the plane, in thousandths of a pixel.
#[derive(Clone, Copy, Debug, PartialEq, Eq)]
pub struct Spot {
    pub x: i64,
    pub y: i64,
}

/// A quarter of the compass. A hopper turned back by a wall heads off at an
/// angle between this direction and the next one counter-clockwise.
#[derive(Clone, Copy, Debug, PartialEq, Eq)]
pub enum Heading {
    East,
    North,
    West,
    South,
}

impl Heading {
    /// Counter-clockwise quarter turns from east.
    pub open spec fn turns(self) -> int {
        match self {
            Heading::East => 0,
            Heading::North => 1,
            Heading::West => 2,
            Heading::South => 3,
        }
    }

    /// Counter-clockwise quarter turns from east, to turn into an angle.
    pub fn quarter_turns(&self) -> (r: u32)
        ensures
            r == self.turns(),
    {
        match self {
            Heading::East => 0,
            Heading::North => 1,
            Heading::West => 2,
            Heading::South => 3,
        }
    }
}

/// Past the left wall.
pub open spec fn beyond_left(p: Spot) -> bool {
    p.x < -HALF_WIDTH
}

/// Past the right wall.
pub open spec fn beyond_right(p: Spot) -> bool {
    p.x > HALF_WIDTH
}

/// Past the top wall.
pub open spec fn beyond_top(p: Spot) -> bool {
    p.y > HALF_HEIGHT
}

/// Past the bottom wall.
pub open spec fn beyond_bottom(p: Spot) -> bool {
    p.y < -HALF_HEIGHT
}

/// The quarter into which a hopper at `p` is sent back, or `None` while it
/// is on the field. The bottom wall wins over the top, the top over the
/// right, and the right over the left: out of a corner the hopper follows
/// the wall of `y`.
pub fn wall_turn(p: Spot) -> (r: Option<Heading>)
    ensures
        beyond_bottom(p) ==> r == Some(Heading::North),
        !beyond_bottom(p) && beyond_top(p) ==> r == Some(Heading::South),
        !beyond_bottom(p) && !beyond_top(p) && beyond_right(p) ==> r == Some(Heading::West),
        !beyond_bottom(p) && !beyond_top(p) && !beyond_right(p) && beyond_left(p)
            ==> r == Some(Heading::East),
        r is None <==> !(beyond_left(p) || beyond_right(p) || beyond_top(p) || beyond_bottom(p)),
{
    if p.y < -HALF_HEIGHT {
        Some(Heading::North)
    } else if p.y > HALF_HEIGHT {
        Some(Heading::South)
    } else if p.x > HALF_WIDTH {
        Some(Heading::West)
    } else if p.x < -HALF_WIDTH {
        Some(Heading::East)
    } else {
        None
    }
}

} // verus!
