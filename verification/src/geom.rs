//! Integer plane geometry: positions and the axis-aligned overlap test that
//! triggers every combat rule.

use vstd::prelude::*;

verus! {

/// A point or extent on the playing field, in subunits.
#[derive(Clone, Copy, Debug, PartialEq, Eq, Structural)]
pub struct Vec2i {
    pub x: i64,
    pub y: i64,
}

/// An axis-aligned box given by its centre and its full extent on each axis.
#[derive(Clone, Copy, Debug, PartialEq, Eq, Structural)]
pub struct Hitbox {
    pub pos: Vec2i,
    pub size: Vec2i,
}

impl Hitbox {
    /// A usable hitbox has non-negative extents.
    pub open spec fn wf(self) -> bool {
        self.size.x >= 0 && self.size.y >= 0
    }

    /// Two boxes overlap when, on both axes, the distance between the
    /// centres is strictly less than the sum of the half-extents.
    pub open spec fn overlaps_spec(self, other: Hitbox) -> bool {
        &&& 2 * abs(self.pos.x - other.pos.x) < self.size.x + other.size.x
        &&& 2 * abs(self.pos.y - other.pos.y) < self.size.y + other.size.y
    }

    pub fn overlaps(&self, other: &Hitbox) -> (r: bool)
        ensures
            r == self.overlaps_spec(*other),
    {
        let dx: i128 = self.pos.x as i128 - other.pos.x as i128;
        let dy: i128 = self.pos.y as i128 - other.pos.y as i128;
        let adx: i128 = if dx < 0 { -dx } else { dx };
        let ady: i128 = if dy < 0 { -dy } else { dy };
        2 * adx < self.size.x as i128 + other.size.x as i128 && 2 * ady < self.size.y as i128
            + other.size.y as i128
    }
}

/// Absolute value of a mathematical integer.
pub open spec fn abs(n: int) -> int {
    if n < 0 {
        -n
    } else {
        n
    }
}

} // verus!
