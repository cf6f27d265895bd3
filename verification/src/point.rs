//! Positions inside the arena.

use vstd::prelude::*;

verus! {

/// A cell of the arena, counted from 1 in both directions: `x` grows to the
/// right and `y` grows downwards. Row and column 0 belong to the border.
#[derive(Clone, Copy, Debug, PartialEq, Eq, Structural)]
pub struct Point {
    pub x: u16,
    pub y: u16,
}

impl Point {
    /// The cell in column `x` and row `y`.
    pub fn new(x: u16, y: u16) -> (point: Point)
        ensures
            point.x == x,
            point.y == y,
    {
        Point { x, y }
    }

    /// Whether the cell lies in the interior of an arena of `width` columns
    /// and `height` rows.
    pub open spec fn in_arena(self, width: int, height: int) -> bool {
        1 <= self.x <= width && 1 <= self.y <= height
    }
}

} // verus!
