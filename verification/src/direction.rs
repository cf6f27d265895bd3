//! Displacements per tick.

use vstd::prelude::*;

verus! {

/// How far something moves in one tick, per axis. The game itself only ever
/// uses the components -1, 0 and +1.
#[derive(Clone, Copy, Debug, PartialEq, Eq, Structural)]
pub struct Direction {
    pub x: i16,
    pub y: i16,
}

impl Direction {
    /// The displacement of `x` columns and `y` rows.
    pub fn new(x: i16, y: i16) -> (direction: Direction)
        ensures
            direction.x == x,
            direction.y == y,
    {
        Direction { x, y }
    }

    /// A diagonal of length one: each component is -1 or +1.
    pub open spec fn is_diagonal(self) -> bool {
        (self.x == -1 || self.x == 1) && (self.y == -1 || self.y == 1)
    }
}

} // verus!
