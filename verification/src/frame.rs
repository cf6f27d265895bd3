//! What is drawn: one cell of the picture at a time.

use vstd::prelude::*;

verus! {

/// The glyph of the border.
pub const BORDER_GLYPH: char = '#';

/// The glyph of the paddle.
pub const PADDLE_GLYPH: char = 'o';

/// The glyph of an empty cell.
pub const EMPTY_GLYPH: char = ' ';

/// What one cell of the picture shows.
#[derive(Clone, Copy, Debug, PartialEq, Eq, Structural)]
pub enum Cell {
    /// A piece of the border round the arena.
    Border,
    /// Nothing: the background of the arena.
    Empty,
    /// A piece of the paddle.
    Paddle,
    /// The ball, with the glyph it currently has.
    Ball(char),
}

impl Cell {
    /// The character the cell is drawn with.
    pub open spec fn spec_glyph(self) -> char {
        match self {
            Cell::Border => BORDER_GLYPH,
            Cell::Empty => EMPTY_GLYPH,
            Cell::Paddle => PADDLE_GLYPH,
            Cell::Ball(glyph) => glyph,
        }
    }

    /// The character the cell is drawn with.
    #[verifier::when_used_as_spec(spec_glyph)]
    pub fn glyph(self) -> (glyph: char)
        ensures
            glyph == self.spec_glyph(),
    {
        match self {
            Cell::Border => BORDER_GLYPH,
            Cell::Empty => EMPTY_GLYPH,
            Cell::Paddle => PADDLE_GLYPH,
            Cell::Ball(glyph) => glyph,
        }
    }
}

} // verus!
