//! What the player can ask for.

use vstd::prelude::*;

verus! {

/// An action of the player, as a key press stands for it.
#[derive(Clone, Copy, Debug, PartialEq, Eq, Structural)]
pub enum Command {
    /// Move the paddle one row up.
    Up,
    /// Move the paddle one row down.
    Down,
    /// End the session.
    Quit,
}

} // verus!
