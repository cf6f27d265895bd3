//! The game's only source of chance: the thread-local generator of the `rand`
//! crate. Nothing here is proved; each contract repeats what `rand` documents.

use vstd::prelude::*;
use rand::Rng;
use rand::seq::SliceRandom;

verus! {

/// Draws a number from `0..bound` with `rand::Rng::gen_range(0, bound)` on
/// `rand::thread_rng()`.
///
/// Trusted: `gen_range` returns a value that is at least its lower and less
/// than its upper argument, and panics unless the lower one is the smaller.
/// Which value comes is left open.
#[verifier::external_body]
pub(crate) fn random_below(bound: u8) -> (pick: u8)
    requires
        bound > 0,
    ensures
        pick < bound,
{
    rand::thread_rng().gen_range(0, bound)
}

/// Picks one of `options` with `rand::seq::SliceRandom::choose` on
/// `rand::thread_rng()`.
///
/// Trusted: `choose` returns `None` for an empty slice and otherwise an element
/// of the slice. Which element comes is left open.
#[verifier::external_body]
pub(crate) fn choose_one(options: &Vec<i16>) -> (pick: Option<i16>)
    ensures
        options@.len() == 0 ==> pick is None,
        options@.len() > 0 ==> pick is Some && options@.contains(pick->0),
{
    options.choose(&mut rand::thread_rng()).copied()
}

} // verus!
