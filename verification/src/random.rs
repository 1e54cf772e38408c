//! The draws the game makes from the thread's random number generator.
//!
//! Nothing here promises a distribution: a contract says only what holds of
//! every draw. What the game does with a draw is decided elsewhere, by
//! functions that take the draw as an argument.

use rand::seq::SliceRandom;
use rand::Rng;
use vstd::prelude::*;

verus! {

/// Calls `Rng::gen_range` on `rand::thread_rng()` with the half-open range
/// from `low` to `high`. Trusted: the draw lies in that range. The range must
/// not be empty, on which `gen_range` panics.
#[verifier::external_body]
pub(crate) fn draw_in_range(low: i64, high: i64) -> (drawn: i64)
    requires
        low < high,
    ensures
        low <= drawn < high,
{
    rand::thread_rng().gen_range(low..high)
}

/// Calls `SliceRandom::choose` on `items` with `rand::thread_rng()`. Trusted:
/// the result is one of the items, and there is none only where `items` is
/// empty.
#[verifier::external_body]
pub(crate) fn pick_one<T>(items: &Vec<T>) -> (chosen: Option<&T>)
    ensures
        match chosen {
            Some(item) => items@.contains(*item),
            None => items@.len() == 0,
        },
{
    items.choose(&mut rand::thread_rng())
}

} // verus!
