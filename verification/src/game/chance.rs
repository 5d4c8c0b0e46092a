//! Where the game gets its chance from.

use vstd::prelude::*;
use rand::Rng;

verus! {

/// Draws a number at random from `low` up to, but not including, `high`.
///
/// Trusted: this calls `rand::rng()` for the generator of the running thread
/// and `Rng::random_range` on it with the range `low..high`. `random_range`
/// panics on an empty range, which `requires` rules out, and otherwise
/// returns a value of the range. Which value it is depends on chance alone, so
/// nothing more is claimed of it.
#[verifier::external_body]
pub(crate) fn random_below(low: u32, high: u32) -> (drawn: u32)
    requires
        low < high,
    ensures
        low <= drawn < high,
{
    rand::rng().random_range(low..high)
}

} // verus!
