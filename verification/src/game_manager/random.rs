//! The source of the opponent's whims.

use rand::Rng;
use vstd::prelude::*;

verus! {

/// Draws a number from the thread's generator with `rand::thread_rng()` and
/// `Rng::gen_range(low, high)`. Believed of the draw, not proved: it lies in
/// the half-open range from `low` up to, not including, `high`. An empty range
/// makes `gen_range` panic, so `low < high` is required.
#[verifier::external_body]
pub(crate) fn random_between(low: i64, high: i64) -> (r: i64)
    requires
        low < high,
    ensures
        low <= r < high,
{
    rand::thread_rng().gen_range(low, high)
}

} // verus!
