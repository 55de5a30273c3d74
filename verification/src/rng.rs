//! The library's one boundary to the random number generator. Everything
//! downstream of a draw is verified for every value the contract admits.

use vstd::prelude::*;

verus! {

/// Relies on `rand::random_range` over a half-open `i64` range, which
/// samples a value within the range from the thread-local generator. The
/// call panics only on an empty range, which the precondition excludes.
/// Nothing more is assumed of the draw: callers hold for every value in
/// the range.
#[verifier::external_body]
pub(crate) fn random_in_range(lo: i64, hi: i64) -> (r: i64)
    requires
        lo < hi,
    ensures
        lo <= r < hi,
{
    rand::random_range(lo..hi)
}

} // verus!
