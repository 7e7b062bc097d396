//! The one place where the library draws randomness.  Everything that
//! consumes a random number takes it as a plain value and is verified for
//! every value the contract here admits.

use vstd::prelude::*;

verus! {

/// Relies on rand's `thread_rng` and `Rng::gen_range`: sampling a
/// non-empty half-open integer range returns a value inside it (and panics
/// on an empty range, which the precondition rules out).  Nothing more is
/// assumed: the draw may differ between two calls on the same arguments.
#[verifier::external_body]
pub(crate) fn rand_in_range(lo: i64, hi: i64) -> (r: i64)
    requires
        lo < hi,
    ensures
        lo <= r < hi,
{
    rand::Rng::gen_range(&mut rand::thread_rng(), lo..hi)
}

} // verus!
