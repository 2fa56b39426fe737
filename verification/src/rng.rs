//! The process-wide random source, behind trusted wrappers: the rest of
//! the crate states what holds of every possible outcome and never
//! assumes which value comes back.

use vstd::prelude::*;

verus! {

/// Relies on rand::random_range over `lo..hi`: it returns a value of the
/// half-open range. It panics on an empty range — ruled out by the
/// precondition — or if the process's entropy source fails when the
/// thread's generator is first used.
#[verifier::external_body]
pub(crate) fn random_in_range(lo: i64, hi: i64) -> (r: i64)
    requires
        lo < hi,
    ensures
        lo <= r < hi,
{
    rand::random_range(lo..hi)
}

/// Relies on rand::random for `bool`: a uniformly random coin flip, of
/// which nothing is promised.
#[verifier::external_body]
pub(crate) fn random_coin() -> bool {
    rand::random::<bool>()
}

} // verus!
