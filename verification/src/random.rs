use vstd::prelude::*;

verus! {

/// Draws a number uniformly from `low..=high` with `rand::random_range`.
///
/// Only the range is promised: the value itself depends on the thread-local
/// generator and is not stated.
#[verifier::external_body]
pub(crate) fn random_in(low: u64, high: u64) -> (r: u64)
    requires
        low <= high,
    ensures
        low <= r <= high,
{
    rand::random_range(low..=high)
}

} // verus!
