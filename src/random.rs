use vstd::prelude::*;

use rand::Rng;

verus! {

/// Relies on rand::rng and Rng::random_range: a value drawn from `0..n`, which
/// panics only on an empty range.
#[verifier::external_body]
pub(crate) fn random_below(n: usize) -> (r: usize)
    requires
        n > 0,
    ensures
        r < n,
{
    rand::rng().random_range(0..n)
}

} // verus!
