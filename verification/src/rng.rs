//! Randomness for particle creation, drawn through the `rand` crate.

use rand::Rng;
use vstd::prelude::*;

verus! {

/// Relies on rand::Rng::gen_range over `0..n`: it returns a value drawn
/// from `[0, n)`, and the range is non-empty because `n > 0`.
#[verifier::external_body]
pub(crate) fn rand_below(n: u64) -> (r: u64)
    requires
        n > 0,
    ensures
        r < n,
{
    rand::thread_rng().gen_range(0..n)
}

} // verus!
