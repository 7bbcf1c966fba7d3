//! The library's only source of randomness: the `rand` crate, behind
//! two trusted wrappers. Nothing is assumed about which value comes
//! back beyond its range.

use vstd::prelude::*;

verus! {

#[verifier::external_type_specification]
#[verifier::external_body]
pub struct ExThreadRng(rand::rngs::ThreadRng);

/// Relies on rand::thread_rng: a handle to the thread-local random
/// number generator.
#[verifier::external_body]
pub(crate) fn new_rng() -> rand::rngs::ThreadRng {
    rand::thread_rng()
}

/// Relies on rand::Rng::gen_range over the half-open range
/// `low..high`: the sample lies within the range; an empty range, on
/// which it panics, is excluded here.
#[verifier::external_body]
pub(crate) fn random_in_range(rng: &mut rand::rngs::ThreadRng, low: i64, high: i64) -> (r: i64)
    requires
        low < high,
    ensures
        low <= r < high,
{
    rand::Rng::gen_range(rng, low..high)
}

} // verus!
