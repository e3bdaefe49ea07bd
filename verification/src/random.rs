//! The random generator, which comes from the `rand` crate.

use rand::rngs::ThreadRng;
use rand::Rng;
use vstd::prelude::*;

verus! {

/// The generator of `rand`, `rand::rngs::ThreadRng`: a handle that is
/// carried along and never looked into.
#[verifier::external_type_specification]
#[verifier::external_body]
pub struct ExThreadRng(rand::rngs::ThreadRng);

/// Calls `rand::thread_rng`, which hands out the generator of the current
/// thread. Nothing is claimed of it.
#[verifier::external_body]
pub(crate) fn thread_rng() -> (rng: ThreadRng) {
    rand::thread_rng()
}

/// Calls `Rng::gen_range` on the half-open range `low..high`. The draw
/// panics on an empty range, which the precondition leaves out; the only
/// claim is that the value drawn lies in the range.
#[verifier::external_body]
pub(crate) fn uniform(rng: &mut ThreadRng, low: i64, high: i64) -> (v: i64)
    requires
        low < high,
    ensures
        low <= v < high,
{
    rng.gen_range(low..high)
}

} // verus!
