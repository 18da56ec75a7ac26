//! The pseudo-random generator of the drone. Nothing here is proved: the contracts say what the
//! generator's crate documents.

use rand::rngs::StdRng;
use rand::Rng;
use vstd::prelude::*;

verus! {

/// The generator `rand::rngs::StdRng`. The library keeps one and hands it to the two functions
/// below; it never looks inside.
#[verifier::external_type_specification]
#[verifier::external_body]
pub struct ExStdRng(rand::rngs::StdRng);

/// Calls `Rng::gen_range` with the half-open range `low..high`. The contract claims that the
/// number drawn lies in that range, and leaves out the empty range, on which `gen_range`
/// panics. Which number comes is not stated: two calls may differ.
#[verifier::external_body]
pub(crate) fn draw_between(generator: &mut StdRng, low: i32, high: i32) -> (draw: i32)
    requires
        low < high,
    ensures
        low <= draw < high,
{
    generator.gen_range(low..high)
}

/// Calls `Rng::gen` for a `u64`. Nothing is claimed of the number.
#[verifier::external_body]
pub(crate) fn draw_session_id(generator: &mut StdRng) -> (session_id: u64) {
    generator.gen()
}

} // verus!
