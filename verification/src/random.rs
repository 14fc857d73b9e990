//! The random source behind [`crate::pool::Pool::randomize`].
//!
//! Nothing here is proved: the contracts restate what the `rand` crate
//! documents. The generator is seeded, and reseeded now and then, from the
//! operating system; where that source fails, `rand` panics, whatever the
//! arguments of the call.

use vstd::prelude::*;

verus! {

/// `rand::rngs::ThreadRng`, the handle that `rand::thread_rng` returns. It is
/// carried from one call to the next and never looked into.
#[verifier::external_type_specification]
#[verifier::external_body]
pub struct ExThreadRng(rand::rngs::ThreadRng);

/// `rand::thread_rng`: a handle to the generator of the calling thread, which
/// the operating system seeds. Nothing is claimed of the handle.
#[verifier::external_body]
pub(crate) fn thread_rng() -> rand::rngs::ThreadRng {
    rand::thread_rng()
}

/// `rand::Rng::gen_ratio` on a thread generator: a boolean that is true with
/// probability `numerator / denominator`. The call panics on a zero
/// denominator and on a numerator above the denominator, which `requires`
/// leaves out. Of the outcome the crate promises only the two certain cases:
/// true when the two numbers are equal, false when the numerator is zero.
#[verifier::external_body]
pub(crate) fn gen_ratio(
    rng: &mut rand::rngs::ThreadRng,
    numerator: u32,
    denominator: u32,
) -> (outcome: bool)
    requires
        denominator != 0,
        numerator <= denominator,
    ensures
        numerator == denominator ==> outcome,
        numerator == 0 ==> !outcome,
{
    rand::Rng::gen_ratio(rng, numerator, denominator)
}

} // verus!
