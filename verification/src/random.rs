//! The boundary to the `rand` crate. Nothing is known of a random draw, so
//! none of these functions promises anything about what it returns. The
//! generator is seeded by the operating system; `rand` gives up with a panic
//! if the system has no entropy to offer, which no caller can rule out.

use rand::Rng;
use vstd::prelude::*;

verus! {

#[verifier::external_type_specification]
#[verifier::external_body]
pub struct ExThreadRng(rand::ThreadRng);

/// Calls `rand::thread_rng`, which hands out a handle to the generator of the
/// current thread. Nothing is claimed of the handle.
#[verifier::external_body]
pub(crate) fn thread_generator() -> rand::ThreadRng {
    rand::thread_rng()
}

/// Calls `Rng::gen::<u8>` on the generator. The byte is random: nothing is
/// claimed of it, and two calls may differ.
#[verifier::external_body]
pub(crate) fn random_byte(rng: &mut rand::ThreadRng) -> u8 {
    rng.gen::<u8>()
}

/// Calls `Rng::gen::<bool>` on the generator. The flag is random: nothing is
/// claimed of it, and two calls may differ.
#[verifier::external_body]
pub(crate) fn random_flag(rng: &mut rand::ThreadRng) -> bool {
    rng.gen::<bool>()
}

} // verus!
