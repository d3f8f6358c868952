//! The source of chance. What it hands out is not specified: the
//! interpreter is verified for every byte that may come back.

use rand::rngs::ThreadRng;
use rand::Rng;
use vstd::prelude::*;

verus! {

/// `rand::rngs::ThreadRng`, the handle to a thread's random number generator,
/// carried through as an opaque value: nothing inside it is visible to a
/// proof.
#[verifier::external_type_specification]
#[verifier::external_body]
pub struct ExThreadRng(rand::rngs::ThreadRng);

/// Calls `rand::rng`, which hands out a handle to the random number
/// generator of the calling thread. Nothing is claimed of the handle. The
/// call takes no argument; it fails only where the operating system cannot
/// seed the generator when the thread first asks for it.
#[verifier::external_body]
pub(crate) fn thread_rng() -> (rng: ThreadRng) {
    rand::rng()
}

/// Calls `Rng::random_range` on the range of all bytes, which is not empty,
/// so the call returns. Nothing is claimed of the byte that comes back.
#[verifier::external_body]
pub(crate) fn random_byte(rng: &mut ThreadRng) -> (byte: u8) {
    rng.random_range(0..=u8::MAX)
}

} // verus!
