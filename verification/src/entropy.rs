//! The random source.
use rand::Rng;
use vstd::prelude::*;

verus! {

/// Draws one byte from `rand::thread_rng()` with `Rng::gen::<u8>()`, the
/// thread-local generator that the operating system seeds. Nothing is
/// claimed of the byte: every value can come back, and two calls need not
/// agree.
///
/// The generator panics where the operating system cannot supply entropy,
/// at its first use in a thread or at a reseed. That depends on the machine
/// and on no argument, so no precondition can rule it out.
#[verifier::external_body]
pub(crate) fn random_byte() -> (byte: u8) {
    rand::thread_rng().gen::<u8>()
}

} // verus!
