use rand::Rng;
use vstd::prelude::*;

verus! {

/// Draws one byte from the thread-local generator of the `rand` crate:
/// `rand::thread_rng()`, then `Rng::gen_range` over the whole range of a
/// byte, `0..=255`, which is not empty, so that `gen_range` does not panic.
///
/// Nothing of this is proved, and the contract claims nothing of the value:
/// every byte is possible and two calls may differ. `thread_rng` seeds itself
/// from the operating system when a thread first uses it, and panics if the
/// system gives it no seed.
#[verifier::external_body]
pub(crate) fn random_byte() -> (byte: u8) {
    let mut rng = rand::thread_rng();
    rng.gen_range(0..=255)
}

} // verus!
