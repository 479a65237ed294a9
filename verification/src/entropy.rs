//! The source of the random byte that instruction `CXNN` uses.

use vstd::prelude::*;
use rand::Rng;

verus! {

/// Draws a byte from `rand::thread_rng()` with `Rng::gen`.
///
/// Nothing is claimed of the byte: every value of `u8` can come back, and two
/// calls need not agree. The generator is seeded from the operating system
/// when a thread first uses it, and `rand` panics if that seeding fails.
#[verifier::external_body]
pub(crate) fn random_byte() -> (byte: u8) {
    let mut rng = rand::thread_rng();
    rng.gen()
}

} // verus!
