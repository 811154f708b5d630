//! The source of random bytes.

use vstd::prelude::*;

verus! {

/// Calls `rand::random::<u8>()`, which draws a byte from the generator of
/// the current thread. Nothing is claimed about the byte that comes back.
#[verifier::external_body]
pub(crate) fn random_byte() -> (rnd: u8) {
    rand::random::<u8>()
}

} // verus!
