//! The source of random bytes for the `CXNN` instruction.

use vstd::prelude::*;

verus! {

/// Draws a byte from `rand::random`, which samples the thread-local
/// generator. Nothing is claimed of the value: every byte may come back,
/// and two calls may differ.
#[verifier::external_body]
pub(crate) fn random_byte() -> (byte: u8) {
    rand::random::<u8>()
}

} // verus!
