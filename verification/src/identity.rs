use vstd::prelude::*;

verus! {

/// A key in the host runtime's account space: a participant's 256-bit
/// public key, or a record's derived address, held as four plain words.
///
/// The transition logic only ever compares keys for equality, so the four
/// words model a key exactly; the surrounding runtime maps its own key
/// representation to and from them, one byte for one byte.
#[derive(Clone, Copy, Debug, PartialEq, Eq, Structural)]
pub struct Identity {
    pub w0: u64,
    pub w1: u64,
    pub w2: u64,
    pub w3: u64,
}

} // verus!
