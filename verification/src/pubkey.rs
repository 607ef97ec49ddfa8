//! Identities: thirty-two byte keys that name participants and records.

use crate::bytes::{bytes_equal, lemma_zeroed_unique, zero_bytes};
use vstd::prelude::*;

verus! {

/// The identity of a participant, of a record or of an oracle account.
#[derive(Clone, Copy, Debug)]
pub struct Pubkey {
    pub bytes: [u8; 32],
}

impl Pubkey {
    /// The key made of the given bytes.
    pub fn new(bytes: [u8; 32]) -> (key: Pubkey)
        ensures
            key.bytes == bytes,
    {
        Pubkey { bytes }
    }

    /// The bytes of the key.
    pub fn to_bytes(&self) -> (bytes: [u8; 32])
        ensures
            bytes == self.bytes,
    {
        self.bytes
    }
}

impl PartialEq for Pubkey {
    fn eq(&self, other: &Pubkey) -> (same: bool) {
        bytes_equal(&self.bytes, &other.bytes)
    }
}

impl Eq for Pubkey {

}

impl vstd::std_specs::cmp::PartialEqSpecImpl for Pubkey {
    open spec fn obeys_eq_spec() -> bool {
        true
    }

    open spec fn eq_spec(&self, other: &Pubkey) -> bool {
        *self == *other
    }
}

impl Default for Pubkey {
    /// The all-zero key.
    fn default() -> (key: Pubkey)
        ensures
            key.bytes == zero_bytes(),
    {
        let bytes = [0u8; 32];
        proof {
            lemma_zeroed_unique(bytes);
        }
        Pubkey { bytes }
    }
}

} // verus!
