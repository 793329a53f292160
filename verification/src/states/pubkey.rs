//! Identifiers of principals and of ledger accounts.

use vstd::prelude::*;
use vstd::std_specs::cmp::PartialEqSpecImpl;

verus! {

/// A 32-byte identifier of a principal, an asset or a ledger account.
#[derive(Clone, Copy, Debug)]
pub struct Pubkey {
    pub bytes: [u8; 32],
}

impl View for Pubkey {
    type V = Seq<u8>;

    /// An identifier is the sequence of its 32 bytes.
    open spec fn view(&self) -> Seq<u8> {
        self.bytes@
    }
}

impl Pubkey {
    /// Wraps 32 bytes as an identifier.
    pub fn new_from_array(bytes: [u8; 32]) -> (key: Pubkey)
        ensures
            key.bytes == bytes,
            key@ == bytes@,
    {
        Pubkey { bytes }
    }

    /// Returns the 32 bytes of the identifier.
    pub fn to_bytes(&self) -> (bytes: [u8; 32])
        ensures
            bytes == self.bytes,
            bytes@ == self@,
    {
        self.bytes
    }
}

impl PartialEq for Pubkey {
    /// Two identifiers are equal when all their bytes are.
    fn eq(&self, other: &Pubkey) -> (equal: bool) {
        let mut i: usize = 0;
        while i < 32
            invariant
                i <= 32,
                forall|j: int| 0 <= j < i ==> self.bytes@[j] == other.bytes@[j],
            decreases 32 - i,
        {
            if self.bytes[i] != other.bytes[i] {
                return false;
            }
            i = i + 1;
        }
        assert(self.bytes@ =~= other.bytes@);
        true
    }
}

impl PartialEqSpecImpl for Pubkey {
    open spec fn obeys_eq_spec() -> bool {
        true
    }

    open spec fn eq_spec(&self, other: &Pubkey) -> bool {
        self@ == other@
    }
}

impl Eq for Pubkey {

}

} // verus!
