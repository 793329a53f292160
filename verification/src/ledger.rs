//! What the library knows of the ledger, and what it asks of it.
//!
//! The library moves no balances itself. It reads ledger accounts as the
//! caller presents them, and each operation that succeeds hands back the
//! transfers that the caller must have the ledger carry out, with the
//! principal that authorizes each.

use vstd::prelude::*;
use crate::states::pubkey::Pubkey;

verus! {

/// A ledger account as it stands when an operation begins.
#[derive(Clone, Copy, Debug, PartialEq, Eq)]
pub struct TokenAccount {
    /// The asset that the account holds.
    pub mint: Pubkey,
    /// The principal with authority over the account.
    pub owner: Pubkey,
    /// Raw units in the account.
    pub amount: u64,
}

/// The principal that authorizes a transfer.
#[derive(Clone, Copy, Debug, PartialEq, Eq)]
pub enum Authority {
    /// A principal who holds a key and signs the operation.
    Signer { key: Pubkey },
    /// The treasury's custody authority, derived from its namespace and
    /// `bump`.
    Treasury { bump: u8 },
    /// The custody authority of one borrower's vault, derived from its
    /// namespace, the borrower and `bump`.
    Vault { owner: Pubkey, bump: u8 },
}

/// The namespace of vault custody authorities: the text `vault-authority`.
pub const VAULT_AUTHORITY_TAG: [u8; 15] = [
    118, 97, 117, 108, 116, 45, 97, 117, 116, 104, 111, 114, 105, 116, 121,
];

/// The namespace of the treasury's custody authority: the text
/// `treasury-authority`.
pub const TREASURY_AUTHORITY_TAG: [u8; 18] = [
    116, 114, 101, 97, 115, 117, 114, 121, 45, 97, 117, 116, 104, 111, 114, 105, 116, 121,
];

impl Authority {
    /// The inputs from which the ledger derives the authority anew: for a
    /// custody authority its namespace, then the borrower where it guards a
    /// vault, then its bump; none for a principal who signs.
    pub open spec fn seeds(self) -> Seq<Seq<u8>> {
        match self {
            Authority::Signer { .. } => seq![],
            Authority::Treasury { bump } => seq![TREASURY_AUTHORITY_TAG@, seq![bump]],
            Authority::Vault { owner, bump } => seq![VAULT_AUTHORITY_TAG@, owner@, seq![bump]],
        }
    }

    /// Returns the inputs from which the ledger derives the authority anew.
    pub fn signer_seeds(&self) -> (seeds: Vec<Vec<u8>>)
        ensures
            seeds@.len() == self.seeds().len(),
            forall|i: int| 0 <= i < seeds@.len() ==> seeds@[i]@ == self.seeds()[i],
    {
        let mut seeds: Vec<Vec<u8>> = Vec::new();
        match self {
            Authority::Signer { .. } => {},
            Authority::Treasury { bump } => {
                seeds.push(copy_bytes(&TREASURY_AUTHORITY_TAG));
                seeds.push(vec![*bump]);
            },
            Authority::Vault { owner, bump } => {
                seeds.push(copy_bytes(&VAULT_AUTHORITY_TAG));
                seeds.push(copy_bytes(&owner.bytes));
                seeds.push(vec![*bump]);
            },
        }
        seeds
    }
}

/// Copies an array of bytes into a vector.
fn copy_bytes<const N: usize>(bytes: &[u8; N]) -> (copy: Vec<u8>)
    ensures
        copy@ == bytes@,
{
    let mut copy: Vec<u8> = Vec::new();
    let mut i: usize = 0;
    while i < N
        invariant
            i <= N,
            copy@ == bytes@.subrange(0, i as int),
        decreases N - i,
    {
        copy.push(bytes[i]);
        i = i + 1;
        assert(copy@ =~= bytes@.subrange(0, i as int));
    }
    assert(bytes@.subrange(0, N as int) =~= bytes@);
    copy
}

/// One movement of raw units, to be carried out by the ledger.
#[derive(Clone, Copy, Debug, PartialEq, Eq)]
pub struct Transfer {
    /// Raw units to move.
    pub amount: u64,
    /// Who authorizes the movement.
    pub authority: Authority,
}

} // verus!
