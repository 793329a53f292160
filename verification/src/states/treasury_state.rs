//! The record of the protocol's pooled liquidity.

use vstd::prelude::*;

verus! {

/// The protocol-wide liquidity pool of one asset.
#[derive(Clone, Copy, Debug, PartialEq, Eq)]
pub struct TreasuryState {
    /// Raw units deposited by all lenders together.
    pub total_liquidity: u64,
    /// Raw units lent out and not yet settled.
    pub total_borrowed: u64,
    /// The parameter from which the treasury's custody authority is derived.
    pub treasury_authority_bump: u8,
}

impl TreasuryState {
    /// The treasury never lends more than was deposited.
    pub open spec fn well_formed(self) -> bool {
        self.total_borrowed <= self.total_liquidity
    }
}

} // verus!
