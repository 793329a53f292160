//! The record of one borrower's collateral and loan.

use vstd::prelude::*;
use crate::states::pubkey::Pubkey;

verus! {

/// One borrower's collateral and loan position.
#[derive(Clone, Copy, Debug, PartialEq, Eq)]
pub struct PoolState {
    /// The borrower.
    pub owner: Pubkey,
    /// The ledger account that holds the borrower's collateral in custody.
    pub vault_ata: Pubkey,
    /// Raw units of collateral held in custody for the borrower.
    pub collateral_amount: u64,
    /// Raw units of the liquidity asset that the borrower owes.
    pub loan_amount: u64,
    /// Basis points of interest charged on the loan at settlement.
    pub interest_rate: u64,
    /// The parameter from which the vault's custody authority is derived.
    pub vault_authority_bump: u8,
    /// Whether a loan is outstanding.
    pub is_active: bool,
}

impl PoolState {
    /// A loan is only ever outstanding against collateral, and a pool
    /// without an outstanding loan owes nothing.
    pub open spec fn well_formed(self) -> bool {
        &&& self.is_active ==> self.collateral_amount > 0
        &&& !self.is_active ==> self.loan_amount == 0
    }

    /// The pool carries collateral, so operations on it are admitted.
    pub open spec fn is_initialized(self) -> bool {
        self.collateral_amount > 0
    }

    /// The pool once its loan is settled: nothing is owed and no loan is
    /// outstanding; every other field is kept.
    pub open spec fn closed(self) -> PoolState {
        PoolState { loan_amount: 0, is_active: false, ..self }
    }

    /// Settling a loan closes the pool, and a closed pool is well formed.
    pub fn close(&mut self)
        ensures
            *final(self) == old(self).closed(),
            final(self).well_formed(),
    {
        self.loan_amount = 0;
        self.is_active = false;
    }
}

} // verus!
