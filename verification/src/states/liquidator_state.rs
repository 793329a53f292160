//! The record of one lender's deposit.

use vstd::prelude::*;
use crate::states::pubkey::Pubkey;

verus! {

/// One lender's deposit in the treasury.
#[derive(Clone, Copy, Debug, PartialEq, Eq)]
pub struct LiquidatorState {
    /// The lender.
    pub owner: Pubkey,
    /// The lender's ledger account for the liquidity asset.
    pub lp_ata: Pubkey,
    /// The asset that the lender deposits.
    pub liquidity_mint: Pubkey,
    /// Raw units that the lender has on deposit.
    pub liquidity_amount: u64,
    /// When the lender last deposited, in seconds.
    pub deposit_time: i64,
    /// When a deposit last changed the record, in seconds.
    pub last_update_time: i64,
    /// The parameter from which the treasury's custody authority is derived.
    pub treasury_authority_bump: u8,
    /// The parameter from which the record's own address is derived.
    pub bump: u8,
}

} // verus!
