//! The records as they stand when they are first created.

use vstd::prelude::*;
use crate::states::liquidator_state::LiquidatorState;
use crate::states::pool_state::PoolState;
use crate::states::pubkey::Pubkey;
use crate::states::treasury_state::TreasuryState;

verus! {

/// Creates the record of a lender who has deposited nothing yet.
pub fn initialize_liquidator_state(
    owner: Pubkey,
    lp_ata: Pubkey,
    liquidity_mint: Pubkey,
    now: i64,
    treasury_authority_bump: u8,
    bump: u8,
) -> (liquidator: LiquidatorState)
    ensures
        liquidator == (LiquidatorState {
            owner,
            lp_ata,
            liquidity_mint,
            liquidity_amount: 0,
            deposit_time: now,
            last_update_time: now,
            treasury_authority_bump,
            bump,
        }),
{
    LiquidatorState {
        owner,
        lp_ata,
        liquidity_mint,
        liquidity_amount: 0,
        deposit_time: now,
        last_update_time: now,
        treasury_authority_bump,
        bump,
    }
}

/// Creates the record of a treasury that holds and lends nothing yet.
pub fn initialize_treasury(treasury_authority_bump: u8) -> (treasury: TreasuryState)
    ensures
        treasury == (TreasuryState {
            total_liquidity: 0,
            total_borrowed: 0,
            treasury_authority_bump,
        }),
        treasury.well_formed(),
{
    TreasuryState { total_liquidity: 0, total_borrowed: 0, treasury_authority_bump }
}

/// Creates the record of a borrower who has pledged and drawn nothing yet.
pub fn initialize_pool(
    owner: Pubkey,
    vault_ata: Pubkey,
    interest_rate: u64,
    vault_authority_bump: u8,
) -> (pool: PoolState)
    ensures
        pool == (PoolState {
            owner,
            vault_ata,
            collateral_amount: 0,
            loan_amount: 0,
            interest_rate,
            vault_authority_bump,
            is_active: false,
        }),
        pool.well_formed(),
{
    PoolState {
        owner,
        vault_ata,
        collateral_amount: 0,
        loan_amount: 0,
        interest_rate,
        vault_authority_bump,
        is_active: false,
    }
}

} // verus!
