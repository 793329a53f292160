//! Accounting core of a collateralized lending protocol.
//!
//! The crate keeps the books of a liquidity treasury, of the lenders who fund
//! it and of the borrowers who draw on it against collateral. Every operation
//! is a function from records and plain integers to updated records and the
//! ledger transfers that settle it; moving the balances themselves and quoting
//! prices is left to the caller.

use vstd::prelude::*;

pub mod errors;
pub mod instructions;
pub mod ledger;
pub mod math;
pub mod states;

pub use crate::errors::ErrorCode;
pub use crate::instructions::borrow_loan::borrow_loan;
pub use crate::instructions::deposit::{deposit_collateral, deposit_treasury};
pub use crate::instructions::initialize::{
    initialize_liquidator_state, initialize_pool, initialize_treasury,
};
pub use crate::instructions::liquidate_collateral::{LiquidateCollateral, Liquidation};
pub use crate::instructions::liquidity_withdraw::liquidity_withdraw;
pub use crate::instructions::repay_loan::repay_loan;
pub use crate::states::liquidator_state::LiquidatorState;
pub use crate::states::pool_state::PoolState;
pub use crate::states::pubkey::Pubkey;
pub use crate::states::treasury_state::TreasuryState;

verus! {

/// Liquidates the loan of `ctx.pool_state` at `price`, rewarding the
/// liquidator with `bonus_bps` basis points.
///
/// On success the pool is closed and the two transfers to carry out are
/// returned. On failure nothing has changed.
pub fn liquidate_collateral(ctx: &mut LiquidateCollateral, price: u64, bonus_bps: u64) -> (result:
    Result<Liquidation, ErrorCode>)
    ensures
        match old(ctx).liquidation_error(price, bonus_bps) {
            Some(error) => result == Err::<Liquidation, ErrorCode>(error) && *final(ctx) == *old(
                ctx,
            ),
            None => result == Ok::<Liquidation, ErrorCode>(old(ctx).liquidation(price, bonus_bps))
                && *final(ctx) == old(ctx).settled(),
        },
        result is Ok ==> !final(ctx).pool_state.is_active,
        result is Err ==> final(ctx).pool_state.is_active == old(ctx).pool_state.is_active,
{
    instructions::liquidate_collateral::handler(ctx, price, bonus_bps)
}

} // verus!
