//! Paying liquidity into the treasury and collateral into a vault.

use vstd::prelude::*;
use crate::errors::ErrorCode;
use crate::ledger::{Authority, Transfer};
use crate::states::liquidator_state::LiquidatorState;
use crate::states::pool_state::PoolState;
use crate::states::treasury_state::TreasuryState;

verus! {

/// Whether a deposit of `amount` keeps both the treasury's total and the
/// lender's recorded deposit within their width.
pub open spec fn deposit_fits(
    treasury: TreasuryState,
    liquidator: LiquidatorState,
    amount: u64,
) -> bool {
    &&& treasury.total_liquidity + amount <= u64::MAX
    &&& liquidator.liquidity_amount + amount <= u64::MAX
}

/// The treasury once `amount` has been deposited.
pub open spec fn treasury_after_deposit(treasury: TreasuryState, amount: u64) -> TreasuryState {
    TreasuryState { total_liquidity: (treasury.total_liquidity + amount) as u64, ..treasury }
}

/// The lender's record once `amount` has been deposited at time `now`.
pub open spec fn liquidator_after_deposit(
    liquidator: LiquidatorState,
    amount: u64,
    now: i64,
) -> LiquidatorState {
    LiquidatorState {
        liquidity_amount: (liquidator.liquidity_amount + amount) as u64,
        deposit_time: now,
        last_update_time: now,
        ..liquidator
    }
}

/// Records a lender's deposit of `amount` into the treasury at time `now`.
///
/// On success both records are raised by the amount and the transfer from
/// the lender to the treasury, signed by the lender, is returned. A deposit
/// that would take either record beyond its width is refused as an
/// overflow, and both records are then unchanged.
pub fn deposit_treasury(
    treasury: &mut TreasuryState,
    liquidator: &mut LiquidatorState,
    amount: u64,
    now: i64,
) -> (result: Result<Transfer, ErrorCode>)
    ensures
        deposit_fits(*old(treasury), *old(liquidator), amount) ==> {
            &&& result == Ok::<Transfer, ErrorCode>(
                Transfer { amount, authority: Authority::Signer { key: old(liquidator).owner } },
            )
            &&& *final(treasury) == treasury_after_deposit(*old(treasury), amount)
            &&& *final(liquidator) == liquidator_after_deposit(*old(liquidator), amount, now)
        },
        !deposit_fits(*old(treasury), *old(liquidator), amount) ==> {
            &&& result == Err::<Transfer, ErrorCode>(ErrorCode::MathOverflow)
            &&& *final(treasury) == *old(treasury)
            &&& *final(liquidator) == *old(liquidator)
        },
        result is Ok && old(treasury).well_formed() ==> final(treasury).well_formed(),
{
    let total_liquidity: u64 = match treasury.total_liquidity.checked_add(amount) {
        Some(total) => total,
        None => { return Err(ErrorCode::MathOverflow); },
    };
    let liquidity_amount: u64 = match liquidator.liquidity_amount.checked_add(amount) {
        Some(total) => total,
        None => { return Err(ErrorCode::MathOverflow); },
    };
    treasury.total_liquidity = total_liquidity;
    liquidator.liquidity_amount = liquidity_amount;
    liquidator.deposit_time = now;
    liquidator.last_update_time = now;
    Ok(Transfer { amount, authority: Authority::Signer { key: liquidator.owner } })
}

/// The pool once `amount` of collateral has been pledged.
pub open spec fn pool_after_deposit(pool: PoolState, amount: u64) -> PoolState {
    PoolState { collateral_amount: (pool.collateral_amount + amount) as u64, ..pool }
}

/// Records a borrower's pledge of `amount` of collateral.
///
/// On success the pool's collateral is raised by the amount and the
/// transfer from the borrower to the vault, signed by the borrower, is
/// returned. A pledge that would take the collateral beyond its width is
/// refused as an overflow, and the pool is then unchanged.
pub fn deposit_collateral(pool: &mut PoolState, amount: u64) -> (result: Result<
    Transfer,
    ErrorCode,
>)
    ensures
        old(pool).collateral_amount + amount <= u64::MAX ==> {
            &&& result == Ok::<Transfer, ErrorCode>(
                Transfer { amount, authority: Authority::Signer { key: old(pool).owner } },
            )
            &&& *final(pool) == pool_after_deposit(*old(pool), amount)
        },
        old(pool).collateral_amount + amount > u64::MAX ==> {
            &&& result == Err::<Transfer, ErrorCode>(ErrorCode::MathOverflow)
            &&& *final(pool) == *old(pool)
        },
        result is Ok && old(pool).well_formed() ==> final(pool).well_formed(),
{
    let collateral_amount: u64 = match pool.collateral_amount.checked_add(amount) {
        Some(total) => total,
        None => { return Err(ErrorCode::MathOverflow); },
    };
    pool.collateral_amount = collateral_amount;
    Ok(Transfer { amount, authority: Authority::Signer { key: pool.owner } })
}

} // verus!
