//! Drawing a loan from the treasury against collateral.

use vstd::prelude::*;
use crate::errors::ErrorCode;
use crate::ledger::{Authority, Transfer};
use crate::states::pool_state::PoolState;
use crate::states::treasury_state::TreasuryState;

verus! {

/// Why a loan of `requested_amount` is refused, if it is.
///
/// The treasury's cover is examined first: a loan that would bring the
/// total lent above the total deposited is refused for want of liquidity,
/// whatever the state of the pool. Then the pool must carry collateral and
/// have no loan outstanding, and the loan must stay within
/// `borrow_ceiling`, the most that the collateral supports at its current
/// price.
pub open spec fn borrow_error(
    pool: PoolState,
    treasury: TreasuryState,
    requested_amount: u64,
    borrow_ceiling: u64,
) -> Option<ErrorCode> {
    if treasury.total_borrowed + requested_amount > treasury.total_liquidity {
        Some(ErrorCode::InsufficientLiquidity)
    } else if !pool.is_initialized() {
        Some(ErrorCode::NotInitialized)
    } else if pool.is_active {
        Some(ErrorCode::Unauthorized)
    } else if requested_amount > borrow_ceiling {
        Some(ErrorCode::InsufficientLiquidity)
    } else {
        None
    }
}

/// The pool once it has drawn `requested_amount`.
pub open spec fn pool_after_borrow(pool: PoolState, requested_amount: u64) -> PoolState {
    PoolState { loan_amount: requested_amount, is_active: true, ..pool }
}

/// The treasury once it has lent `requested_amount`.
pub open spec fn treasury_after_borrow(
    treasury: TreasuryState,
    requested_amount: u64,
) -> TreasuryState {
    TreasuryState {
        total_borrowed: (treasury.total_borrowed + requested_amount) as u64,
        ..treasury
    }
}

/// The transfer that pays a loan out: from the treasury's custody to the
/// borrower, released by the treasury's custody authority.
pub open spec fn disbursement(treasury: TreasuryState, requested_amount: u64) -> Transfer {
    Transfer {
        amount: requested_amount,
        authority: Authority::Treasury { bump: treasury.treasury_authority_bump },
    }
}

/// Draws a loan of `requested_amount` for `pool` from `treasury`.
///
/// `borrow_ceiling` is the most that the pool's collateral supports at its
/// current price. On success the pool owes the amount and is active, the
/// treasury counts the amount as lent, and the transfer that pays it out is
/// returned. On failure neither record has changed.
pub fn borrow_loan(
    pool: &mut PoolState,
    treasury: &mut TreasuryState,
    requested_amount: u64,
    borrow_ceiling: u64,
) -> (result: Result<Transfer, ErrorCode>)
    ensures
        match borrow_error(*old(pool), *old(treasury), requested_amount, borrow_ceiling) {
            Some(error) => {
                &&& result == Err::<Transfer, ErrorCode>(error)
                &&& *final(pool) == *old(pool)
                &&& *final(treasury) == *old(treasury)
            },
            None => {
                &&& result == Ok::<Transfer, ErrorCode>(
                    disbursement(*old(treasury), requested_amount),
                )
                &&& *final(pool) == pool_after_borrow(*old(pool), requested_amount)
                &&& *final(treasury) == treasury_after_borrow(*old(treasury), requested_amount)
            },
        },
        old(treasury).total_borrowed + requested_amount > old(treasury).total_liquidity
            ==> result == Err::<Transfer, ErrorCode>(ErrorCode::InsufficientLiquidity),
        result is Ok ==> final(pool).well_formed() && final(treasury).well_formed(),
{
    let total_borrowed: u64 = match treasury.total_borrowed.checked_add(requested_amount) {
        Some(total) => total,
        None => { return Err(ErrorCode::InsufficientLiquidity); },
    };
    if total_borrowed > treasury.total_liquidity {
        return Err(ErrorCode::InsufficientLiquidity);
    }
    if pool.collateral_amount == 0 {
        return Err(ErrorCode::NotInitialized);
    }
    if pool.is_active {
        return Err(ErrorCode::Unauthorized);
    }
    if requested_amount > borrow_ceiling {
        return Err(ErrorCode::InsufficientLiquidity);
    }
    pool.loan_amount = requested_amount;
    pool.is_active = true;
    treasury.total_borrowed = total_borrowed;
    Ok(
        Transfer {
            amount: requested_amount,
            authority: Authority::Treasury { bump: treasury.treasury_authority_bump },
        },
    )
}

} // verus!
