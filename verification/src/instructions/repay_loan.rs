//! Settling a loan by its borrower.

use vstd::prelude::*;
use crate::errors::ErrorCode;
use crate::instructions::borrow_loan::{borrow_error, pool_after_borrow, treasury_after_borrow};
use crate::ledger::{Authority, Transfer};
use crate::math::{amount_due_of, compute_amount_due, lemma_amount_due_covers_principal};
use crate::states::pool_state::PoolState;
use crate::states::treasury_state::TreasuryState;

verus! {

/// What the borrower owes: the loan and its interest.
pub open spec fn amount_owed(pool: PoolState) -> int {
    amount_due_of(pool.loan_amount as int, pool.interest_rate as int)
}

/// Why a repayment is refused, if it is: the pool carries no collateral,
/// the amount owed does not fit transfer units, or the treasury counts
/// less as lent than the pool owes.
pub open spec fn repay_error(pool: PoolState, treasury: TreasuryState) -> Option<ErrorCode> {
    if !pool.is_initialized() {
        Some(ErrorCode::NotInitialized)
    } else if amount_owed(pool) > u64::MAX {
        Some(ErrorCode::MathOverflow)
    } else if pool.loan_amount > treasury.total_borrowed {
        Some(ErrorCode::MathOverflow)
    } else {
        None
    }
}

/// The treasury once the pool's loan is settled: the principal no longer
/// counts as lent.
pub open spec fn treasury_after_repay(pool: PoolState, treasury: TreasuryState) -> TreasuryState {
    TreasuryState {
        total_borrowed: (treasury.total_borrowed - pool.loan_amount) as u64,
        ..treasury
    }
}

/// The transfer that settles the loan: from the borrower to the treasury,
/// signed by the borrower.
pub open spec fn repayment(pool: PoolState) -> Transfer {
    Transfer { amount: amount_owed(pool) as u64, authority: Authority::Signer { key: pool.owner } }
}

/// Settles the loan of `pool` with `treasury`.
///
/// On success the pool is closed, the treasury no longer counts the
/// principal as lent, and the transfer of principal and interest is
/// returned. On failure neither record has changed.
pub fn repay_loan(pool: &mut PoolState, treasury: &mut TreasuryState) -> (result: Result<
    Transfer,
    ErrorCode,
>)
    ensures
        match repay_error(*old(pool), *old(treasury)) {
            Some(error) => {
                &&& result == Err::<Transfer, ErrorCode>(error)
                &&& *final(pool) == *old(pool)
                &&& *final(treasury) == *old(treasury)
            },
            None => {
                &&& result == Ok::<Transfer, ErrorCode>(repayment(*old(pool)))
                &&& *final(pool) == old(pool).closed()
                &&& *final(treasury) == treasury_after_repay(*old(pool), *old(treasury))
            },
        },
        result matches Ok(transfer) ==> transfer.amount >= old(pool).loan_amount,
        result is Ok ==> final(pool).well_formed(),
        result is Ok && old(treasury).well_formed() ==> final(treasury).well_formed(),
{
    if pool.collateral_amount == 0 {
        return Err(ErrorCode::NotInitialized);
    }
    let amount_due: u64 = match compute_amount_due(pool.loan_amount, pool.interest_rate) {
        Ok(amount) => amount,
        Err(error) => { return Err(error); },
    };
    let total_borrowed: u64 = match treasury.total_borrowed.checked_sub(pool.loan_amount) {
        Some(total) => total,
        None => { return Err(ErrorCode::MathOverflow); },
    };
    let transfer = Transfer { amount: amount_due, authority: Authority::Signer { key: pool.owner } };
    treasury.total_borrowed = total_borrowed;
    pool.close();
    Ok(transfer)
}

/// A loan that is drawn and then settled leaves the treasury counting as
/// much as lent as before the loan, whatever the rate; at a rate of zero the
/// settlement cannot fail and moves exactly the amount that was drawn.
pub proof fn lemma_borrow_then_repay_restores_borrowed(
    pool: PoolState,
    treasury: TreasuryState,
    requested_amount: u64,
    borrow_ceiling: u64,
)
    requires
        borrow_error(pool, treasury, requested_amount, borrow_ceiling) is None,
    ensures
        ({
            let drawn = pool_after_borrow(pool, requested_amount);
            let lent = treasury_after_borrow(treasury, requested_amount);
            &&& repay_error(drawn, lent) is None ==> treasury_after_repay(drawn, lent) == treasury
            &&& repay_error(drawn, lent) is None ==> drawn.closed() == pool.closed()
            &&& pool.interest_rate == 0 ==> repay_error(drawn, lent) is None
            &&& pool.interest_rate == 0 ==> repayment(drawn).amount == requested_amount
        }),
{
    lemma_amount_due_covers_principal(requested_amount as int, pool.interest_rate as int);
}

} // verus!
