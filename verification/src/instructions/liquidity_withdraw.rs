//! Taking a lender's deposit back out of the treasury.

use vstd::prelude::*;
use crate::errors::ErrorCode;
use crate::ledger::{Authority, Transfer};
use crate::states::liquidator_state::LiquidatorState;
use crate::states::treasury_state::TreasuryState;

verus! {

/// Whether `amount_deposited` can leave the treasury: the lender has as
/// much on deposit, and what stays still covers what is lent.
pub open spec fn withdraw_allowed(
    treasury: TreasuryState,
    liquidator: LiquidatorState,
    amount_deposited: u64,
) -> bool {
    &&& amount_deposited <= liquidator.liquidity_amount
    &&& treasury.total_borrowed + amount_deposited <= treasury.total_liquidity
}

/// The treasury once `amount_deposited` has left it.
pub open spec fn treasury_after_withdraw(
    treasury: TreasuryState,
    amount_deposited: u64,
) -> TreasuryState {
    TreasuryState {
        total_liquidity: (treasury.total_liquidity - amount_deposited) as u64,
        ..treasury
    }
}

/// The lender's record once `amount_deposited` has been taken back.
pub open spec fn liquidator_after_withdraw(
    liquidator: LiquidatorState,
    amount_deposited: u64,
) -> LiquidatorState {
    LiquidatorState {
        liquidity_amount: (liquidator.liquidity_amount - amount_deposited) as u64,
        ..liquidator
    }
}

/// The transfer that pays a withdrawal out: from the treasury's custody to
/// the lender, released by the treasury's custody authority.
pub open spec fn payout(treasury: TreasuryState, amount_deposited: u64) -> Transfer {
    Transfer {
        amount: amount_deposited,
        authority: Authority::Treasury { bump: treasury.treasury_authority_bump },
    }
}

/// Withdraws `amount_deposited` of a lender's deposit from the treasury.
///
/// The withdrawal is refused for want of liquidity when it exceeds the
/// lender's recorded deposit or would leave less deposited than is lent;
/// both records are then unchanged. Otherwise both are lowered by the
/// amount, and the transfer that pays it out is returned.
pub fn liquidity_withdraw(
    treasury: &mut TreasuryState,
    liquidator: &mut LiquidatorState,
    amount_deposited: u64,
) -> (result: Result<Transfer, ErrorCode>)
    ensures
        withdraw_allowed(*old(treasury), *old(liquidator), amount_deposited) ==> {
            &&& result == Ok::<Transfer, ErrorCode>(payout(*old(treasury), amount_deposited))
            &&& *final(treasury) == treasury_after_withdraw(*old(treasury), amount_deposited)
            &&& *final(liquidator) == liquidator_after_withdraw(*old(liquidator), amount_deposited)
            &&& final(treasury).well_formed()
        },
        !withdraw_allowed(*old(treasury), *old(liquidator), amount_deposited) ==> {
            &&& result == Err::<Transfer, ErrorCode>(ErrorCode::InsufficientLiquidity)
            &&& *final(treasury) == *old(treasury)
            &&& *final(liquidator) == *old(liquidator)
        },
        amount_deposited > old(liquidator).liquidity_amount ==> {
            &&& result == Err::<Transfer, ErrorCode>(ErrorCode::InsufficientLiquidity)
            &&& *final(treasury) == *old(treasury)
            &&& *final(liquidator) == *old(liquidator)
        },
{
    if amount_deposited > liquidator.liquidity_amount {
        return Err(ErrorCode::InsufficientLiquidity);
    }
    let total_liquidity: u64 = match treasury.total_liquidity.checked_sub(amount_deposited) {
        Some(total) => total,
        None => { return Err(ErrorCode::InsufficientLiquidity); },
    };
    if treasury.total_borrowed > total_liquidity {
        return Err(ErrorCode::InsufficientLiquidity);
    }
    treasury.total_liquidity = total_liquidity;
    liquidator.liquidity_amount = liquidator.liquidity_amount - amount_deposited;
    Ok(
        Transfer {
            amount: amount_deposited,
            authority: Authority::Treasury { bump: treasury.treasury_authority_bump },
        },
    )
}

} // verus!
