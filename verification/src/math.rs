//! Interest accrual and collateral seizure, in exact integer arithmetic.
//!
//! Amounts are raw `u64` units. Products are formed in `u128`, twice the
//! width of the operands, and every step is checked: a value that leaves its
//! width is reported as [`ErrorCode::MathOverflow`] and never wraps.

use vstd::prelude::*;
use crate::errors::ErrorCode;

verus! {

/// The number of basis points in one whole.
pub const BPS_DENOMINATOR: u128 = 10_000;

/// The divisor that brings a fixed-point priced amount back to raw units.
pub const SEIZE_DIVISOR: u128 = 1_000_000_000;

/// The interest owed on `loan_amount` at `rate_bps` basis points, rounded
/// down.
pub open spec fn interest_of(loan_amount: int, rate_bps: int) -> int {
    (loan_amount * rate_bps) / 10_000
}

/// The amount that settles a loan: the principal and its interest.
pub open spec fn amount_due_of(loan_amount: int, rate_bps: int) -> int {
    loan_amount + interest_of(loan_amount, rate_bps)
}

/// The whole multiple by which a liquidator's claim is scaled.
///
/// The division truncates: a bonus under 10 000 basis points yields a factor
/// of exactly 1, so such a bonus adds nothing to the seized amount.
pub open spec fn bonus_factor_of(bonus_bps: int) -> int {
    (10_000 + bonus_bps) / 10_000
}

/// The priced and scaled claim before it is brought back to raw units.
pub open spec fn seize_product_of(loan_amount: int, price: int, bonus_bps: int) -> int {
    loan_amount * price * bonus_factor_of(bonus_bps)
}

/// The collateral owed to a liquidator who settles `loan_amount` at `price`
/// (fixed point, eight decimal places), rounded down.
pub open spec fn seize_amount_of(loan_amount: int, price: int, bonus_bps: int) -> int {
    seize_product_of(loan_amount, price, bonus_bps) / 1_000_000_000
}

/// Whether a seizure can be computed: the scaled product stays within the
/// 128-bit intermediate and the seized amount within transfer units.
pub open spec fn seize_fits(loan_amount: int, price: int, bonus_bps: int) -> bool {
    &&& seize_product_of(loan_amount, price, bonus_bps) <= u128::MAX
    &&& seize_amount_of(loan_amount, price, bonus_bps) <= u64::MAX
}

/// Computes the interest owed on a loan.
///
/// With operands of 64 bits the product fits the 128-bit intermediate, so
/// the result is always `Ok`.
pub fn compute_interest(loan_amount: u64, interest_rate: u64) -> (result: Result<u128, ErrorCode>)
    ensures
        result == Ok::<u128, ErrorCode>(
            interest_of(loan_amount as int, interest_rate as int) as u128,
        ),
        0 <= interest_of(loan_amount as int, interest_rate as int) <= u128::MAX,
{
    proof {
        lemma_product_fits(loan_amount, interest_rate);
    }
    let interest_num: u128 = match (loan_amount as u128).checked_mul(interest_rate as u128) {
        Some(product) => product,
        None => { return Err(ErrorCode::MathOverflow); },
    };
    match interest_num.checked_div(BPS_DENOMINATOR) {
        Some(interest) => Ok(interest),
        None => Err(ErrorCode::MathOverflow),
    }
}

/// Computes the amount that settles a loan, in transfer units.
///
/// The sum is formed in 128 bits and narrowed to 64 at the end. It is refused
/// with [`ErrorCode::MathOverflow`] exactly when it does not fit a `u64`;
/// a settled amount is never less than the principal.
pub fn compute_amount_due(loan_amount: u64, interest_rate: u64) -> (result: Result<u64, ErrorCode>)
    ensures
        amount_due_of(loan_amount as int, interest_rate as int) <= u64::MAX ==> result == Ok::<
            u64,
            ErrorCode,
        >(amount_due_of(loan_amount as int, interest_rate as int) as u64),
        amount_due_of(loan_amount as int, interest_rate as int) > u64::MAX ==> result == Err::<
            u64,
            ErrorCode,
        >(ErrorCode::MathOverflow),
        result matches Ok(due) ==> due >= loan_amount,
{
    let interest: u128 = match compute_interest(loan_amount, interest_rate) {
        Ok(interest) => interest,
        Err(error) => { return Err(error); },
    };
    proof {
        lemma_amount_due_covers_principal(loan_amount as int, interest_rate as int);
    }
    let amount_due: u128 = match (loan_amount as u128).checked_add(interest) {
        Some(sum) => sum,
        None => { return Err(ErrorCode::MathOverflow); },
    };
    narrow(amount_due)
}

/// Narrows a wide amount to transfer units; a value that would lose bits is
/// an overflow.
pub fn narrow(wide: u128) -> (result: Result<u64, ErrorCode>)
    ensures
        wide <= u64::MAX ==> result == Ok::<u64, ErrorCode>(wide as u64),
        wide > u64::MAX ==> result == Err::<u64, ErrorCode>(ErrorCode::MathOverflow),
{
    if wide > u64::MAX as u128 {
        Err(ErrorCode::MathOverflow)
    } else {
        Ok(wide as u64)
    }
}

/// Computes the bonus factor for a liquidation bonus in basis points.
pub fn compute_bonus_factor(bonus_bps: u64) -> (factor: u128)
    ensures
        factor == bonus_factor_of(bonus_bps as int),
        factor >= 1,
{
    (BPS_DENOMINATOR + bonus_bps as u128) / BPS_DENOMINATOR
}

/// Computes the collateral to seize for a liquidated loan.
///
/// Succeeds exactly when the scaled product fits 128 bits and the seized
/// amount fits 64 bits; every other input is refused with
/// [`ErrorCode::MathOverflow`]. In particular a product beyond the
/// intermediate width is refused and never wraps.
pub fn compute_collateral_seize(loan_amount: u64, price: u64, bonus_bps: u64) -> (result: Result<
    u64,
    ErrorCode,
>)
    ensures
        seize_fits(loan_amount as int, price as int, bonus_bps as int) ==> result == Ok::<
            u64,
            ErrorCode,
        >(seize_amount_of(loan_amount as int, price as int, bonus_bps as int) as u64),
        !seize_fits(loan_amount as int, price as int, bonus_bps as int) ==> result == Err::<
            u64,
            ErrorCode,
        >(ErrorCode::MathOverflow),
        seize_product_of(loan_amount as int, price as int, bonus_bps as int) > u128::MAX
            ==> result == Err::<u64, ErrorCode>(ErrorCode::MathOverflow),
{
    let bonus: u128 = compute_bonus_factor(bonus_bps);
    proof {
        lemma_product_fits(loan_amount, price);
    }
    let priced: u128 = match (loan_amount as u128).checked_mul(price as u128) {
        Some(product) => product,
        None => { return Err(ErrorCode::MathOverflow); },
    };
    let scaled: u128 = match priced.checked_mul(bonus) {
        Some(product) => product,
        None => { return Err(ErrorCode::MathOverflow); },
    };
    match scaled.checked_div(SEIZE_DIVISOR) {
        Some(seize_amount) => narrow(seize_amount),
        None => Err(ErrorCode::MathOverflow),
    }
}

/// The product of two 64-bit values fits in 128 bits.
pub proof fn lemma_product_fits(a: u64, b: u64)
    ensures
        0 <= a * b <= u128::MAX,
{
    assert(0 <= a * b <= 0xffff_ffff_ffff_ffff * 0xffff_ffff_ffff_ffff) by (nonlinear_arith)
        requires
            0 <= a <= 0xffff_ffff_ffff_ffff,
            0 <= b <= 0xffff_ffff_ffff_ffff,
    ;
}

/// Interest is never negative, so the amount that settles a loan is never
/// less than its principal; at a rate of zero it is the principal itself.
pub proof fn lemma_amount_due_covers_principal(loan_amount: int, rate_bps: int)
    requires
        0 <= loan_amount,
        0 <= rate_bps,
    ensures
        0 <= interest_of(loan_amount, rate_bps),
        amount_due_of(loan_amount, rate_bps) >= loan_amount,
        rate_bps == 0 ==> amount_due_of(loan_amount, rate_bps) == loan_amount,
{
    assert(0 <= loan_amount * rate_bps) by (nonlinear_arith)
        requires
            0 <= loan_amount,
            0 <= rate_bps,
    ;
    assert(rate_bps == 0 ==> loan_amount * rate_bps == 0) by (nonlinear_arith);
}

/// A bonus under 10 000 basis points is truncated away: the seized amount
/// is the one that no bonus at all would give.
pub proof fn lemma_small_bonus_adds_nothing(loan_amount: int, price: int, bonus_bps: int)
    requires
        0 <= bonus_bps < 10_000,
    ensures
        bonus_factor_of(bonus_bps) == 1,
        seize_amount_of(loan_amount, price, bonus_bps) == (loan_amount * price) / 1_000_000_000,
        seize_amount_of(loan_amount, price, bonus_bps) == seize_amount_of(loan_amount, price, 0),
{
    assert(loan_amount * price * 1 == loan_amount * price) by (nonlinear_arith);
}

} // verus!
