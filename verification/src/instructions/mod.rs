//! The operations of the protocol, one module each.

pub mod borrow_loan;
pub mod deposit;
pub mod initialize;
pub mod liquidate_collateral;
pub mod liquidity_withdraw;
pub mod repay_loan;
