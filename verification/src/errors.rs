//! The ways in which an operation can be refused.

use vstd::prelude::*;

verus! {

/// Why an operation was aborted. An aborted operation changes no record.
#[derive(Clone, Copy, Debug, PartialEq, Eq, Structural)]
pub enum ErrorCode {
    /// The caller has no rights over a record or a custody authority.
    Unauthorized,
    /// The price feed is missing, stale or not the expected one.
    InvalidPrice,
    /// A checked computation left its integer width.
    MathOverflow,
    /// A treasury or vault balance cannot cover the requested amount.
    InsufficientLiquidity,
    /// An account holds another asset than the record names.
    InvalidMint,
    /// The record carries no collateral yet.
    NotInitialized,
}

impl ErrorCode {
    /// The text shown to a user for each error.
    pub open spec fn message_text(self) -> Seq<char> {
        match self {
            ErrorCode::Unauthorized => "Unauthorized access"@,
            ErrorCode::InvalidPrice => "Invalid price feed"@,
            ErrorCode::MathOverflow => "Math overflow"@,
            ErrorCode::InsufficientLiquidity => "Insufficient liquidity"@,
            ErrorCode::InvalidMint => "Invalid mint"@,
            ErrorCode::NotInitialized => "Account not initialized"@,
        }
    }

    /// Returns the text shown to a user for this error.
    pub fn message(&self) -> (text: &'static str)
        ensures
            text@ == self.message_text(),
    {
        match self {
            ErrorCode::Unauthorized => "Unauthorized access",
            ErrorCode::InvalidPrice => "Invalid price feed",
            ErrorCode::MathOverflow => "Math overflow",
            ErrorCode::InsufficientLiquidity => "Insufficient liquidity",
            ErrorCode::InvalidMint => "Invalid mint",
            ErrorCode::NotInitialized => "Account not initialized",
        }
    }
}

} // verus!
