//! The failures that a ledger operation can report.

use vstd::prelude::*;

verus! {

/// Why an operation on the ledger was refused.
///
/// Each failure has a stable numeric code from 1 to 9, see [`TokenError::code`];
/// 0 is kept for "no error".
#[derive(Copy, Clone, Debug, PartialEq, Eq, Structural)]
pub enum TokenError {
    /// `initialize` was called on a ledger that is already set up.
    AlreadyInitialized,
    /// The amount does not meet the operation's sign constraint.
    InvalidAmount,
    /// The account holds less than the amount asked for.
    InsufficientBalance,
    /// The spender may move less than the amount asked for.
    InsufficientAllowance,
    /// The ledger has not been set up yet.
    NotInitialized,
    /// More than 18 decimals were asked for.
    InvalidDecimals,
    /// A balance or the supply would leave the representable range.
    OverflowError,
    /// Sender and recipient are the same account.
    InvalidRecipient,
    /// The name or the symbol is empty or too long.
    InvalidMetadata,
}

impl TokenError {
    /// The numeric code of each failure, as a mathematical integer.
    pub open spec fn spec_code(self) -> int {
        match self {
            TokenError::AlreadyInitialized => 1,
            TokenError::InvalidAmount => 2,
            TokenError::InsufficientBalance => 3,
            TokenError::InsufficientAllowance => 4,
            TokenError::NotInitialized => 5,
            TokenError::InvalidDecimals => 6,
            TokenError::OverflowError => 7,
            TokenError::InvalidRecipient => 8,
            TokenError::InvalidMetadata => 9,
        }
    }

    /// The stable numeric code of this failure.
    pub fn code(self) -> (c: u32)
        ensures
            c == self.spec_code(),
            1 <= c <= 9,
    {
        match self {
            TokenError::AlreadyInitialized => 1,
            TokenError::InvalidAmount => 2,
            TokenError::InsufficientBalance => 3,
            TokenError::InsufficientAllowance => 4,
            TokenError::NotInitialized => 5,
            TokenError::InvalidDecimals => 6,
            TokenError::OverflowError => 7,
            TokenError::InvalidRecipient => 8,
            TokenError::InvalidMetadata => 9,
        }
    }
}

} // verus!
