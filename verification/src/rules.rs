//! The rules of each operation, as functions of the values it reads.
//!
//! Every function here takes what an operation finds in the store and what its
//! caller asks for, and decides: either the failure that the first unmet
//! condition gives, or the amounts that are to be written. None of them touches
//! a store, so the same rules serve whatever store holds the ledger.

use vstd::prelude::*;
use crate::errors::TokenError;

verus! {

/// The largest number of decimals a token can have.
pub const MAX_DECIMALS: u32 = 18;

/// The largest length of a token's name, in bytes.
pub const MAX_NAME_LENGTH: usize = 100;

/// The largest length of a token's symbol, in bytes.
pub const MAX_SYMBOL_LENGTH: usize = 32;

/// What a mint or a burn writes: the account's balance and the supply.
#[derive(Copy, Clone, Debug, PartialEq, Eq, Structural)]
pub struct SupplyChange {
    /// The balance of the account after the operation.
    pub new_balance: i128,
    /// The supply after the operation.
    pub new_supply: i128,
}

/// What a transfer writes: the balances of the two accounts.
#[derive(Copy, Clone, Debug, PartialEq, Eq, Structural)]
pub struct Movement {
    /// The sender's balance after the transfer.
    pub new_from_balance: i128,
    /// The recipient's balance after the transfer.
    pub new_to_balance: i128,
}

/// What a transfer on behalf of an owner writes: the two balances and what is
/// left of the spender's allowance.
#[derive(Copy, Clone, Debug, PartialEq, Eq, Structural)]
pub struct Spending {
    /// The owner's balance after the transfer.
    pub new_from_balance: i128,
    /// The recipient's balance after the transfer.
    pub new_to_balance: i128,
    /// The spender's allowance after the transfer.
    pub new_allowance: i128,
}

/// How a balance or an allowance is written: a record is kept only for an
/// amount other than zero.
#[derive(Copy, Clone, Debug, PartialEq, Eq, Structural)]
pub enum RecordWrite {
    /// Delete the record.
    Remove,
    /// Store the amount, which is not zero.
    Store(i128),
}

/// The amount that a read of a record stands for: a missing record reads as 0.
pub open spec fn spec_stored_amount(record: Option<i128>) -> i128 {
    match record {
        Some(amount) => amount,
        None => 0,
    }
}

/// The amount that a read of a record stands for: a missing record reads as 0.
pub fn stored_amount(record: Option<i128>) -> (amount: i128)
    ensures
        amount == spec_stored_amount(record),
{
    match record {
        Some(amount) => amount,
        None => 0,
    }
}

/// How `amount` is written: zero removes the record, anything else is stored.
pub open spec fn spec_record_write(amount: i128) -> RecordWrite {
    if amount == 0 {
        RecordWrite::Remove
    } else {
        RecordWrite::Store(amount)
    }
}

/// How `amount` is written: zero removes the record, anything else is stored.
pub fn record_write(amount: i128) -> (write: RecordWrite)
    ensures
        write == spec_record_write(amount),
{
    if amount == 0 {
        RecordWrite::Remove
    } else {
        RecordWrite::Store(amount)
    }
}

/// Whether a ledger can be set up with these metadata: only once, with at most
/// 18 decimals, a name of 1 to 100 bytes and a symbol of 1 to 32 bytes.
pub open spec fn spec_check_initialize(
    already_initialized: bool,
    name_length: int,
    symbol_length: int,
    decimals: u32,
) -> Result<(), TokenError> {
    if already_initialized {
        Err(TokenError::AlreadyInitialized)
    } else if decimals > MAX_DECIMALS {
        Err(TokenError::InvalidDecimals)
    } else if name_length == 0 || name_length > MAX_NAME_LENGTH {
        Err(TokenError::InvalidMetadata)
    } else if symbol_length == 0 || symbol_length > MAX_SYMBOL_LENGTH {
        Err(TokenError::InvalidMetadata)
    } else {
        Ok(())
    }
}

/// Decides whether a ledger can be set up with these metadata.
pub fn check_initialize(
    already_initialized: bool,
    name_length: usize,
    symbol_length: usize,
    decimals: u32,
) -> (r: Result<(), TokenError>)
    ensures
        r == spec_check_initialize(
            already_initialized,
            name_length as int,
            symbol_length as int,
            decimals,
        ),
{
    if already_initialized {
        return Err(TokenError::AlreadyInitialized);
    }
    if decimals > MAX_DECIMALS {
        return Err(TokenError::InvalidDecimals);
    }
    if name_length == 0 || name_length > MAX_NAME_LENGTH {
        return Err(TokenError::InvalidMetadata);
    }
    if symbol_length == 0 || symbol_length > MAX_SYMBOL_LENGTH {
        return Err(TokenError::InvalidMetadata);
    }
    Ok(())
}

/// What minting `amount` to an account with `balance` gives, at a supply of
/// `supply`: both grow by `amount`, which must be positive, and neither may
/// leave the range of the integer type.
pub open spec fn spec_plan_mint(initialized: bool, balance: i128, supply: i128, amount: i128)
    -> Result<SupplyChange, TokenError> {
    if !initialized {
        Err(TokenError::NotInitialized)
    } else if amount <= 0 {
        Err(TokenError::InvalidAmount)
    } else if balance + amount > i128::MAX || supply + amount > i128::MAX {
        Err(TokenError::OverflowError)
    } else {
        Ok(
            SupplyChange {
                new_balance: (balance + amount) as i128,
                new_supply: (supply + amount) as i128,
            },
        )
    }
}

/// Decides a mint.
pub fn plan_mint(initialized: bool, balance: i128, supply: i128, amount: i128) -> (r: Result<
    SupplyChange,
    TokenError,
>)
    ensures
        r == spec_plan_mint(initialized, balance, supply, amount),
{
    if !initialized {
        return Err(TokenError::NotInitialized);
    }
    if amount <= 0 {
        return Err(TokenError::InvalidAmount);
    }
    let new_balance = match balance.checked_add(amount) {
        Some(sum) => sum,
        None => {
            return Err(TokenError::OverflowError);
        },
    };
    let new_supply = match supply.checked_add(amount) {
        Some(sum) => sum,
        None => {
            return Err(TokenError::OverflowError);
        },
    };
    Ok(SupplyChange { new_balance, new_supply })
}

/// What burning `amount` from an account with `balance` gives, at a supply of
/// `supply`: both shrink by `amount`, which must be positive and no more than
/// the balance; a supply that would leave the range of the integer type is
/// refused rather than wrapped.
pub open spec fn spec_plan_burn(initialized: bool, balance: i128, supply: i128, amount: i128)
    -> Result<SupplyChange, TokenError> {
    if !initialized {
        Err(TokenError::NotInitialized)
    } else if amount <= 0 {
        Err(TokenError::InvalidAmount)
    } else if balance < amount {
        Err(TokenError::InsufficientBalance)
    } else if supply - amount < i128::MIN {
        Err(TokenError::OverflowError)
    } else {
        Ok(
            SupplyChange {
                new_balance: (balance - amount) as i128,
                new_supply: (supply - amount) as i128,
            },
        )
    }
}

/// Decides a burn.
pub fn plan_burn(initialized: bool, balance: i128, supply: i128, amount: i128) -> (r: Result<
    SupplyChange,
    TokenError,
>)
    ensures
        r == spec_plan_burn(initialized, balance, supply, amount),
{
    if !initialized {
        return Err(TokenError::NotInitialized);
    }
    if amount <= 0 {
        return Err(TokenError::InvalidAmount);
    }
    if balance < amount {
        return Err(TokenError::InsufficientBalance);
    }
    let new_balance = balance - amount;
    let new_supply = match supply.checked_sub(amount) {
        Some(difference) => difference,
        None => {
            return Err(TokenError::OverflowError);
        },
    };
    Ok(SupplyChange { new_balance, new_supply })
}

/// What moving `amount` between two accounts gives: the amount must be
/// positive, the accounts different, the sender's balance sufficient, and the
/// recipient's balance must stay in the range of the integer type.
pub open spec fn spec_plan_transfer(
    initialized: bool,
    same_account: bool,
    from_balance: i128,
    to_balance: i128,
    amount: i128,
) -> Result<Movement, TokenError> {
    if !initialized {
        Err(TokenError::NotInitialized)
    } else if amount <= 0 {
        Err(TokenError::InvalidAmount)
    } else if same_account {
        Err(TokenError::InvalidRecipient)
    } else if from_balance < amount {
        Err(TokenError::InsufficientBalance)
    } else if to_balance + amount > i128::MAX {
        Err(TokenError::OverflowError)
    } else {
        Ok(
            Movement {
                new_from_balance: (from_balance - amount) as i128,
                new_to_balance: (to_balance + amount) as i128,
            },
        )
    }
}

/// Decides a transfer. `same_account` says whether sender and recipient are
/// one account.
pub fn plan_transfer(
    initialized: bool,
    same_account: bool,
    from_balance: i128,
    to_balance: i128,
    amount: i128,
) -> (r: Result<Movement, TokenError>)
    ensures
        r == spec_plan_transfer(initialized, same_account, from_balance, to_balance, amount),
{
    if !initialized {
        return Err(TokenError::NotInitialized);
    }
    if amount <= 0 {
        return Err(TokenError::InvalidAmount);
    }
    if same_account {
        return Err(TokenError::InvalidRecipient);
    }
    if from_balance < amount {
        return Err(TokenError::InsufficientBalance);
    }
    let new_from_balance = from_balance - amount;
    let new_to_balance = match to_balance.checked_add(amount) {
        Some(sum) => sum,
        None => {
            return Err(TokenError::OverflowError);
        },
    };
    Ok(Movement { new_from_balance, new_to_balance })
}

/// Whether an allowance of `amount` can be granted: any amount that is not
/// negative, zero included, which revokes.
pub open spec fn spec_check_approve(initialized: bool, amount: i128) -> Result<(), TokenError> {
    if !initialized {
        Err(TokenError::NotInitialized)
    } else if amount < 0 {
        Err(TokenError::InvalidAmount)
    } else {
        Ok(())
    }
}

/// Decides an approval.
pub fn check_approve(initialized: bool, amount: i128) -> (r: Result<(), TokenError>)
    ensures
        r == spec_check_approve(initialized, amount),
{
    if !initialized {
        return Err(TokenError::NotInitialized);
    }
    if amount < 0 {
        return Err(TokenError::InvalidAmount);
    }
    Ok(())
}

/// What a spender's transfer of `amount` out of an owner's balance gives: as a
/// transfer, and the allowance must cover the amount, which is asked before the
/// owner's balance is.
pub open spec fn spec_plan_transfer_from(
    initialized: bool,
    same_account: bool,
    allowance: i128,
    from_balance: i128,
    to_balance: i128,
    amount: i128,
) -> Result<Spending, TokenError> {
    if !initialized {
        Err(TokenError::NotInitialized)
    } else if amount <= 0 {
        Err(TokenError::InvalidAmount)
    } else if same_account {
        Err(TokenError::InvalidRecipient)
    } else if allowance < amount {
        Err(TokenError::InsufficientAllowance)
    } else if from_balance < amount {
        Err(TokenError::InsufficientBalance)
    } else if to_balance + amount > i128::MAX {
        Err(TokenError::OverflowError)
    } else {
        Ok(
            Spending {
                new_from_balance: (from_balance - amount) as i128,
                new_to_balance: (to_balance + amount) as i128,
                new_allowance: (allowance - amount) as i128,
            },
        )
    }
}

/// Decides a transfer on behalf of an owner. `same_account` says whether owner
/// and recipient are one account.
pub fn plan_transfer_from(
    initialized: bool,
    same_account: bool,
    allowance: i128,
    from_balance: i128,
    to_balance: i128,
    amount: i128,
) -> (r: Result<Spending, TokenError>)
    ensures
        r == spec_plan_transfer_from(
            initialized,
            same_account,
            allowance,
            from_balance,
            to_balance,
            amount,
        ),
{
    if !initialized {
        return Err(TokenError::NotInitialized);
    }
    if amount <= 0 {
        return Err(TokenError::InvalidAmount);
    }
    if same_account {
        return Err(TokenError::InvalidRecipient);
    }
    if allowance < amount {
        return Err(TokenError::InsufficientAllowance);
    }
    if from_balance < amount {
        return Err(TokenError::InsufficientBalance);
    }
    let new_from_balance = from_balance - amount;
    let new_to_balance = match to_balance.checked_add(amount) {
        Some(sum) => sum,
        None => {
            return Err(TokenError::OverflowError);
        },
    };
    let new_allowance = allowance - amount;
    Ok(Spending { new_from_balance, new_to_balance, new_allowance })
}

} // verus!
