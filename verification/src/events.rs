//! What an operation reports once it has changed the ledger.

use vstd::prelude::*;
use crate::account::Account;
use crate::storage::TokenMetadata;

verus! {

/// The record of one state transition. Every operation that succeeds gives
/// exactly one; an operation that fails gives none.
#[derive(Debug, PartialEq, Eq)]
pub enum Event {
    /// The ledger was set up.
    Init {
        /// The account that may mint from now on.
        admin: Account,
        /// The token's name, symbol and decimals.
        metadata: TokenMetadata,
    },
    /// New units came into existence.
    Mint {
        /// The account that received them.
        to: Account,
        /// How many units were minted.
        amount: i128,
        /// The recipient's balance after the mint.
        new_balance: i128,
        /// The supply after the mint.
        new_supply: i128,
    },
    /// Units were destroyed.
    Burn {
        /// The account that gave them up.
        from: Account,
        /// How many units were burned.
        amount: i128,
        /// The account's balance after the burn.
        new_balance: i128,
        /// The supply after the burn.
        new_supply: i128,
    },
    /// Units moved from one account to another.
    Transfer {
        /// The sender.
        from: Account,
        /// The recipient.
        to: Account,
        /// How many units moved.
        amount: i128,
        /// The sender's balance after the transfer.
        new_from_balance: i128,
        /// The recipient's balance after the transfer.
        new_to_balance: i128,
    },
    /// An owner set what a spender may move.
    Approve {
        /// The owner of the balance.
        owner: Account,
        /// The account that may spend from it.
        spender: Account,
        /// The allowance before the approval.
        old_allowance: i128,
        /// The allowance after the approval.
        new_allowance: i128,
    },
    /// A spender moved units out of an owner's balance.
    TransferFrom {
        /// The account that made the transfer.
        spender: Account,
        /// The owner of the balance.
        from: Account,
        /// The recipient.
        to: Account,
        /// How many units moved.
        amount: i128,
        /// The owner's balance after the transfer.
        new_from_balance: i128,
        /// The recipient's balance after the transfer.
        new_to_balance: i128,
        /// What is left of the spender's allowance.
        new_allowance: i128,
    },
}

impl Clone for Event {
    fn clone(&self) -> (copy: Event)
        ensures
            copy == *self,
    {
        match self {
            Event::Init { admin, metadata } => Event::Init {
                admin: *admin,
                metadata: metadata.clone(),
            },
            Event::Mint { to, amount, new_balance, new_supply } => Event::Mint {
                to: *to,
                amount: *amount,
                new_balance: *new_balance,
                new_supply: *new_supply,
            },
            Event::Burn { from, amount, new_balance, new_supply } => Event::Burn {
                from: *from,
                amount: *amount,
                new_balance: *new_balance,
                new_supply: *new_supply,
            },
            Event::Transfer { from, to, amount, new_from_balance, new_to_balance } => {
                Event::Transfer {
                    from: *from,
                    to: *to,
                    amount: *amount,
                    new_from_balance: *new_from_balance,
                    new_to_balance: *new_to_balance,
                }
            },
            Event::Approve { owner, spender, old_allowance, new_allowance } => Event::Approve {
                owner: *owner,
                spender: *spender,
                old_allowance: *old_allowance,
                new_allowance: *new_allowance,
            },
            Event::TransferFrom {
                spender,
                from,
                to,
                amount,
                new_from_balance,
                new_to_balance,
                new_allowance,
            } => Event::TransferFrom {
                spender: *spender,
                from: *from,
                to: *to,
                amount: *amount,
                new_from_balance: *new_from_balance,
                new_to_balance: *new_to_balance,
                new_allowance: *new_allowance,
            },
        }
    }
}

} // verus!
