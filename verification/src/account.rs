//! Who holds, spends and approves.

use vstd::prelude::*;

verus! {

/// The identity of a holder or a spender.
///
/// Nothing is assumed of an identity but that two of them can be compared:
/// equal identifiers are the same account, different ones are different accounts.
#[derive(Copy, Clone, Debug, PartialEq, Eq, Hash, Structural)]
pub struct Account {
    /// The unique identifier of the account.
    pub id: u64,
}

impl Account {
    /// The account with the given identifier.
    pub fn new(id: u64) -> (account: Account)
        ensures
            account == (Account { id }),
    {
        Account { id }
    }
}

/// Evidence that a principal has approved the call that is being made.
///
/// Whoever hosts the ledger establishes the approval, by whatever means it has,
/// and hands the evidence to the operation. An operation that needs the
/// approval of an account asks in its precondition for evidence that covers
/// that account, so that an unapproved call never reaches the ledger.
#[derive(Copy, Clone, Debug, PartialEq, Eq, Structural)]
pub struct Authorization {
    /// The account that approved the call.
    pub principal: Account,
}

impl Authorization {
    /// Evidence that `principal` approved the call.
    pub fn granted_by(principal: Account) -> (auth: Authorization)
        ensures
            auth.covers(principal),
            auth.principal == principal,
    {
        Authorization { principal }
    }

    /// Whether this evidence shows the approval of `account`.
    pub open spec fn covers(self, account: Account) -> bool {
        self.principal == account
    }
}

} // verus!
