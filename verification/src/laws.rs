//! What holds of the ledger whatever is asked of it.

use vstd::prelude::*;
use crate::account::Account;
use crate::errors::TokenError;
use crate::rules::{Movement, Spending, SupplyChange};
use crate::state::LedgerState;
use crate::storage::{written, DataKey};
use crate::supply::{
    amount_at, circulating, counted, lemma_balance_within_circulating, lemma_circulating_insert,
    lemma_circulating_remove, lemma_total_nonnegative, lemma_total_split,
};

verus! {

/// One call of an operation that changes the ledger, with its arguments.
pub enum Call {
    /// A call of `initialize`.
    Initialize { admin: Account, name: Seq<char>, symbol: Seq<char>, decimals: u32 },
    /// A call of `mint`.
    Mint { to: Account, amount: i128 },
    /// A call of `burn`.
    Burn { from: Account, amount: i128 },
    /// A call of `transfer`.
    Transfer { from: Account, to: Account, amount: i128 },
    /// A call of `approve`.
    Approve { owner: Account, spender: Account, amount: i128 },
    /// A call of `transfer_from`.
    TransferFrom { spender: Account, from: Account, to: Account, amount: i128 },
}

/// The ledger after one call, whether the call succeeds or fails.
pub open spec fn after_call(state: LedgerState, call: Call) -> LedgerState {
    match call {
        Call::Initialize { admin, name, symbol, decimals } => state.after_initialize(
            admin,
            name,
            symbol,
            decimals,
        ),
        Call::Mint { to, amount } => state.after_mint(to, amount),
        Call::Burn { from, amount } => state.after_burn(from, amount),
        Call::Transfer { from, to, amount } => state.after_transfer(from, to, amount),
        Call::Approve { owner, spender, amount } => state.after_approve(owner, spender, amount),
        Call::TransferFrom { spender, from, to, amount } => state.after_transfer_from(
            spender,
            from,
            to,
            amount,
        ),
    }
}

/// The ledger that a sequence of calls, made in order on a fresh ledger, leaves.
pub open spec fn reached(calls: Seq<Call>) -> LedgerState
    decreases calls.len(),
{
    if calls.len() == 0 {
        LedgerState::fresh()
    } else {
        after_call(reached(calls.drop_last()), calls.last())
    }
}

/// Writing an amount that is not negative under a balance or an allowance
/// keeps the records in order, changes the sum of the balances by the
/// difference that it makes to the one balance, and leaves every other record
/// as it was.
pub proof fn lemma_written(records: Map<DataKey, i128>, key: DataKey, amount: i128)
    requires
        records.dom().finite(),
        forall|k: DataKey| #[trigger]
            records.contains_key(k) ==> k.spec_is_per_account() && records[k] > 0,
        key.spec_is_per_account(),
        amount >= 0,
    ensures
        written(records, key, amount).dom().finite(),
        forall|k: DataKey| #[trigger]
            written(records, key, amount).contains_key(k) ==> k.spec_is_per_account()
                && written(records, key, amount)[k] > 0,
        circulating(written(records, key, amount)) == circulating(records) - counted(
            key,
            amount_at(records, key),
        ) + counted(key, amount),
        amount_at(written(records, key, amount), key) == amount,
        forall|k: DataKey|
            k != key ==> #[trigger] amount_at(written(records, key, amount), k) == amount_at(
                records,
                k,
            ),
{
    if amount == 0 {
        lemma_circulating_remove(records, key);
    } else {
        lemma_circulating_insert(records, key, amount);
    }
}

/// A fresh ledger is valid.
pub proof fn lemma_fresh_is_valid()
    ensures
        LedgerState::fresh().valid(),
{
    assert(LedgerState::fresh().records.dom() =~= Set::<DataKey>::empty());
}

/// In a valid ledger no balance and no allowance is negative, and no balance
/// exceeds the supply.
pub proof fn lemma_amounts_in_range(state: LedgerState, key: DataKey)
    requires
        state.valid(),
    ensures
        0 <= amount_at(state.records, key),
        0 <= counted(key, amount_at(state.records, key)) <= state.supply,
{
    lemma_balance_within_circulating(state.records, key);
}

/// In a valid ledger two different accounts together hold no more than the
/// supply.
pub proof fn lemma_two_balances_in_range(state: LedgerState, first: Account, second: Account)
    requires
        state.valid(),
        first != second,
    ensures
        state.balance_of(first) + state.balance_of(second) <= state.supply,
{
    let first_key = DataKey::Balance(first);
    let second_key = DataKey::Balance(second);
    if state.records.contains_key(first_key) {
        let rest = state.records.dom().remove(first_key);
        lemma_total_split(state.records.dom(), state.records, first_key);
        if state.records.contains_key(second_key) {
            lemma_total_split(rest, state.records, second_key);
            lemma_total_nonnegative(rest.remove(second_key), state.records);
        } else {
            lemma_total_nonnegative(rest, state.records);
        }
    } else {
        lemma_amounts_in_range(state, second_key);
    }
}

/// `initialize` keeps a valid ledger valid.
pub proof fn lemma_initialize_keeps_valid(
    state: LedgerState,
    admin: Account,
    name: Seq<char>,
    symbol: Seq<char>,
    decimals: u32,
)
    requires
        state.valid(),
    ensures
        state.after_initialize(admin, name, symbol, decimals).valid(),
{
}

/// `mint` keeps a valid ledger valid.
pub proof fn lemma_mint_keeps_valid(state: LedgerState, to: Account, amount: i128)
    requires
        state.valid(),
    ensures
        state.after_mint(to, amount).valid(),
{
    if state.mint_plan(to, amount) is Ok {
        let key = DataKey::Balance(to);
        lemma_amounts_in_range(state, key);
        lemma_written(state.records, key, state.mint_plan(to, amount).unwrap().new_balance);
    }
}

/// `burn` keeps a valid ledger valid.
pub proof fn lemma_burn_keeps_valid(state: LedgerState, from: Account, amount: i128)
    requires
        state.valid(),
    ensures
        state.after_burn(from, amount).valid(),
{
    if state.burn_plan(from, amount) is Ok {
        let key = DataKey::Balance(from);
        lemma_amounts_in_range(state, key);
        lemma_written(state.records, key, state.burn_plan(from, amount).unwrap().new_balance);
    }
}

/// `transfer` keeps a valid ledger valid.
pub proof fn lemma_transfer_keeps_valid(
    state: LedgerState,
    from: Account,
    to: Account,
    amount: i128,
)
    requires
        state.valid(),
    ensures
        state.after_transfer(from, to, amount).valid(),
{
    if state.transfer_plan(from, to, amount) is Ok {
        let plan = state.transfer_plan(from, to, amount).unwrap();
        let from_key = DataKey::Balance(from);
        let to_key = DataKey::Balance(to);
        lemma_amounts_in_range(state, from_key);
        lemma_amounts_in_range(state, to_key);
        lemma_written(state.records, from_key, plan.new_from_balance);
        let between = written(state.records, from_key, plan.new_from_balance);
        assert(amount_at(between, to_key) == amount_at(state.records, to_key));
        lemma_written(between, to_key, plan.new_to_balance);
    }
}

/// `approve` keeps a valid ledger valid.
pub proof fn lemma_approve_keeps_valid(
    state: LedgerState,
    owner: Account,
    spender: Account,
    amount: i128,
)
    requires
        state.valid(),
    ensures
        state.after_approve(owner, spender, amount).valid(),
{
    if state.approve_check(amount) is Ok {
        lemma_written(state.records, DataKey::Allowance(owner, spender), amount);
    }
}

/// `transfer_from` keeps a valid ledger valid.
pub proof fn lemma_transfer_from_keeps_valid(
    state: LedgerState,
    spender: Account,
    from: Account,
    to: Account,
    amount: i128,
)
    requires
        state.valid(),
    ensures
        state.after_transfer_from(spender, from, to, amount).valid(),
{
    if state.transfer_from_plan(spender, from, to, amount) is Ok {
        let plan = state.transfer_from_plan(spender, from, to, amount).unwrap();
        let from_key = DataKey::Balance(from);
        let to_key = DataKey::Balance(to);
        let allowance_key = DataKey::Allowance(from, spender);
        lemma_amounts_in_range(state, from_key);
        lemma_amounts_in_range(state, to_key);
        lemma_amounts_in_range(state, allowance_key);
        lemma_written(state.records, from_key, plan.new_from_balance);
        let first = written(state.records, from_key, plan.new_from_balance);
        assert(amount_at(first, to_key) == amount_at(state.records, to_key));
        lemma_written(first, to_key, plan.new_to_balance);
        let second = written(first, to_key, plan.new_to_balance);
        lemma_written(second, allowance_key, plan.new_allowance);
    }
}

/// Every call, whether it succeeds or fails, keeps a valid ledger valid.
pub proof fn lemma_call_keeps_valid(state: LedgerState, call: Call)
    requires
        state.valid(),
    ensures
        after_call(state, call).valid(),
{
    match call {
        Call::Initialize { admin, name, symbol, decimals } => {
            lemma_initialize_keeps_valid(state, admin, name, symbol, decimals);
        },
        Call::Mint { to, amount } => {
            lemma_mint_keeps_valid(state, to, amount);
        },
        Call::Burn { from, amount } => {
            lemma_burn_keeps_valid(state, from, amount);
        },
        Call::Transfer { from, to, amount } => {
            lemma_transfer_keeps_valid(state, from, to, amount);
        },
        Call::Approve { owner, spender, amount } => {
            lemma_approve_keeps_valid(state, owner, spender, amount);
        },
        Call::TransferFrom { spender, from, to, amount } => {
            lemma_transfer_from_keeps_valid(state, spender, from, to, amount);
        },
    }
}

/// Whatever calls are made on a fresh ledger, in whatever order and with
/// whatever arguments, the ledger they leave is valid.
pub proof fn lemma_reached_is_valid(calls: Seq<Call>)
    ensures
        reached(calls).valid(),
    decreases calls.len(),
{
    if calls.len() == 0 {
        lemma_fresh_is_valid();
    } else {
        lemma_reached_is_valid(calls.drop_last());
        lemma_call_keeps_valid(reached(calls.drop_last()), calls.last());
    }
}

/// In every state that calls on a fresh ledger can reach, the supply is the
/// sum of the balances of all the accounts that have a stored record.
pub proof fn supply_is_sum_of_balances(calls: Seq<Call>)
    ensures
        reached(calls).supply == circulating(reached(calls).records),
{
    lemma_reached_is_valid(calls);
}

/// In every state that calls on a fresh ledger can reach, no balance, no
/// allowance and no supply is negative.
pub proof fn amounts_are_never_negative(calls: Seq<Call>, account: Account, spender: Account)
    ensures
        reached(calls).balance_of(account) >= 0,
        reached(calls).allowance_of(account, spender) >= 0,
        reached(calls).supply >= 0,
{
    lemma_reached_is_valid(calls);
    let state = reached(calls);
    lemma_amounts_in_range(state, DataKey::Balance(account));
    lemma_amounts_in_range(state, DataKey::Allowance(account, spender));
}

/// Revoking an allowance twice in a row leaves the ledger as revoking it once
/// does: on a ledger that is set up the allowance is 0 and has no record.
pub proof fn revoking_twice_is_revoking_once(state: LedgerState, owner: Account, spender: Account)
    ensures
        state.after_approve(owner, spender, 0).after_approve(owner, spender, 0)
            == state.after_approve(owner, spender, 0),
        state.initialized ==> state.after_approve(owner, spender, 0).allowance_of(owner, spender)
            == 0,
        state.initialized ==> !state.after_approve(owner, spender, 0).has_record(
            DataKey::Allowance(owner, spender),
        ),
{
    let key = DataKey::Allowance(owner, spender);
    let once = state.after_approve(owner, spender, 0);
    let twice = once.after_approve(owner, spender, 0);
    assert(twice.records =~= once.records);
}

/// Minting an amount to an account and then burning the same amount from it
/// gives back the ledger as it was, the account's balance and the supply with
/// it.
///
/// This holds wherever the mint succeeds, and wherever it fails and the burn
/// fails too. It leaves out the one case in which the mint fails and the burn
/// does not: an amount that the balance covers but that no longer fits into the
/// balance or the supply.
pub proof fn mint_then_burn_restores(state: LedgerState, to: Account, amount: i128)
    requires
        state.valid(),
        !(state.mint_plan(to, amount) == Err::<SupplyChange, TokenError>(
            TokenError::OverflowError,
        ) && state.balance_of(to) >= amount),
    ensures
        state.after_mint(to, amount).after_burn(to, amount) == state,
        state.after_mint(to, amount).after_burn(to, amount).balance_of(to) == state.balance_of(
            to,
        ),
        state.after_mint(to, amount).after_burn(to, amount).supply == state.supply,
{
    let key = DataKey::Balance(to);
    let minted = state.after_mint(to, amount);
    let burned = minted.after_burn(to, amount);
    lemma_amounts_in_range(state, key);
    if state.mint_plan(to, amount) is Ok {
        assert(minted.balance_of(to) == state.balance_of(to) + amount);
        assert(burned.records =~= state.records);
    }
}

/// A transfer that succeeds takes the amount out of the sender's balance, adds
/// it to the recipient's, and changes neither the supply, nor the balance of
/// any other account, nor any allowance. A transfer that fails changes nothing.
pub proof fn transfer_conserves(
    state: LedgerState,
    from: Account,
    to: Account,
    amount: i128,
    other: Account,
    spender: Account,
)
    requires
        state.valid(),
    ensures
        state.transfer_plan(from, to, amount) is Ok ==> {
            let after = state.after_transfer(from, to, amount);
            &&& after.balance_of(from) == state.balance_of(from) - amount
            &&& after.balance_of(to) == state.balance_of(to) + amount
            &&& after.supply == state.supply
            &&& circulating(after.records) == circulating(state.records)
            &&& other != from && other != to ==> after.balance_of(other) == state.balance_of(
                other,
            )
            &&& after.allowance_of(other, spender) == state.allowance_of(other, spender)
        },
        state.transfer_plan(from, to, amount) is Err ==> state.after_transfer(from, to, amount)
            == state,
{
    if state.transfer_plan(from, to, amount) is Ok {
        lemma_transfer_keeps_valid(state, from, to, amount);
        let plan = state.transfer_plan(from, to, amount).unwrap();
        let from_key = DataKey::Balance(from);
        let to_key = DataKey::Balance(to);
        lemma_amounts_in_range(state, from_key);
        lemma_amounts_in_range(state, to_key);
        lemma_written(state.records, from_key, plan.new_from_balance);
        let between = written(state.records, from_key, plan.new_from_balance);
        lemma_written(between, to_key, plan.new_to_balance);
        let after = state.after_transfer(from, to, amount);
        assert(amount_at(after.records, from_key) == amount_at(between, from_key));
        assert(amount_at(after.records, DataKey::Balance(other)) == amount_at(
            between,
            DataKey::Balance(other),
        ) || other == to);
        assert(amount_at(after.records, DataKey::Allowance(other, spender)) == amount_at(
            between,
            DataKey::Allowance(other, spender),
        ));
    }
}

/// Moving units between accounts never runs into the limit of the integer
/// type: what the recipient holds after the transfer is part of the supply,
/// which is within the limit.
pub proof fn transfers_never_overflow(
    state: LedgerState,
    spender: Account,
    from: Account,
    to: Account,
    amount: i128,
)
    requires
        state.valid(),
    ensures
        state.transfer_plan(from, to, amount) != Err::<Movement, TokenError>(
            TokenError::OverflowError,
        ),
        state.transfer_from_plan(spender, from, to, amount) != Err::<Spending, TokenError>(
            TokenError::OverflowError,
        ),
{
    if from != to {
        lemma_two_balances_in_range(state, from, to);
    }
}

} // verus!
