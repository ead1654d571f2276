//! The ledger: one token, its balances, allowances and supply, and the
//! operations that change them.

use vstd::prelude::*;
use vstd::string::StringSliceAdditionalSpecFns;
use crate::account::{Account, Authorization};
use crate::errors::TokenError;
use crate::events::Event;
use crate::laws::{
    lemma_amounts_in_range, lemma_approve_keeps_valid, lemma_burn_keeps_valid,
    lemma_fresh_is_valid, lemma_initialize_keeps_valid, lemma_mint_keeps_valid,
    lemma_transfer_from_keeps_valid, lemma_transfer_keeps_valid, transfers_never_overflow,
};
use crate::rules::{
    check_approve, check_initialize, plan_burn, plan_mint, plan_transfer, plan_transfer_from,
    stored_amount,
};
use crate::state::LedgerState;
use crate::storage::{DataKey, RecordStore, TokenMetadata};
use crate::supply::circulating;

verus! {

/// The operations of a token ledger, each with what it promises.
///
/// A ledger holds a [`LedgerState`], its view. Every operation that changes the
/// ledger says which state it leaves and which event it reports, or which
/// failure; the reads say which part of the state they return.
pub trait TokenTrait: View<V = LedgerState> + Sized {
    /// Whether the ledger is in order. The operations ask for this and keep
    /// it; a ledger that is in order holds a valid state.
    spec fn wf(&self) -> bool;

    /// A ledger that is in order holds a valid state.
    proof fn lemma_wf_is_valid(&self)
        requires
            self.wf(),
        ensures
            self@.valid(),
    ;

    /// Sets the ledger up, once: records the admin and the metadata, and
    /// starts the supply at 0.
    ///
    /// Fails with `AlreadyInitialized` on a ledger that is set up, with
    /// `InvalidDecimals` for more than 18 decimals, and with `InvalidMetadata`
    /// unless the name has 1 to 100 bytes and the symbol 1 to 32, in this
    /// order. A call that fails changes nothing. Anyone may make the call: the
    /// first one wins.
    fn initialize(&mut self, admin: Account, name: String, symbol: String, decimals: u32) -> (r:
        Result<Event, TokenError>)
        requires
            old(self).wf(),
        ensures
            final(self).wf(),
            final(self)@ == old(self)@.after_initialize(admin, name@, symbol@, decimals),
            r == (match old(self)@.initialize_check(name@, symbol@, decimals) {
                Ok(_) => Ok::<Event, TokenError>(
                    Event::Init { admin, metadata: TokenMetadata { name, symbol, decimals } },
                ),
                Err(e) => Err::<Event, TokenError>(e),
            }),
    ;

    /// Brings `amount` new units into existence, on the balance of `to`.
    ///
    /// Only the admin may mint: on a ledger that is set up the call needs the
    /// admin's approval. Fails with `NotInitialized` before the ledger is set
    /// up, with `InvalidAmount` unless the amount is positive, and with
    /// `OverflowError` where the balance or the supply would leave the range of
    /// the integer type. A call that fails changes nothing.
    fn mint(&mut self, auth: &Authorization, to: Account, amount: i128) -> (r: Result<
        Event,
        TokenError,
    >)
        requires
            old(self).wf(),
            old(self)@.initialized ==> old(self)@.admin == Some(auth.principal),
        ensures
            final(self).wf(),
            final(self)@ == old(self)@.after_mint(to, amount),
            r == (match old(self)@.mint_plan(to, amount) {
                Ok(plan) => Ok::<Event, TokenError>(
                    Event::Mint {
                        to,
                        amount,
                        new_balance: plan.new_balance,
                        new_supply: plan.new_supply,
                    },
                ),
                Err(e) => Err::<Event, TokenError>(e),
            }),
    ;

    /// Destroys `amount` units of the balance of `from`.
    ///
    /// On a ledger that is set up the call needs the approval of `from`. Fails
    /// with `NotInitialized` before the ledger is set up, with `InvalidAmount`
    /// unless the amount is positive, and with `InsufficientBalance` where the
    /// account holds less. A call that fails changes nothing.
    fn burn(&mut self, auth: &Authorization, from: Account, amount: i128) -> (r: Result<
        Event,
        TokenError,
    >)
        requires
            old(self).wf(),
            old(self)@.initialized ==> auth.covers(from),
        ensures
            final(self).wf(),
            final(self)@ == old(self)@.after_burn(from, amount),
            r == (match old(self)@.burn_plan(from, amount) {
                Ok(plan) => Ok::<Event, TokenError>(
                    Event::Burn {
                        from,
                        amount,
                        new_balance: plan.new_balance,
                        new_supply: plan.new_supply,
                    },
                ),
                Err(e) => Err::<Event, TokenError>(e),
            }),
            r != Err::<Event, TokenError>(TokenError::OverflowError),
    ;

    /// What `account` holds: the stored amount, or 0 without a record.
    fn balance(&self, account: Account) -> (amount: i128)
        requires
            self.wf(),
        ensures
            amount == self@.balance_of(account),
            amount >= 0,
    ;

    /// Moves `amount` units from the balance of `from` to that of `to`.
    ///
    /// On a ledger that is set up the call needs the approval of `from`. Fails
    /// with `NotInitialized` before the ledger is set up, with `InvalidAmount`
    /// unless the amount is positive, with `InvalidRecipient` where sender and
    /// recipient are the same account, and with `InsufficientBalance` where
    /// the sender holds less, in this order. The recipient's balance cannot
    /// leave the range of the integer type, since it stays within the supply.
    /// A call that fails changes nothing.
    fn transfer(&mut self, auth: &Authorization, from: Account, to: Account, amount: i128) -> (r:
        Result<Event, TokenError>)
        requires
            old(self).wf(),
            old(self)@.initialized ==> auth.covers(from),
        ensures
            final(self).wf(),
            final(self)@ == old(self)@.after_transfer(from, to, amount),
            r == (match old(self)@.transfer_plan(from, to, amount) {
                Ok(plan) => Ok::<Event, TokenError>(
                    Event::Transfer {
                        from,
                        to,
                        amount,
                        new_from_balance: plan.new_from_balance,
                        new_to_balance: plan.new_to_balance,
                    },
                ),
                Err(e) => Err::<Event, TokenError>(e),
            }),
            r != Err::<Event, TokenError>(TokenError::OverflowError),
    ;

    /// Lets `spender` move up to `amount` units out of the balance of `owner`,
    /// in place of whatever the allowance was. An amount of 0 revokes the
    /// allowance and leaves no record of it.
    ///
    /// On a ledger that is set up the call needs the approval of `owner`.
    /// Fails with `NotInitialized` before the ledger is set up and with
    /// `InvalidAmount` for a negative amount. A call that fails changes
    /// nothing.
    fn approve(&mut self, auth: &Authorization, owner: Account, spender: Account, amount: i128)
        -> (r: Result<Event, TokenError>)
        requires
            old(self).wf(),
            old(self)@.initialized ==> auth.covers(owner),
        ensures
            final(self).wf(),
            final(self)@ == old(self)@.after_approve(owner, spender, amount),
            r == (match old(self)@.approve_check(amount) {
                Ok(_) => Ok::<Event, TokenError>(
                    Event::Approve {
                        owner,
                        spender,
                        old_allowance: old(self)@.allowance_of(owner, spender),
                        new_allowance: amount,
                    },
                ),
                Err(e) => Err::<Event, TokenError>(e),
            }),
    ;

    /// What `spender` may still move out of the balance of `owner`: the stored
    /// amount, or 0 without a record.
    fn allowance(&self, owner: Account, spender: Account) -> (amount: i128)
        requires
            self.wf(),
        ensures
            amount == self@.allowance_of(owner, spender),
            amount >= 0,
    ;

    /// Moves `amount` units from the balance of `from` to that of `to`, on the
    /// allowance that `from` gave to `spender`, which shrinks by the amount.
    ///
    /// On a ledger that is set up the call needs the approval of `spender`.
    /// Fails with `NotInitialized` before the ledger is set up, with
    /// `InvalidAmount` unless the amount is positive, with `InvalidRecipient`
    /// where `from` and `to` are the same account, with
    /// `InsufficientAllowance` where the allowance is less than the amount, and
    /// with `InsufficientBalance` where `from` holds less, in this order. A
    /// call that fails changes nothing.
    fn transfer_from(
        &mut self,
        auth: &Authorization,
        spender: Account,
        from: Account,
        to: Account,
        amount: i128,
    ) -> (r: Result<Event, TokenError>)
        requires
            old(self).wf(),
            old(self)@.initialized ==> auth.covers(spender),
        ensures
            final(self).wf(),
            final(self)@ == old(self)@.after_transfer_from(spender, from, to, amount),
            r == (match old(self)@.transfer_from_plan(spender, from, to, amount) {
                Ok(plan) => Ok::<Event, TokenError>(
                    Event::TransferFrom {
                        spender,
                        from,
                        to,
                        amount,
                        new_from_balance: plan.new_from_balance,
                        new_to_balance: plan.new_to_balance,
                        new_allowance: plan.new_allowance,
                    },
                ),
                Err(e) => Err::<Event, TokenError>(e),
            }),
            r != Err::<Event, TokenError>(TokenError::OverflowError),
    ;

    /// The token's name; the empty text before the ledger is set up.
    fn name(&self) -> (name: String)
        ensures
            name@ == (if self@.initialized {
                self@.name
            } else {
                Seq::<char>::empty()
            }),
    ;

    /// The token's symbol; the empty text before the ledger is set up.
    fn symbol(&self) -> (symbol: String)
        ensures
            symbol@ == (if self@.initialized {
                self@.symbol
            } else {
                Seq::<char>::empty()
            }),
    ;

    /// The number of decimals; 0 before the ledger is set up.
    fn decimals(&self) -> (decimals: u32)
        ensures
            decimals == (if self@.initialized {
                self@.decimals
            } else {
                0
            }),
            self.wf() ==> decimals <= 18,
    ;

    /// The amount in existence over all accounts, which is the sum of the
    /// balances that have a record; 0 before the ledger is set up.
    fn total_supply(&self) -> (supply: i128)
        requires
            self.wf(),
        ensures
            supply == self@.supply,
            supply == circulating(self@.records),
            supply >= 0,
            !self@.initialized ==> supply == 0,
    ;

    /// The account that may mint, or `NotInitialized` before the ledger is set
    /// up.
    fn admin(&self) -> (r: Result<Account, TokenError>)
        requires
            self.wf(),
        ensures
            r == (match self@.admin {
                Some(admin) => Ok::<Account, TokenError>(admin),
                None => Err::<Account, TokenError>(TokenError::NotInitialized),
            }),
            r is Ok <==> self@.initialized,
    ;
}

/// A token ledger that holds its state itself.
///
/// One value is one token: several ledgers can live side by side. What a
/// ledger holds is its view, a [`LedgerState`]; each operation says which
/// state it leaves in terms of the state it found.
pub struct TokenBDB {
    initialized: bool,
    admin: Option<Account>,
    metadata: TokenMetadata,
    supply: i128,
    records: RecordStore,
}

impl View for TokenBDB {
    type V = LedgerState;

    closed spec fn view(&self) -> LedgerState {
        LedgerState {
            initialized: self.initialized,
            admin: self.admin,
            name: self.metadata.name@,
            symbol: self.metadata.symbol@,
            decimals: self.metadata.decimals,
            supply: self.supply,
            records: self.records@,
        }
    }
}

impl TokenBDB {
    /// A ledger that has not been set up yet.
    pub fn new() -> (ledger: TokenBDB)
        ensures
            ledger.wf(),
            ledger@ == LedgerState::fresh(),
    {
        let ledger = TokenBDB {
            initialized: false,
            admin: None,
            metadata: TokenMetadata { name: String::new(), symbol: String::new(), decimals: 0 },
            supply: 0,
            records: RecordStore::new(),
        };
        proof {
            lemma_fresh_is_valid();
        }
        ledger
    }

    /// Whether the ledger has been set up.
    pub fn is_initialized(&self) -> (r: bool)
        ensures
            r == self@.initialized,
    {
        self.initialized
    }

    /// Whether something is stored under `key`: a balance or an allowance that
    /// is not zero, or any of the singleton keys once the ledger is set up.
    pub fn has_record(&self, key: DataKey) -> (r: bool)
        requires
            self.wf(),
        ensures
            r == self@.has_record(key),
    {
        if key.is_per_account() {
            self.records.has(key)
        } else {
            self.initialized
        }
    }
}

/// The operations of [`TokenTrait`] on a ledger held in memory. Each body is
/// proved against what the trait promises of it.
impl TokenTrait for TokenBDB {
    closed spec fn wf(&self) -> bool {
        &&& self.records.wf()
        &&& self@.valid()
    }

    proof fn lemma_wf_is_valid(&self) {
    }

    fn initialize(&mut self, admin: Account, name: String, symbol: String, decimals: u32) -> (r:
        Result<Event, TokenError>)
    {
        let name_length = name.as_str().as_bytes().len();
        let symbol_length = symbol.as_str().as_bytes().len();
        match check_initialize(self.initialized, name_length, symbol_length, decimals) {
            Err(e) => Err(e),
            Ok(_) => {
                let metadata = TokenMetadata { name, symbol, decimals };
                self.admin = Some(admin);
                self.metadata = metadata.clone();
                self.supply = 0;
                self.initialized = true;
                proof {
                    lemma_initialize_keeps_valid(old(self)@, admin, name@, symbol@, decimals);
                }
                Ok(Event::Init { admin, metadata })
            },
        }
    }

    fn mint(&mut self, auth: &Authorization, to: Account, amount: i128) -> (r: Result<
        Event,
        TokenError,
    >)
    {
        let balance = self.balance(to);
        match plan_mint(self.initialized, balance, self.supply, amount) {
            Err(e) => Err(e),
            Ok(plan) => {
                self.records.write(DataKey::Balance(to), plan.new_balance);
                self.supply = plan.new_supply;
                proof {
                    lemma_mint_keeps_valid(old(self)@, to, amount);
                }
                Ok(
                    Event::Mint {
                        to,
                        amount,
                        new_balance: plan.new_balance,
                        new_supply: plan.new_supply,
                    },
                )
            },
        }
    }

    fn burn(&mut self, auth: &Authorization, from: Account, amount: i128) -> (r: Result<
        Event,
        TokenError,
    >)
    {
        let balance = self.balance(from);
        proof {
            lemma_amounts_in_range(self@, DataKey::Balance(from));
        }
        match plan_burn(self.initialized, balance, self.supply, amount) {
            Err(e) => Err(e),
            Ok(plan) => {
                self.records.write(DataKey::Balance(from), plan.new_balance);
                self.supply = plan.new_supply;
                proof {
                    lemma_burn_keeps_valid(old(self)@, from, amount);
                }
                Ok(
                    Event::Burn {
                        from,
                        amount,
                        new_balance: plan.new_balance,
                        new_supply: plan.new_supply,
                    },
                )
            },
        }
    }

    fn balance(&self, account: Account) -> (amount: i128)
    {
        proof {
            lemma_amounts_in_range(self@, DataKey::Balance(account));
        }
        stored_amount(self.records.get(DataKey::Balance(account)))
    }

    fn transfer(&mut self, auth: &Authorization, from: Account, to: Account, amount: i128) -> (r:
        Result<Event, TokenError>)
    {
        let from_balance = self.balance(from);
        let to_balance = self.balance(to);
        proof {
            transfers_never_overflow(self@, from, from, to, amount);
        }
        match plan_transfer(self.initialized, from == to, from_balance, to_balance, amount) {
            Err(e) => Err(e),
            Ok(plan) => {
                self.records.write(DataKey::Balance(from), plan.new_from_balance);
                self.records.write(DataKey::Balance(to), plan.new_to_balance);
                proof {
                    lemma_transfer_keeps_valid(old(self)@, from, to, amount);
                }
                Ok(
                    Event::Transfer {
                        from,
                        to,
                        amount,
                        new_from_balance: plan.new_from_balance,
                        new_to_balance: plan.new_to_balance,
                    },
                )
            },
        }
    }

    fn approve(&mut self, auth: &Authorization, owner: Account, spender: Account, amount: i128)
        -> (r: Result<Event, TokenError>)
    {
        match check_approve(self.initialized, amount) {
            Err(e) => Err(e),
            Ok(_) => {
                let old_allowance = self.allowance(owner, spender);
                self.records.write(DataKey::Allowance(owner, spender), amount);
                proof {
                    lemma_approve_keeps_valid(old(self)@, owner, spender, amount);
                }
                Ok(Event::Approve { owner, spender, old_allowance, new_allowance: amount })
            },
        }
    }

    fn allowance(&self, owner: Account, spender: Account) -> (amount: i128)
    {
        proof {
            lemma_amounts_in_range(self@, DataKey::Allowance(owner, spender));
        }
        stored_amount(self.records.get(DataKey::Allowance(owner, spender)))
    }

    fn transfer_from(
        &mut self,
        auth: &Authorization,
        spender: Account,
        from: Account,
        to: Account,
        amount: i128,
    ) -> (r: Result<Event, TokenError>)
    {
        let allowed = self.allowance(from, spender);
        let from_balance = self.balance(from);
        let to_balance = self.balance(to);
        proof {
            transfers_never_overflow(self@, spender, from, to, amount);
        }
        match plan_transfer_from(
            self.initialized,
            from == to,
            allowed,
            from_balance,
            to_balance,
            amount,
        ) {
            Err(e) => Err(e),
            Ok(plan) => {
                self.records.write(DataKey::Balance(from), plan.new_from_balance);
                self.records.write(DataKey::Balance(to), plan.new_to_balance);
                self.records.write(DataKey::Allowance(from, spender), plan.new_allowance);
                proof {
                    lemma_transfer_from_keeps_valid(old(self)@, spender, from, to, amount);
                }
                Ok(
                    Event::TransferFrom {
                        spender,
                        from,
                        to,
                        amount,
                        new_from_balance: plan.new_from_balance,
                        new_to_balance: plan.new_to_balance,
                        new_allowance: plan.new_allowance,
                    },
                )
            },
        }
    }

    fn name(&self) -> (name: String)
    {
        if !self.initialized {
            return String::new();
        }
        self.metadata.name.clone()
    }

    fn symbol(&self) -> (symbol: String)
    {
        if !self.initialized {
            return String::new();
        }
        self.metadata.symbol.clone()
    }

    fn decimals(&self) -> (decimals: u32)
    {
        if !self.initialized {
            return 0;
        }
        self.metadata.decimals
    }

    fn total_supply(&self) -> (supply: i128)
    {
        proof {
            lemma_amounts_in_range(self@, DataKey::TotalSupply);
        }
        self.supply
    }

    fn admin(&self) -> (r: Result<Account, TokenError>)
    {
        match self.admin {
            Some(admin) => Ok(admin),
            None => Err(TokenError::NotInitialized),
        }
    }
}

} // verus!
