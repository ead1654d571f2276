//! The ledger as a mathematical value, and what each operation makes of it.

use vstd::prelude::*;
use crate::account::Account;
use crate::errors::TokenError;
use crate::rules::{
    spec_check_approve, spec_check_initialize, spec_plan_burn, spec_plan_mint,
    spec_plan_transfer, spec_plan_transfer_from, Movement, Spending, SupplyChange,
    MAX_DECIMALS, MAX_NAME_LENGTH, MAX_SYMBOL_LENGTH,
};
use crate::storage::{written, DataKey};
use crate::supply::{amount_at, circulating};

verus! {

/// The length of a text in bytes, as UTF-8.
pub open spec fn text_length(text: Seq<char>) -> int {
    vstd::utf8::encode_utf8(text).len() as int
}

/// Everything a ledger holds.
pub struct LedgerState {
    /// Whether the ledger has been set up.
    pub initialized: bool,
    /// The account that may mint, once the ledger has been set up.
    pub admin: Option<Account>,
    /// The token's name.
    pub name: Seq<char>,
    /// The token's symbol.
    pub symbol: Seq<char>,
    /// The number of decimals.
    pub decimals: u32,
    /// The amount in existence over all accounts.
    pub supply: i128,
    /// The stored balances and allowances, each under its key. An account or a
    /// pair without a record holds 0.
    pub records: Map<DataKey, i128>,
}

impl LedgerState {
    /// The ledger before it has been set up: nothing is stored.
    pub open spec fn fresh() -> LedgerState {
        LedgerState {
            initialized: false,
            admin: None,
            name: Seq::empty(),
            symbol: Seq::empty(),
            decimals: 0,
            supply: 0,
            records: Map::empty(),
        }
    }

    /// What `account` holds.
    pub open spec fn balance_of(self, account: Account) -> i128 {
        amount_at(self.records, DataKey::Balance(account))
    }

    /// What `spender` may still move out of the balance of `owner`.
    pub open spec fn allowance_of(self, owner: Account, spender: Account) -> i128 {
        amount_at(self.records, DataKey::Allowance(owner, spender))
    }

    /// Whether something is stored under `key`: a balance or an allowance that
    /// is not zero, or any of the singleton keys once the ledger is set up.
    pub open spec fn has_record(self, key: DataKey) -> bool {
        if key.spec_is_per_account() {
            self.records.contains_key(key)
        } else {
            self.initialized
        }
    }

    /// What holds of every ledger that the operations can reach.
    ///
    /// The supply is the sum of the stored balances. Only balances and
    /// allowances have records, finitely many, and every stored amount is
    /// positive: a zero has no record. Before the ledger is set up nothing is
    /// stored; once it is, it has an admin and metadata within their bounds.
    pub open spec fn valid(self) -> bool {
        &&& self.records.dom().finite()
        &&& forall|key: DataKey| #[trigger]
            self.records.contains_key(key) ==> key.spec_is_per_account() && self.records[key] > 0
        &&& self.supply == circulating(self.records)
        &&& !self.initialized ==> self == LedgerState::fresh()
        &&& self.initialized ==> {
            &&& self.admin is Some
            &&& self.decimals <= MAX_DECIMALS
            &&& 1 <= text_length(self.name) <= MAX_NAME_LENGTH
            &&& 1 <= text_length(self.symbol) <= MAX_SYMBOL_LENGTH
        }
    }

    /// Whether `initialize` accepts these metadata, and the failure if not.
    pub open spec fn initialize_check(self, name: Seq<char>, symbol: Seq<char>, decimals: u32)
        -> Result<(), TokenError> {
        spec_check_initialize(self.initialized, text_length(name), text_length(symbol), decimals)
    }

    /// The ledger after `initialize`: set up with the admin and the metadata
    /// and a supply of 0 where the call is accepted, unchanged where it is not.
    pub open spec fn after_initialize(
        self,
        admin: Account,
        name: Seq<char>,
        symbol: Seq<char>,
        decimals: u32,
    ) -> LedgerState {
        match self.initialize_check(name, symbol, decimals) {
            Ok(_) => LedgerState {
                initialized: true,
                admin: Some(admin),
                name,
                symbol,
                decimals,
                supply: 0,
                records: self.records,
            },
            Err(_) => self,
        }
    }

    /// What `mint` writes, or the failure it gives.
    pub open spec fn mint_plan(self, to: Account, amount: i128) -> Result<
        SupplyChange,
        TokenError,
    > {
        spec_plan_mint(self.initialized, self.balance_of(to), self.supply, amount)
    }

    /// The ledger after `mint`: the balance of `to` and the supply have grown
    /// by `amount`; unchanged where the mint fails.
    pub open spec fn after_mint(self, to: Account, amount: i128) -> LedgerState {
        match self.mint_plan(to, amount) {
            Ok(plan) => LedgerState {
                supply: plan.new_supply,
                records: written(self.records, DataKey::Balance(to), plan.new_balance),
                ..self
            },
            Err(_) => self,
        }
    }

    /// What `burn` writes, or the failure it gives.
    pub open spec fn burn_plan(self, from: Account, amount: i128) -> Result<
        SupplyChange,
        TokenError,
    > {
        spec_plan_burn(self.initialized, self.balance_of(from), self.supply, amount)
    }

    /// The ledger after `burn`: the balance of `from` and the supply have
    /// shrunk by `amount`; unchanged where the burn fails.
    pub open spec fn after_burn(self, from: Account, amount: i128) -> LedgerState {
        match self.burn_plan(from, amount) {
            Ok(plan) => LedgerState {
                supply: plan.new_supply,
                records: written(self.records, DataKey::Balance(from), plan.new_balance),
                ..self
            },
            Err(_) => self,
        }
    }

    /// What `transfer` writes, or the failure it gives.
    pub open spec fn transfer_plan(self, from: Account, to: Account, amount: i128) -> Result<
        Movement,
        TokenError,
    > {
        spec_plan_transfer(
            self.initialized,
            from == to,
            self.balance_of(from),
            self.balance_of(to),
            amount,
        )
    }

    /// The ledger after `transfer`: `amount` has moved from the balance of
    /// `from` to that of `to`; unchanged where the transfer fails.
    pub open spec fn after_transfer(self, from: Account, to: Account, amount: i128)
        -> LedgerState {
        match self.transfer_plan(from, to, amount) {
            Ok(plan) => LedgerState {
                records: written(
                    written(self.records, DataKey::Balance(from), plan.new_from_balance),
                    DataKey::Balance(to),
                    plan.new_to_balance,
                ),
                ..self
            },
            Err(_) => self,
        }
    }

    /// Whether `approve` accepts the amount, and the failure if not.
    pub open spec fn approve_check(self, amount: i128) -> Result<(), TokenError> {
        spec_check_approve(self.initialized, amount)
    }

    /// The ledger after `approve`: the allowance of `spender` over the balance
    /// of `owner` is `amount`; unchanged where the approval fails.
    pub open spec fn after_approve(self, owner: Account, spender: Account, amount: i128)
        -> LedgerState {
        match self.approve_check(amount) {
            Ok(_) => LedgerState {
                records: written(self.records, DataKey::Allowance(owner, spender), amount),
                ..self
            },
            Err(_) => self,
        }
    }

    /// What `transfer_from` writes, or the failure it gives.
    pub open spec fn transfer_from_plan(
        self,
        spender: Account,
        from: Account,
        to: Account,
        amount: i128,
    ) -> Result<Spending, TokenError> {
        spec_plan_transfer_from(
            self.initialized,
            from == to,
            self.allowance_of(from, spender),
            self.balance_of(from),
            self.balance_of(to),
            amount,
        )
    }

    /// The ledger after `transfer_from`: `amount` has moved from the balance of
    /// `from` to that of `to`, and the allowance of `spender` over the balance
    /// of `from` has shrunk by it; unchanged where the transfer fails.
    pub open spec fn after_transfer_from(
        self,
        spender: Account,
        from: Account,
        to: Account,
        amount: i128,
    ) -> LedgerState {
        match self.transfer_from_plan(spender, from, to, amount) {
            Ok(plan) => LedgerState {
                records: written(
                    written(
                        written(self.records, DataKey::Balance(from), plan.new_from_balance),
                        DataKey::Balance(to),
                        plan.new_to_balance,
                    ),
                    DataKey::Allowance(from, spender),
                    plan.new_allowance,
                ),
                ..self
            },
            Err(_) => self,
        }
    }
}

} // verus!
