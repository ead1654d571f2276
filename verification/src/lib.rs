//! Bookkeeping core of a fungible-token ledger.
//!
//! A ledger holds one token: what each account holds, what each spender may
//! move out of an owner's balance, the amount in existence, the account that
//! may mint, and the token's name, symbol and decimals.
//!
//! - [`errors`]: the failures an operation can report.
//! - [`account`]: identities, and the evidence that one of them approved a call.
//! - [`storage`]: the keys of the store and the table that holds the records.
//! - [`rules`]: what each operation decides, as functions of the values it reads.
//! - [`events`]: what an operation reports once it has changed the ledger.
//! - [`state`]: the ledger as a mathematical value, and what each operation
//!   makes of it.
//! - [`supply`]: the sum of the stored balances.
//! - [`laws`]: what holds of every ledger that the operations can reach.
//! - [`ledger`]: the operations and the ledger that carries them out.

pub mod account;
pub mod errors;
pub mod events;
pub mod laws;
pub mod ledger;
pub mod rules;
pub mod state;
pub mod storage;
pub mod supply;
