//! The key space of the ledger's store, and the in-memory table that holds
//! the per-account records.

use vstd::prelude::*;
use crate::account::Account;
use crate::rules::{record_write, spec_record_write, RecordWrite};

verus! {

/// A stored record is kept alive when it is touched with fewer than this many
/// units left of its retention window. A store without expiry has no use for
/// it; one that lets records expire is asked to extend on every write.
pub const RETENTION_THRESHOLD: u32 = 100_000;

/// The retention window that a touched record is extended to.
pub const RETENTION_WINDOW: u32 = 200_000;

/// A key of the ledger's store, one variant per shape of key.
///
/// The store has two tiers. The singleton keys name the small fixed set of
/// values that exist once per ledger; `Balance` and `Allowance` name the
/// unbounded set of records kept per account and per pair of accounts.
#[derive(Copy, Clone, Debug, PartialEq, Eq, Structural)]
pub enum DataKey {
    /// What an account holds.
    Balance(Account),
    /// What the second account may still move out of the first one's balance.
    Allowance(Account, Account),
    /// The amount in existence over all accounts.
    TotalSupply,
    /// The account that may mint.
    Admin,
    /// The token's name.
    TokenName,
    /// The token's symbol.
    TokenSymbol,
    /// The number of decimals.
    Decimals,
    /// The mark that the ledger has been set up.
    Initialized,
}

impl DataKey {
    /// Whether the key names a record of the per-account tier.
    pub open spec fn spec_is_per_account(self) -> bool {
        self is Balance || self is Allowance
    }

    /// Whether the key names a record of the per-account tier, as opposed to
    /// one of the singleton keys.
    pub fn is_per_account(&self) -> (r: bool)
        ensures
            r == self.spec_is_per_account(),
    {
        match self {
            DataKey::Balance(_) => true,
            DataKey::Allowance(_, _) => true,
            _ => false,
        }
    }
}

/// The name, the symbol and the number of decimals of a token.
#[derive(Debug, PartialEq, Eq)]
pub struct TokenMetadata {
    /// The token's full name.
    pub name: String,
    /// The token's short symbol.
    pub symbol: String,
    /// How many decimal places an amount is shown with.
    pub decimals: u32,
}

impl Clone for TokenMetadata {
    fn clone(&self) -> (copy: TokenMetadata)
        ensures
            copy == *self,
    {
        TokenMetadata {
            name: self.name.clone(),
            symbol: self.symbol.clone(),
            decimals: self.decimals,
        }
    }
}

/// The records after `amount` has been written under `key`: a zero deletes the
/// record, any other amount takes the place of what was stored.
pub open spec fn written(records: Map<DataKey, i128>, key: DataKey, amount: i128) -> Map<
    DataKey,
    i128,
> {
    match spec_record_write(amount) {
        RecordWrite::Remove => records.remove(key),
        RecordWrite::Store(stored) => records.insert(key, stored),
    }
}

/// One stored record: an amount under a key.
#[derive(Copy, Clone, Debug, PartialEq, Eq, Structural)]
struct Record {
    /// The key the amount is stored under.
    key: DataKey,
    /// The stored amount.
    amount: i128,
}

/// A table from keys to amounts, held in memory.
///
/// Its view is the map from each key that has a record to the amount stored
/// under it. A key occurs at most once.
pub struct RecordStore {
    records: Vec<Record>,
}

impl View for RecordStore {
    type V = Map<DataKey, i128>;

    closed spec fn view(&self) -> Map<DataKey, i128> {
        Map::new(
            |k: DataKey| exists|i: int| 0 <= i < self.records@.len() && self.records@[i].key == k,
            |k: DataKey|
                self.records@[choose|i: int|
                    0 <= i < self.records@.len() && self.records@[i].key == k].amount,
        )
    }
}

impl RecordStore {
    /// No key occurs twice.
    pub closed spec fn wf(&self) -> bool {
        forall|i: int, j: int|
            0 <= i < j < self.records@.len() ==> self.records@[i].key != self.records@[j].key
    }

    /// The empty table.
    pub fn new() -> (store: RecordStore)
        ensures
            store.wf(),
            store@ == Map::<DataKey, i128>::empty(),
    {
        let store = RecordStore { records: Vec::new() };
        assert(store@ =~= Map::<DataKey, i128>::empty());
        store
    }

    /// The position of the record stored under `key`, if there is one.
    fn position(&self, key: DataKey) -> (r: Option<usize>)
        requires
            self.wf(),
        ensures
            match r {
                Some(i) => i < self.records@.len() && self.records@[i as int].key == key
                    && self@.contains_key(key) && self@[key] == self.records@[i as int].amount,
                None => !self@.contains_key(key)
                    && forall|j: int| 0 <= j < self.records@.len() ==> self.records@[j].key != key,
            },
    {
        let mut i: usize = 0;
        while i < self.records.len()
            invariant
                self.wf(),
                i <= self.records@.len(),
                forall|j: int| 0 <= j < i ==> self.records@[j].key != key,
            decreases self.records@.len() - i,
        {
            if self.records[i].key == key {
                proof {
                    let found = i as int;
                    assert(self.records@[found].key == key);
                    let j = choose|j: int| 0 <= j < self.records@.len() && self.records@[j].key == key;
                    assert(j == found);
                }
                return Some(i);
            }
            i += 1;
        }
        None
    }

    /// The amount stored under `key`, if there is a record.
    pub fn get(&self, key: DataKey) -> (r: Option<i128>)
        requires
            self.wf(),
        ensures
            r == (if self@.contains_key(key) {
                Some(self@[key])
            } else {
                None
            }),
    {
        match self.position(key) {
            Some(i) => Some(self.records[i].amount),
            None => None,
        }
    }

    /// Whether there is a record under `key`.
    pub fn has(&self, key: DataKey) -> (r: bool)
        requires
            self.wf(),
        ensures
            r == self@.contains_key(key),
    {
        self.position(key).is_some()
    }

    /// Stores `amount` under `key`, in place of what was stored there before.
    pub fn set(&mut self, key: DataKey, amount: i128)
        requires
            old(self).wf(),
        ensures
            final(self).wf(),
            final(self)@ == old(self)@.insert(key, amount),
    {
        let record = Record { key, amount };
        match self.position(key) {
            Some(i) => {
                self.records.set(i, record);
                proof {
                    let before = old(self).records@;
                    let after = self.records@;
                    assert forall|k: DataKey| #[trigger]
                        self@.dom().contains(k) == old(self)@.insert(key, amount).dom().contains(
                            k,
                        ) by {
                        if self@.dom().contains(k) {
                            let j = choose|j: int| 0 <= j < after.len() && after[j].key == k;
                            assert(before[j].key == k);
                        }
                        if old(self)@.dom().contains(k) {
                            let j = choose|j: int| 0 <= j < before.len() && before[j].key == k;
                            assert(after[j].key == k);
                        }
                        if k == key {
                            assert(after[i as int].key == k);
                        }
                    }
                    assert forall|k: DataKey| #[trigger]
                        self@.dom().contains(k) implies self@[k] == old(self)@.insert(
                        key,
                        amount,
                    )[k] by {
                        let j = choose|j: int| 0 <= j < after.len() && after[j].key == k;
                        if k != key {
                            let j0 = choose|j: int| 0 <= j < before.len() && before[j].key == k;
                            assert(before[j].key == k);
                            assert(j0 == j);
                        } else {
                            assert(j == i);
                        }
                    }
                    assert(self@ =~= old(self)@.insert(key, amount));
                }
            },
            None => {
                self.records.push(record);
                proof {
                    let before = old(self).records@;
                    let after = self.records@;
                    let last = before.len() as int;
                    assert(after[last].key == key);
                    assert forall|k: DataKey| #[trigger]
                        self@.dom().contains(k) == old(self)@.insert(key, amount).dom().contains(
                            k,
                        ) by {
                        if self@.dom().contains(k) {
                            let j = choose|j: int| 0 <= j < after.len() && after[j].key == k;
                            if j < last {
                                assert(before[j].key == k);
                            }
                        }
                        if old(self)@.dom().contains(k) {
                            let j = choose|j: int| 0 <= j < before.len() && before[j].key == k;
                            assert(after[j].key == k);
                        }
                    }
                    assert forall|k: DataKey| #[trigger]
                        self@.dom().contains(k) implies self@[k] == old(self)@.insert(
                        key,
                        amount,
                    )[k] by {
                        let j = choose|j: int| 0 <= j < after.len() && after[j].key == k;
                        if k != key {
                            let j0 = choose|j: int| 0 <= j < before.len() && before[j].key == k;
                            assert(j < last);
                            assert(before[j].key == k);
                            assert(j0 == j);
                        } else {
                            assert(j == last);
                        }
                    }
                    assert(self@ =~= old(self)@.insert(key, amount));
                }
            },
        }
    }

    /// Writes `amount` under `key` and keeps no record of a zero: a zero
    /// removes the record, any other amount is stored.
    pub fn write(&mut self, key: DataKey, amount: i128)
        requires
            old(self).wf(),
        ensures
            final(self).wf(),
            final(self)@ == written(old(self)@, key, amount),
    {
        match record_write(amount) {
            RecordWrite::Remove => self.remove(key),
            RecordWrite::Store(stored) => self.set(key, stored),
        }
    }

    /// Removes the record under `key`, if there is one.
    pub fn remove(&mut self, key: DataKey)
        requires
            old(self).wf(),
        ensures
            final(self).wf(),
            final(self)@ == old(self)@.remove(key),
    {
        match self.position(key) {
            Some(i) => {
                self.records.remove(i);
                proof {
                    let before = old(self).records@;
                    let after = self.records@;
                    assert forall|j: int| 0 <= j < after.len() implies #[trigger] after[j]
                        == before[if j < i { j } else { j + 1 }] by {}
                    assert forall|k: DataKey| #[trigger]
                        self@.dom().contains(k) == old(self)@.remove(key).dom().contains(k) by {
                        if self@.dom().contains(k) {
                            let j = choose|j: int| 0 <= j < after.len() && after[j].key == k;
                            let j1 = if j < i { j } else { j + 1 };
                            assert(before[j1].key == k);
                        }
                        if old(self)@.dom().contains(k) && k != key {
                            let j = choose|j: int| 0 <= j < before.len() && before[j].key == k;
                            let j1 = if j < i { j } else { j - 1 };
                            assert(after[j1].key == k);
                        }
                    }
                    assert forall|k: DataKey| #[trigger]
                        self@.dom().contains(k) implies self@[k] == old(self)@.remove(key)[k] by {
                        let j = choose|j: int| 0 <= j < after.len() && after[j].key == k;
                        let j1 = if j < i { j } else { j + 1 };
                        let j0 = choose|j: int| 0 <= j < before.len() && before[j].key == k;
                        assert(before[j1].key == k);
                        assert(j0 == j1);
                    }
                    assert(self@ =~= old(self)@.remove(key));
                }
            },
            None => {
                proof {
                    assert(self@ =~= old(self)@.remove(key));
                }
            },
        }
    }
}

} // verus!
