//! The amount in circulation: the sum of the stored balances.

use vstd::prelude::*;
use crate::storage::DataKey;

verus! {

/// What a record adds to the amount in circulation: its amount where it is a
/// balance, nothing where it is an allowance or anything else.
pub open spec fn counted(key: DataKey, amount: i128) -> int {
    if key is Balance {
        amount as int
    } else {
        0
    }
}

/// The sum of the balances that `records` holds under the keys in `keys`.
pub open spec fn total_over(keys: Set<DataKey>, records: Map<DataKey, i128>) -> int
    decreases keys.len(),
    when keys.finite()
{
    if keys.len() == 0 {
        0
    } else {
        let k = keys.choose();
        counted(k, records[k]) + total_over(keys.remove(k), records)
    }
}

/// The sum of all the balances that have a record.
pub open spec fn circulating(records: Map<DataKey, i128>) -> int {
    total_over(records.dom(), records)
}

/// The sum can be taken apart at any of its keys, not only at the chosen one.
pub proof fn lemma_total_split(keys: Set<DataKey>, records: Map<DataKey, i128>, key: DataKey)
    requires
        keys.finite(),
        keys.contains(key),
    ensures
        total_over(keys, records) == counted(key, records[key]) + total_over(
            keys.remove(key),
            records,
        ),
    decreases keys.len(),
{
    let k = keys.choose();
    if k != key {
        lemma_total_split(keys.remove(k), records, key);
        lemma_total_split(keys.remove(key), records, k);
        assert(keys.remove(k).remove(key) =~= keys.remove(key).remove(k));
    }
}

/// The sum depends only on the amounts under the keys it runs over.
pub proof fn lemma_total_frame(
    keys: Set<DataKey>,
    first: Map<DataKey, i128>,
    second: Map<DataKey, i128>,
)
    requires
        keys.finite(),
        forall|k: DataKey| keys.contains(k) ==> first[k] == second[k],
    ensures
        total_over(keys, first) == total_over(keys, second),
    decreases keys.len(),
{
    if keys.len() != 0 {
        let k = keys.choose();
        lemma_total_frame(keys.remove(k), first, second);
    }
}

/// A sum of amounts that are not negative is not negative.
pub proof fn lemma_total_nonnegative(keys: Set<DataKey>, records: Map<DataKey, i128>)
    requires
        keys.finite(),
        forall|k: DataKey| keys.contains(k) ==> records[k] >= 0,
    ensures
        total_over(keys, records) >= 0,
    decreases keys.len(),
{
    if keys.len() != 0 {
        let k = keys.choose();
        lemma_total_nonnegative(keys.remove(k), records);
    }
}

/// The amount that `records` holds under `key`, or 0 without a record.
pub open spec fn amount_at(records: Map<DataKey, i128>, key: DataKey) -> i128 {
    if records.contains_key(key) {
        records[key]
    } else {
        0
    }
}

/// Storing an amount changes the sum by what the new amount counts for, less
/// what the old one counted for.
pub proof fn lemma_circulating_insert(records: Map<DataKey, i128>, key: DataKey, amount: i128)
    requires
        records.dom().finite(),
    ensures
        circulating(records.insert(key, amount)) == circulating(records) - counted(
            key,
            amount_at(records, key),
        ) + counted(key, amount),
{
    let after = records.insert(key, amount);
    lemma_total_split(after.dom(), after, key);
    let rest = after.dom().remove(key);
    lemma_total_frame(rest, after, records);
    if records.contains_key(key) {
        lemma_total_split(records.dom(), records, key);
        assert(rest =~= records.dom().remove(key));
    } else {
        assert(rest =~= records.dom());
    }
}

/// Removing a record takes what it counted for out of the sum.
pub proof fn lemma_circulating_remove(records: Map<DataKey, i128>, key: DataKey)
    requires
        records.dom().finite(),
    ensures
        circulating(records.remove(key)) == circulating(records) - counted(
            key,
            amount_at(records, key),
        ),
{
    let after = records.remove(key);
    if records.contains_key(key) {
        lemma_total_split(records.dom(), records, key);
        lemma_total_frame(after.dom(), after, records);
        assert(after.dom() =~= records.dom().remove(key));
    } else {
        assert(after =~= records);
    }
}

/// Where no amount is negative, no balance exceeds the sum of all of them.
pub proof fn lemma_balance_within_circulating(records: Map<DataKey, i128>, key: DataKey)
    requires
        records.dom().finite(),
        forall|k: DataKey| records.contains_key(k) ==> records[k] >= 0,
    ensures
        0 <= counted(key, amount_at(records, key)) <= circulating(records),
{
    if records.contains_key(key) {
        lemma_total_split(records.dom(), records, key);
        lemma_total_nonnegative(records.dom().remove(key), records);
    } else {
        lemma_total_nonnegative(records.dom(), records);
    }
}

} // verus!
