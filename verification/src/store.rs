//! The staking table and the deposit table are near-sdk collections that keep
//! their contents in contract storage. This file declares them to Verus and
//! gives each method that the library calls a contract over a name for what
//! the collection holds. The contracts restate what near-sdk's source of
//! `collections::UnorderedMap` and `collections::LookupMap` does; nothing here
//! is proved.

use near_sdk::collections::{LookupMap, UnorderedMap};
use vstd::prelude::*;

use crate::entries::{keys_unique, lookup, put, take_out};

verus! {

/// A stake record as stored: address, token ids, claimed amount, unclaimed
/// amount, claimed timestamp, unstake-request timestamp, last accrual timestamp.
pub type StakeRecord = (String, Vec<String>, u128, u128, u64, u64, u64);

/// The record with its strings taken by their views, in the same field order.
pub type RecordView = (Seq<char>, Seq<Seq<char>>, u128, u128, u64, u64, u64);

/// The view of a stored record.
pub open spec fn record_view(r: StakeRecord) -> RecordView {
    (r.0@, r.1.deep_view(), r.2, r.3, r.4, r.5, r.6)
}

#[verifier::external_type_specification]
#[verifier::external_body]
#[verifier::reject_recursive_types(K)]
#[verifier::reject_recursive_types(V)]
pub struct ExUnorderedMap<K, V>(UnorderedMap<K, V>);

#[verifier::external_type_specification]
#[verifier::external_body]
#[verifier::reject_recursive_types(K)]
#[verifier::reject_recursive_types(V)]
pub struct ExLookupMap<K, V>(LookupMap<K, V>);

/// What a staking table holds: its `(account, record)` entries in the order
/// in which near-sdk iterates them (the order of its key vector).
pub uninterp spec fn staked_entries(
    map: UnorderedMap<String, (String, Vec<String>, u128, u128, u64, u64, u64)>,
) -> Seq<(Seq<char>, (Seq<char>, Seq<Seq<char>>, u128, u128, u64, u64, u64))>;

/// What a deposit table holds.
pub uninterp spec fn deposit_entries(map: LookupMap<String, u128>) -> Map<Seq<char>, u128>;

/// `UnorderedMap::new`: a table with no entries under the storage prefix
/// `prefix`. near-sdk writes nothing to storage here; the claim that the
/// table is empty rests on no other table having written under the same
/// prefix in this contract's storage, which the contract keeps by creating
/// one table per prefix.
#[verifier::external_body]
pub(crate) fn stake_map_new(prefix: Vec<u8>) -> (map: UnorderedMap<String, StakeRecord>)
    ensures
        staked_entries(map) == Seq::<(Seq<char>, RecordView)>::empty(),
{
    UnorderedMap::new(prefix)
}

/// `UnorderedMap::len`: the number of entries.
#[verifier::external_body]
pub(crate) fn stake_map_len(map: &UnorderedMap<String, StakeRecord>) -> (n: u64)
    ensures
        n == staked_entries(*map).len(),
{
    map.len()
}

/// `UnorderedMap::get`: the record stored for `key`, if any.
#[verifier::external_body]
pub(crate) fn stake_map_get(map: &UnorderedMap<String, StakeRecord>, key: &String) -> (found: Option<
    StakeRecord,
>)
    requires
        keys_unique(staked_entries(*map)),
    ensures
        match found {
            Some(r) => lookup(staked_entries(*map), key@) == Some(record_view(r)),
            None => lookup(staked_entries(*map), key@) is None,
        },
{
    map.get(key)
}

/// `UnorderedMap::insert`: replaces the record of a listed key in place (its
/// index is kept), or appends the new key at the end of the key vector.
#[verifier::external_body]
pub(crate) fn stake_map_insert(
    map: &mut UnorderedMap<String, StakeRecord>,
    key: &String,
    value: &StakeRecord,
)
    requires
        keys_unique(staked_entries(*old(map))),
    ensures
        staked_entries(*final(map)) == put(staked_entries(*old(map)), key@, record_view(*value)),
{
    map.insert(key, value);
}

/// `UnorderedMap::remove`: removes a listed key with a swap-remove, so the
/// last entry moves into its index; an unlisted key leaves the table as it is.
#[verifier::external_body]
pub(crate) fn stake_map_remove(map: &mut UnorderedMap<String, StakeRecord>, key: &String)
    requires
        keys_unique(staked_entries(*old(map))),
    ensures
        staked_entries(*final(map)) == take_out(staked_entries(*old(map)), key@),
{
    map.remove(key);
}

/// `Iter::nth` on `UnorderedMap::iter`: the entry at `index` in iteration
/// order, or `None` past the end.
#[verifier::external_body]
pub(crate) fn stake_map_nth(map: &UnorderedMap<String, StakeRecord>, index: u64) -> (entry: Option<
    (String, StakeRecord),
>)
    requires
        index <= usize::MAX,
    ensures
        match entry {
            Some(e) => index < staked_entries(*map).len() && staked_entries(*map)[index as int] == (
            e.0@, record_view(e.1)),
            None => index >= staked_entries(*map).len(),
        },
{
    map.iter().nth(index as usize)
}

/// `LookupMap::new`: a deposit table with no entries under `prefix`; as for
/// the staking table, this rests on the prefix being used by this table alone.
#[verifier::external_body]
pub(crate) fn deposit_map_new(prefix: Vec<u8>) -> (table: LookupMap<String, u128>)
    ensures
        deposit_entries(table).dom().is_empty(),
{
    LookupMap::new(prefix)
}

} // verus!
