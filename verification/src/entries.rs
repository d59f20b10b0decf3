//! The abstract model of the staking table: a sequence of `(account, record)`
//! pairs in iteration order, with no account listed twice.
//!
//! `put` and `take_out` describe how the table behaves when a record is
//! written or removed: a write to a listed account replaces its record in
//! place, a write to a new account appends it, and a removal moves the last
//! entry into the freed slot.

use vstd::prelude::*;

verus! {

/// `s` lists the account `k`.
pub open spec fn has_key<V>(s: Seq<(Seq<char>, V)>, k: Seq<char>) -> bool {
    exists|i: int| 0 <= i < s.len() && (#[trigger] s[i]).0 == k
}

/// The position of the account `k` in `s` (meaningful when `has_key(s, k)`).
pub open spec fn index_of<V>(s: Seq<(Seq<char>, V)>, k: Seq<char>) -> int {
    choose|i: int| 0 <= i < s.len() && (#[trigger] s[i]).0 == k
}

/// No account is listed twice.
pub open spec fn keys_unique<V>(s: Seq<(Seq<char>, V)>) -> bool {
    forall|i: int, j: int|
        0 <= i < s.len() && 0 <= j < s.len() && (#[trigger] s[i]).0 == (#[trigger] s[j]).0 ==> i
            == j
}

/// The record stored for `k`, if any.
pub open spec fn lookup<V>(s: Seq<(Seq<char>, V)>, k: Seq<char>) -> Option<V> {
    if has_key(s, k) {
        Some(s[index_of(s, k)].1)
    } else {
        None
    }
}

/// Writes `v` for `k`: in place when `k` is listed, appended otherwise.
pub open spec fn put<V>(s: Seq<(Seq<char>, V)>, k: Seq<char>, v: V) -> Seq<(Seq<char>, V)> {
    if has_key(s, k) {
        s.update(index_of(s, k), (k, v))
    } else {
        s.push((k, v))
    }
}

/// Removes `k`: the last entry takes its place (a swap-remove).
pub open spec fn take_out<V>(s: Seq<(Seq<char>, V)>, k: Seq<char>) -> Seq<(Seq<char>, V)> {
    if has_key(s, k) {
        s.update(index_of(s, k), s.last()).drop_last()
    } else {
        s
    }
}

/// The listed position of a present account holds that account.
pub proof fn lemma_index_of<V>(s: Seq<(Seq<char>, V)>, k: Seq<char>)
    requires
        has_key(s, k),
    ensures
        0 <= index_of(s, k) < s.len(),
        s[index_of(s, k)].0 == k,
{
}

/// In a table without repeated accounts, the position of an account is the
/// only one that holds it.
pub proof fn lemma_index_unique<V>(s: Seq<(Seq<char>, V)>, k: Seq<char>, i: int)
    requires
        keys_unique(s),
        0 <= i < s.len(),
        s[i].0 == k,
    ensures
        has_key(s, k),
        index_of(s, k) == i,
{
    assert(has_key(s, k));
    lemma_index_of(s, k);
}

/// Writing a record keeps every account listed once.
pub proof fn lemma_put_unique<V>(s: Seq<(Seq<char>, V)>, k: Seq<char>, v: V)
    requires
        keys_unique(s),
    ensures
        keys_unique(put(s, k, v)),
        put(s, k, v).len() == if has_key(s, k) { s.len() } else { s.len() + 1 },
{
    if has_key(s, k) {
        lemma_index_of(s, k);
    }
}

/// Removing an account keeps every account listed once.
pub proof fn lemma_take_out_unique<V>(s: Seq<(Seq<char>, V)>, k: Seq<char>)
    requires
        keys_unique(s),
    ensures
        keys_unique(take_out(s, k)),
        take_out(s, k).len() == if has_key(s, k) { s.len() - 1 } else { s.len() as int },
{
    if has_key(s, k) {
        lemma_index_of(s, k);
        let i = index_of(s, k);
        let t = take_out(s, k);
        assert forall|a: int, b: int|
            0 <= a < t.len() && 0 <= b < t.len() && (#[trigger] t[a]).0 == (#[trigger] t[b]).0
            implies a == b by {
            let sa = if a == i { s.len() - 1 } else { a };
            let sb = if b == i { s.len() - 1 } else { b };
            assert(t[a] == s[sa]);
            assert(t[b] == s[sb]);
        }
    }
}

/// What a read gives back after a write: the written record for the written
/// account, the earlier record for every other account.
pub proof fn lemma_lookup_put<V>(s: Seq<(Seq<char>, V)>, k: Seq<char>, v: V, q: Seq<char>)
    requires
        keys_unique(s),
    ensures
        lookup(put(s, k, v), q) == if q == k { Some(v) } else { lookup(s, q) },
{
    lemma_put_unique(s, k, v);
    let t = put(s, k, v);
    if has_key(s, k) {
        lemma_index_of(s, k);
    }
    let pos = if has_key(s, k) { index_of(s, k) } else { s.len() as int };
    assert(t[pos] == (k, v));
    if q == k {
        lemma_index_unique(t, q, pos);
    } else {
        if has_key(s, q) {
            lemma_index_of(s, q);
            let j = index_of(s, q);
            assert(t[j] == s[j]);
            lemma_index_unique(t, q, j);
        } else {
            if has_key(t, q) {
                lemma_index_of(t, q);
                let j = index_of(t, q);
                assert(j != pos);
                assert(s[j] == t[j]);
                assert(has_key(s, q));
            }
        }
    }
}

/// What a read gives back after a removal: nothing for the removed account,
/// the earlier record for every other account.
pub proof fn lemma_lookup_take_out<V>(s: Seq<(Seq<char>, V)>, k: Seq<char>, q: Seq<char>)
    requires
        keys_unique(s),
    ensures
        lookup(take_out(s, k), q) == if q == k { None } else { lookup(s, q) },
{
    lemma_take_out_unique(s, k);
    let t = take_out(s, k);
    if has_key(s, k) {
        lemma_index_of(s, k);
        let i = index_of(s, k);
        let last = s.len() - 1;
        if has_key(t, q) {
            lemma_index_of(t, q);
            let j = index_of(t, q);
            let sj = if j == i { last } else { j };
            assert(t[j] == s[sj]);
            lemma_index_unique(s, q, sj);
            if q == k {
                assert(sj == i);
                assert(false);
            }
        } else if q != k && has_key(s, q) {
            lemma_index_of(s, q);
            let j = index_of(s, q);
            assert(j != i);
            let tj = if j == last { i } else { j };
            assert(t[tj] == s[j]);
            assert(has_key(t, q));
        }
    }
}

/// Writing twice to one account is the same as writing the second record.
pub proof fn lemma_put_put<V>(s: Seq<(Seq<char>, V)>, k: Seq<char>, v1: V, v2: V)
    requires
        keys_unique(s),
    ensures
        put(put(s, k, v1), k, v2) == put(s, k, v2),
{
    lemma_put_unique(s, k, v1);
    let t = put(s, k, v1);
    if has_key(s, k) {
        lemma_index_of(s, k);
        lemma_index_unique(t, k, index_of(s, k));
        assert(put(t, k, v2) =~= put(s, k, v2));
    } else {
        lemma_index_unique(t, k, s.len() as int);
        assert(put(t, k, v2) =~= put(s, k, v2));
    }
}

/// Writing the record already stored for an account changes nothing.
pub proof fn lemma_put_same<V>(s: Seq<(Seq<char>, V)>, k: Seq<char>)
    requires
        keys_unique(s),
        has_key(s, k),
    ensures
        put(s, k, s[index_of(s, k)].1) == s,
{
    lemma_index_of(s, k);
    assert(put(s, k, s[index_of(s, k)].1) =~= s);
}

/// Every entry after a write is either the written one or an earlier entry
/// at the same position.
pub proof fn lemma_put_elements<V>(s: Seq<(Seq<char>, V)>, k: Seq<char>, v: V)
    ensures
        forall|i: int|
            0 <= i < put(s, k, v).len() ==> #[trigger] put(s, k, v)[i] == (k, v) || (i < s.len()
                && put(s, k, v)[i] == s[i]),
{
    if has_key(s, k) {
        lemma_index_of(s, k);
    }
}

/// Every entry after a removal is an earlier entry: the one at the same
/// position or the last one.
pub proof fn lemma_take_out_elements<V>(s: Seq<(Seq<char>, V)>, k: Seq<char>)
    ensures
        take_out(s, k).len() <= s.len(),
        forall|i: int|
            0 <= i < take_out(s, k).len() ==> #[trigger] take_out(s, k)[i] == s[i]
                || take_out(s, k)[i] == s[s.len() - 1],
{
    if has_key(s, k) {
        lemma_index_of(s, k);
    }
}

} // verus!
