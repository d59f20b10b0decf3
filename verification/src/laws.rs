//! Properties of the staking contract that span its operations, stated over
//! the outcomes that the operations' contracts speak of.

use vstd::prelude::*;

use crate::contract::{accrued, token_effects, Contract};
use crate::contract::Entries;
use crate::entries::{
    keys_unique, lemma_lookup_put, lemma_lookup_take_out, lemma_put_elements, lemma_put_unique,
    lemma_take_out_elements, lookup, put,
};
use crate::store::RecordView;
use crate::types::{EffectView, EventView, StakingError};
use crate::seconds;

verus! {

/// Accruing twice at the same time adds nothing the second time.
pub proof fn law_accrual_idempotent(r: RecordView, now_s: u64, interval: u64, daily_reward: u128)
    requires
        accrued(r, now_s, interval, daily_reward) is Ok,
    ensures
        accrued(accrued(r, now_s, interval, daily_reward)->Ok_0, now_s, interval, daily_reward)
            == accrued(r, now_s, interval, daily_reward),
{
    let a = accrued(r, now_s, interval, daily_reward)->Ok_0;
    if r.5 == 0 {
        assert((now_s as int / interval as int - now_s as int / interval as int) * a.1.len() == 0);
        assert(0 * daily_reward == 0);
    }
}

/// Accrual never lowers the unclaimed amount and leaves the address, the
/// tokens, the claimed amount and the unstake request as they were.
pub proof fn law_accrual_monotone(r: RecordView, now_s: u64, interval: u64, daily_reward: u128)
    requires
        accrued(r, now_s, interval, daily_reward) is Ok,
    ensures
        ({
            let a = accrued(r, now_s, interval, daily_reward)->Ok_0;
            &&& a.0 == r.0
            &&& a.1 == r.1
            &&& a.2 == r.2
            &&& a.3 >= r.3
            &&& a.4 == r.4
            &&& a.5 == r.5
        }),
{
    if r.5 == 0 && interval != 0 {
        let periods = now_s as int / interval as int - r.6 as int / interval as int;
        assert(periods >= 0);
        assert(periods * r.1.len() >= 0) by (nonlinear_arith)
            requires
                periods >= 0,
        ;
        let weighted = periods * r.1.len();
        assert(weighted * daily_reward >= 0) by (nonlinear_arith)
            requires
                weighted >= 0,
        ;
    }
}

/// Once unstaking has been requested, a record accrues nothing more.
pub proof fn law_unstake_request_freezes_rewards(
    r: RecordView,
    now_s: u64,
    interval: u64,
    daily_reward: u128,
)
    requires
        r.5 != 0,
    ensures
        accrued(r, now_s, interval, daily_reward) == Ok::<RecordView, StakingError>(
            r,
        ),
{
}

/// Staking a token lists it last among the owner's tokens: a new owner holds
/// just that token, a known owner holds its earlier tokens and then it.
/// The records of other accounts are unchanged.
pub proof fn law_stake_then_read(
    c: Contract,
    nft_contract_id: Seq<char>,
    owner: Seq<char>,
    token: Seq<char>,
    now: u64,
    other: Seq<char>,
)
    requires
        c.wf(),
        c.stake_outcome(nft_contract_id, owner, token, now) is Ok,
    ensures
        ({
            let t = c.stake_outcome(nft_contract_id, owner, token, now)->Ok_0;
            &&& keys_unique(t)
            &&& lookup(t, owner) is Some
            &&& lookup(t, owner)->Some_0.1 == match lookup(c.entries(), owner) {
                None => seq![token],
                Some(r) => r.1.push(token),
            }
            &&& other != owner ==> lookup(t, other) == lookup(c.entries(), other)
        }),
{
    let s = c.entries();
    match lookup(s, owner) {
        None => {
            let v = (owner, seq![token], 0u128, 0u128, seconds(now), 0u64, seconds(now));
            lemma_lookup_put(s, owner, v, owner);
            lemma_lookup_put(s, owner, v, other);
            lemma_put_unique(s, owner, v);
        },
        Some(r) => {
            let a = c.accrue_for(owner, now)->Ok_0;
            law_accrual_monotone(r, seconds(now), c.interval, c.daily_reward);
            let v = (a.0, a.1.push(token), a.2, a.3, a.4, a.5, a.6);
            lemma_lookup_put(s, owner, v, owner);
            lemma_lookup_put(s, owner, v, other);
            lemma_put_unique(s, owner, v);
        },
    }
}

/// A claim moves the whole accrued unclaimed amount into the claimed amount
/// and pays exactly that amount; the sum of claimed and unclaimed is kept.
/// The records of other accounts are unchanged.
pub proof fn law_claim_conserves(
    c: Contract,
    account: Seq<char>,
    deposit: u128,
    now: u64,
    other: Seq<char>,
)
    requires
        c.wf(),
        c.claim_outcome(account, deposit, now) is Ok,
    ensures
        ({
            let (t, effects) = c.claim_outcome(account, deposit, now)->Ok_0;
            let a = c.accrue_for(account, now)->Ok_0;
            &&& lookup(t, account) is Some
            &&& lookup(t, account)->Some_0.3 == 0
            &&& lookup(t, account)->Some_0.2 == a.2 + a.3
            &&& a.3 > 0
            &&& effects.len() == 1
            &&& effects[0] == (EffectView::FtTransfer {
                ft_contract: c.ft_address@,
                receiver_id: account,
                amount: a.3,
            })
            &&& other != account ==> lookup(t, other) == lookup(c.entries(), other)
        }),
{
    let s = c.entries();
    let a = c.accrue_for(account, now)->Ok_0;
    let v = (a.0, a.1, (a.2 + a.3) as u128, 0u128, seconds(now), a.5, a.6);
    lemma_lookup_put(s, account, v, account);
    lemma_lookup_put(s, account, v, other);
}

/// Unstaking removes the account's record and no other; it is only granted
/// after an unstake request whose lock period has passed.
pub proof fn law_unstake_removes(c: Contract, account: Seq<char>, now: u64, other: Seq<char>)
    requires
        c.wf(),
        c.fetch_unstake_outcome(account, now) is Ok,
    ensures
        ({
            let (t, effects) = c.fetch_unstake_outcome(account, now)->Ok_0;
            let r = lookup(c.entries(), account)->Some_0;
            &&& lookup(c.entries(), account) is Some
            &&& r.5 != 0
            &&& seconds(now) > c.lock_time + r.5
            &&& lookup(t, account) is None
            &&& other != account ==> lookup(t, other) == lookup(c.entries(), other)
        }),
{
    let s = c.entries();
    lemma_lookup_take_out(s, account, account);
    lemma_lookup_take_out(s, account, other);
}

/// Requesting unstaking stamps the record with the call's time and freezes
/// its rewards from then on. The records of other accounts are unchanged.
pub proof fn law_create_unstake_then_read(
    c: Contract,
    account: Seq<char>,
    deposit: u128,
    now: u64,
    other: Seq<char>,
    later_s: u64,
)
    requires
        c.wf(),
        c.create_unstake_outcome(account, deposit, now) is Ok,
        seconds(now) != 0,
    ensures
        ({
            let t = c.create_unstake_outcome(account, deposit, now)->Ok_0;
            let r = lookup(t, account)->Some_0;
            &&& lookup(t, account) is Some
            &&& r.5 == seconds(now)
            &&& accrued(r, later_s, c.interval, c.daily_reward) == Ok::<
                RecordView,
                StakingError,
            >(r)
            &&& other != account ==> lookup(t, other) == lookup(c.entries(), other)
        }),
{
    let s = c.entries();
    let a = c.accrue_for(account, now)->Ok_0;
    let v = (a.0, a.1, a.2, a.3, a.4, seconds(now), a.6);
    lemma_lookup_put(s, account, v, account);
    lemma_lookup_put(s, account, v, other);
}

/// Accrual is additive: accruing at `t1` and then at a later `t2` leaves the
/// same record as accruing once at `t2`.
pub proof fn law_accrual_additive(
    r: RecordView,
    t1: u64,
    t2: u64,
    interval: u64,
    daily_reward: u128,
)
    requires
        r.5 == 0,
        interval > 0,
        r.6 <= t1 <= t2,
        accrued(r, t2, interval, daily_reward) is Ok,
    ensures
        accrued(r, t1, interval, daily_reward) is Ok,
        accrued(accrued(r, t1, interval, daily_reward)->Ok_0, t2, interval, daily_reward)
            == accrued(r, t2, interval, daily_reward),
{
    let iv = interval as int;
    let q0 = r.6 as int / iv;
    let q1 = t1 as int / iv;
    let q2 = t2 as int / iv;
    vstd::arithmetic::div_mod::lemma_div_is_ordered(r.6 as int, t1 as int, iv);
    vstd::arithmetic::div_mod::lemma_div_is_ordered(t1 as int, t2 as int, iv);
    let n = r.1.len() as int;
    let d = daily_reward as int;
    let p1 = q1 - q0;
    let p2 = q2 - q1;
    assert(p1 * n <= (p1 + p2) * n && p2 * n <= (p1 + p2) * n) by (nonlinear_arith)
        requires
            p1 >= 0,
            p2 >= 0,
            n >= 0,
    ;
    assert((p1 + p2) * n == p1 * n + p2 * n) by (nonlinear_arith);
    assert((p1 * n + p2 * n) * d == p1 * n * d + p2 * n * d) by (nonlinear_arith);
    assert(p1 * n * d >= 0 && p2 * n * d >= 0) by (nonlinear_arith)
        requires
            p1 >= 0,
            p2 >= 0,
            n >= 0,
            d >= 0,
    ;
    assert(p1 * n * d <= (p1 + p2) * n * d && p2 * n * d <= (p1 + p2) * n * d) by (nonlinear_arith)
        requires
            p1 * n <= (p1 + p2) * n,
            p2 * n <= (p1 + p2) * n,
            d >= 0,
    ;
    let a = accrued(r, t1, interval, daily_reward)->Ok_0;
    assert(a.1.len() == n);
}

/// Once unstaking was requested, the reward paid by unstaking does not
/// depend on when it happens: every fetch after the lock period gives the
/// same table and the same transfers.
pub proof fn law_fetch_independent_of_time(c: Contract, account: Seq<char>, now1: u64, now2: u64)
    requires
        lookup(c.entries(), account) is Some,
        lookup(c.entries(), account)->Some_0.5 != 0,
        c.lock_time + lookup(c.entries(), account)->Some_0.5 < seconds(now1),
        c.lock_time + lookup(c.entries(), account)->Some_0.5 < seconds(now2),
    ensures
        c.fetch_unstake_outcome(account, now1) is Ok,
        c.fetch_unstake_outcome(account, now1) == c.fetch_unstake_outcome(account, now2),
{
}

/// A claim cannot be paid twice: after a claim, claiming again within the
/// same interval (or at any time once unstaking was requested) is refused
/// for want of a reward.
pub proof fn law_no_double_payout(
    c: Contract,
    after: Contract,
    account: Seq<char>,
    deposit: u128,
    now: u64,
    now2: u64,
)
    requires
        c.wf(),
        c.claim_outcome(account, deposit, now) is Ok,
        after.entries() == c.claim_outcome(account, deposit, now)->Ok_0.0,
        after.interval == c.interval,
        after.daily_reward == c.daily_reward,
        c.interval != 0 ==> seconds(now2) as int / c.interval as int == seconds(now) as int
            / c.interval as int,
    ensures
        after.claim_outcome(account, 1, now2) == Err::<
            (Entries, Seq<EffectView>),
            StakingError,
        >(StakingError::NoReward),
{
    let s = c.entries();
    let a = c.accrue_for(account, now)->Ok_0;
    let v = (a.0, a.1, (a.2 + a.3) as u128, 0u128, seconds(now), a.5, a.6);
    lemma_lookup_put(s, account, v, account);
    let r = lookup(s, account)->Some_0;
    if r.5 == 0 {
        assert(a.6 == seconds(now));
        let p = seconds(now2) as int / c.interval as int - seconds(now) as int / c.interval as int;
        assert(p == 0);
        assert(p * a.1.len() == 0);
        assert(0 * c.daily_reward == 0);
    }
}

/// A page of `k` entries from the start followed by the page from `k` on is
/// the whole table, and no account appears twice in it.
pub proof fn law_pages_concatenate(c: Contract, k: u64)
    requires
        c.wf(),
        0 < k < c.entries().len(),
        c.entries().len() <= usize::MAX,
    ensures
        c.stake_page(None, Some(k)) is Ok,
        c.stake_page(Some(k as u128), None) is Ok,
        c.stake_page(None, None) == Ok::<Entries, StakingError>(c.entries()),
        c.stake_page(None, Some(k))->Ok_0 + c.stake_page(Some(k as u128), None)->Ok_0
            == c.entries(),
        keys_unique(c.stake_page(None, None)->Ok_0),
{
    let s = c.entries();
    assert((k as usize) as int == k as int);
    assert(s.subrange(0, s.len() as int) =~= s);
    assert(s.subrange(0, k as int) + s.subrange(k as int, s.len() as int) =~= s);
}

/// The shape of a sound staking table at time `now_s` (seconds): each record
/// carries its own account as address, holds at least one token, and has
/// no accrual or unstake-request time after `now_s`.
pub open spec fn records_sane(s: Entries, now_s: u64) -> bool {
    forall|i: int|
        0 <= i < s.len() ==> {
            let e = #[trigger] s[i];
            &&& e.1.0 == e.0
            &&& e.1.1.len() >= 1
            &&& e.1.6 <= now_s
            &&& e.1.5 <= now_s
        }
}

/// The empty table of a new contract is sound, and soundness lasts as time
/// goes on.
pub proof fn law_records_sane_start_and_time(s: Entries, t: u64, later: u64)
    requires
        records_sane(s, t),
        t <= later,
    ensures
        records_sane(Seq::<(Seq<char>, RecordView)>::empty(), t),
        records_sane(s, later),
{
}

proof fn lemma_sane_put(s: Entries, k: Seq<char>, v: RecordView, now_s: u64)
    requires
        records_sane(s, now_s),
        v.0 == k,
        v.1.len() >= 1,
        v.6 <= now_s,
        v.5 <= now_s,
    ensures
        records_sane(put(s, k, v), now_s),
{
    lemma_put_elements(s, k, v);
    assert forall|i: int| 0 <= i < put(s, k, v).len() implies {
        let e = #[trigger] put(s, k, v)[i];
        &&& e.1.0 == e.0
        &&& e.1.1.len() >= 1
        &&& e.1.6 <= now_s
        &&& e.1.5 <= now_s
    } by {
        if put(s, k, v)[i] != (k, v) {
            assert(put(s, k, v)[i] == s[i]);
        }
    }
}

proof fn lemma_sane_accrued(c: Contract, account: Seq<char>, t: u64, now: u64)
    requires
        c.wf(),
        records_sane(c.entries(), t),
        t <= seconds(now),
        c.accrue_for(account, now) is Ok,
    ensures
        ({
            let a = c.accrue_for(account, now)->Ok_0;
            &&& a.0 == account
            &&& a.1.len() >= 1
            &&& a.6 <= seconds(now)
            &&& a.5 <= seconds(now)
        }),
{
    let s = c.entries();
    crate::entries::lemma_index_of(s, account);
    let r = lookup(s, account)->Some_0;
    assert(s[crate::entries::index_of(s, account)].1 == r);
    law_accrual_monotone(r, seconds(now), c.interval, c.daily_reward);
}

/// Staking at a time no earlier than `t` keeps a sound table sound.
pub proof fn law_stake_keeps_records_sane(
    c: Contract,
    nft_contract_id: Seq<char>,
    owner: Seq<char>,
    token: Seq<char>,
    t: u64,
    now: u64,
)
    requires
        c.wf(),
        records_sane(c.entries(), t),
        t <= seconds(now),
        c.stake_outcome(nft_contract_id, owner, token, now) is Ok,
    ensures
        records_sane(c.stake_outcome(nft_contract_id, owner, token, now)->Ok_0, seconds(now)),
{
    let s = c.entries();
    law_records_sane_start_and_time(s, t, seconds(now));
    if crate::entries::has_key(s, owner) {
        lemma_sane_accrued(c, owner, t, now);
        let a = c.accrue_for(owner, now)->Ok_0;
        lemma_sane_put(s, owner, (a.0, a.1.push(token), a.2, a.3, a.4, a.5, a.6), seconds(now));
    } else {
        lemma_sane_put(
            s,
            owner,
            (owner, seq![token], 0u128, 0u128, seconds(now), 0u64, seconds(now)),
            seconds(now),
        );
    }
}

/// Claiming at a time no earlier than `t` keeps a sound table sound.
pub proof fn law_claim_keeps_records_sane(
    c: Contract,
    account: Seq<char>,
    deposit: u128,
    t: u64,
    now: u64,
)
    requires
        c.wf(),
        records_sane(c.entries(), t),
        t <= seconds(now),
        c.claim_outcome(account, deposit, now) is Ok,
    ensures
        records_sane(c.claim_outcome(account, deposit, now)->Ok_0.0, seconds(now)),
{
    let s = c.entries();
    law_records_sane_start_and_time(s, t, seconds(now));
    lemma_sane_accrued(c, account, t, now);
    let a = c.accrue_for(account, now)->Ok_0;
    lemma_sane_put(s, account, (a.0, a.1, (a.2 + a.3) as u128, 0u128, seconds(now), a.5, a.6), seconds(now));
}

/// Requesting unstaking at a time no earlier than `t` keeps a sound table
/// sound.
pub proof fn law_create_unstake_keeps_records_sane(
    c: Contract,
    account: Seq<char>,
    deposit: u128,
    t: u64,
    now: u64,
)
    requires
        c.wf(),
        records_sane(c.entries(), t),
        t <= seconds(now),
        c.create_unstake_outcome(account, deposit, now) is Ok,
    ensures
        records_sane(c.create_unstake_outcome(account, deposit, now)->Ok_0, seconds(now)),
{
    let s = c.entries();
    law_records_sane_start_and_time(s, t, seconds(now));
    lemma_sane_accrued(c, account, t, now);
    let a = c.accrue_for(account, now)->Ok_0;
    lemma_sane_put(s, account, (a.0, a.1, a.2, a.3, a.4, seconds(now), a.6), seconds(now));
}

/// Unstaking at a time no earlier than `t` keeps a sound table sound.
pub proof fn law_fetch_keeps_records_sane(c: Contract, account: Seq<char>, t: u64, now: u64)
    requires
        c.wf(),
        records_sane(c.entries(), t),
        t <= seconds(now),
        c.fetch_unstake_outcome(account, now) is Ok,
    ensures
        records_sane(c.fetch_unstake_outcome(account, now)->Ok_0.0, seconds(now)),
{
    let s = c.entries();
    law_records_sane_start_and_time(s, t, seconds(now));
    lemma_take_out_elements(s, account);
    let u = c.fetch_unstake_outcome(account, now)->Ok_0.0;
    assert forall|i: int| 0 <= i < u.len() implies {
        let e = #[trigger] u[i];
        &&& e.1.0 == e.0
        &&& e.1.1.len() >= 1
        &&& e.1.6 <= seconds(now)
        &&& e.1.5 <= seconds(now)
    } by {
        if u[i] != s[i] {
            assert(u[i] == s[s.len() - 1]);
        }
    }
}

/// A record whose unstake was requested stays frozen under staking: its
/// unclaimed amount and its request are kept, whoever stakes.
pub proof fn law_frozen_under_stake(
    c: Contract,
    o: Seq<char>,
    nft_contract_id: Seq<char>,
    owner: Seq<char>,
    token: Seq<char>,
    now: u64,
)
    requires
        c.wf(),
        lookup(c.entries(), o) is Some,
        lookup(c.entries(), o)->Some_0.5 != 0,
        c.stake_outcome(nft_contract_id, owner, token, now) is Ok,
    ensures
        ({
            let r = lookup(c.entries(), o)->Some_0;
            let t = c.stake_outcome(nft_contract_id, owner, token, now)->Ok_0;
            &&& lookup(t, o) is Some
            &&& lookup(t, o)->Some_0.3 == r.3
            &&& lookup(t, o)->Some_0.5 == r.5
        }),
{
    let s = c.entries();
    if o == owner {
        let a = c.accrue_for(owner, now)->Ok_0;
        lemma_lookup_put(s, owner, (a.0, a.1.push(token), a.2, a.3, a.4, a.5, a.6), o);
    } else if crate::entries::has_key(s, owner) {
        let a = c.accrue_for(owner, now)->Ok_0;
        lemma_lookup_put(s, owner, (a.0, a.1.push(token), a.2, a.3, a.4, a.5, a.6), o);
    } else {
        lemma_lookup_put(
            s,
            owner,
            (owner, seq![token], 0u128, 0u128, seconds(now), 0u64, seconds(now)),
            o,
        );
    }
}

/// A record whose unstake was requested stays frozen under claims: a claim
/// can only lower its unclaimed amount (to zero), and keeps its request.
pub proof fn law_frozen_under_claim(
    c: Contract,
    o: Seq<char>,
    account: Seq<char>,
    deposit: u128,
    now: u64,
)
    requires
        c.wf(),
        lookup(c.entries(), o) is Some,
        lookup(c.entries(), o)->Some_0.5 != 0,
        c.claim_outcome(account, deposit, now) is Ok,
    ensures
        ({
            let r = lookup(c.entries(), o)->Some_0;
            let t = c.claim_outcome(account, deposit, now)->Ok_0.0;
            &&& lookup(t, o) is Some
            &&& lookup(t, o)->Some_0.3 <= r.3
            &&& lookup(t, o)->Some_0.5 == r.5
        }),
{
    let s = c.entries();
    let a = c.accrue_for(account, now)->Ok_0;
    lemma_lookup_put(s, account, (a.0, a.1, (a.2 + a.3) as u128, 0u128, seconds(now), a.5, a.6), o);
}

/// A record whose unstake was requested stays frozen under further unstake
/// requests made at a block time of at least one second: its unclaimed
/// amount is kept and it stays requested.
pub proof fn law_frozen_under_create_unstake(
    c: Contract,
    o: Seq<char>,
    account: Seq<char>,
    deposit: u128,
    now: u64,
)
    requires
        c.wf(),
        lookup(c.entries(), o) is Some,
        lookup(c.entries(), o)->Some_0.5 != 0,
        seconds(now) != 0,
        c.create_unstake_outcome(account, deposit, now) is Ok,
    ensures
        ({
            let r = lookup(c.entries(), o)->Some_0;
            let t = c.create_unstake_outcome(account, deposit, now)->Ok_0;
            &&& lookup(t, o) is Some
            &&& lookup(t, o)->Some_0.3 == r.3
            &&& lookup(t, o)->Some_0.5 != 0
        }),
{
    let s = c.entries();
    let a = c.accrue_for(account, now)->Ok_0;
    lemma_lookup_put(s, account, (a.0, a.1, a.2, a.3, a.4, seconds(now), a.6), o);
}

/// Unstaking removes a frozen record only when it is the one unstaked, and
/// otherwise leaves it as it is.
pub proof fn law_frozen_under_fetch(c: Contract, o: Seq<char>, account: Seq<char>, now: u64)
    requires
        c.wf(),
        lookup(c.entries(), o) is Some,
        lookup(c.entries(), o)->Some_0.5 != 0,
        c.fetch_unstake_outcome(account, now) is Ok,
    ensures
        ({
            let t = c.fetch_unstake_outcome(account, now)->Ok_0.0;
            if o == account {
                lookup(t, o) is None
            } else {
                lookup(t, o) == lookup(c.entries(), o)
            }
        }),
{
    lemma_lookup_take_out(c.entries(), account, o);
}

/// The reward that the record `r` has earned by `now_s` (seconds): nothing
/// once unstaking was requested, otherwise `daily_reward` per staked token
/// for every multiple of `interval` reached since its last accrual.
pub open spec fn earned(r: RecordView, now_s: u64, interval: u64, daily_reward: u128) -> int {
    if r.5 != 0 {
        0
    } else {
        (now_s as int / interval as int - r.6 as int / interval as int) * r.1.len()
            * daily_reward
    }
}

/// The last accrual time of `r` after an accrual at `now_s`: moved to
/// `now_s`, unless unstaking was requested.
pub open spec fn accrual_time(r: RecordView, now_s: u64) -> u64 {
    if r.5 != 0 {
        r.6
    } else {
        now_s
    }
}

/// What a successful accrual does to a record, field by field.
proof fn lemma_accrued_fields(r: RecordView, now_s: u64, interval: u64, daily_reward: u128)
    requires
        accrued(r, now_s, interval, daily_reward) is Ok,
    ensures
        ({
            let a = accrued(r, now_s, interval, daily_reward)->Ok_0;
            &&& a.0 == r.0
            &&& a.1 == r.1
            &&& a.2 == r.2
            &&& a.3 == r.3 + earned(r, now_s, interval, daily_reward)
            &&& a.4 == r.4
            &&& a.5 == r.5
            &&& a.6 == accrual_time(r, now_s)
        }),
{
}

/// A page of the staking table starting at `from` with limit `limit` holds
/// the entries from `from` on, in order, and as many as the limit allows:
/// `min(limit, len - from)` of them.
pub proof fn law_page_contents(c: Contract, from: u128, limit: u64)
    requires
        from < c.entries().len(),
        c.entries().len() <= usize::MAX,
        (limit as usize) as int >= 1,
    ensures
        c.stake_page(Some(from), Some(limit)) is Ok,
        ({
            let page = c.stake_page(Some(from), Some(limit))->Ok_0;
            let lim = (limit as usize) as int;
            let rest = c.entries().len() - from;
            &&& page.len() == if lim < rest { lim } else { rest }
            &&& forall|i: int| 0 <= i < page.len() ==> #[trigger] page[i] == c.entries()[from + i]
        }),
        c.stake_page(Some(from), None) is Ok,
        c.stake_page(Some(from), None)->Ok_0 == c.entries().subrange(
            from as int,
            c.entries().len() as int,
        ),
{
}

/// Staking a token: a new account gets a fresh record holding just that
/// token and stamped with the call's time; a known account keeps its
/// address, claimed amount, claim time and unstake request, gets the token
/// appended and its earned reward added to the unclaimed amount.
pub proof fn law_stake_record(
    c: Contract,
    nft_contract_id: Seq<char>,
    owner: Seq<char>,
    token: Seq<char>,
    now: u64,
)
    requires
        c.wf(),
        c.stake_outcome(nft_contract_id, owner, token, now) is Ok,
    ensures
        nft_contract_id == c.nft_address@,
        ({
            let t = c.stake_outcome(nft_contract_id, owner, token, now)->Ok_0;
            let n = seconds(now);
            &&& lookup(t, owner) is Some
            &&& match lookup(c.entries(), owner) {
                None => lookup(t, owner)->Some_0 == (owner, seq![token], 0u128, 0u128, n, 0u64, n),
                Some(r) => {
                    let q = lookup(t, owner)->Some_0;
                    &&& q.0 == r.0
                    &&& q.1 == r.1.push(token)
                    &&& q.2 == r.2
                    &&& q.3 == r.3 + earned(r, n, c.interval, c.daily_reward)
                    &&& q.4 == r.4
                    &&& q.5 == r.5
                    &&& q.6 == accrual_time(r, n)
                },
            }
        }),
{
    let s = c.entries();
    match lookup(s, owner) {
        None => {
            let v = (owner, seq![token], 0u128, 0u128, seconds(now), 0u64, seconds(now));
            lemma_lookup_put(s, owner, v, owner);
        },
        Some(r) => {
            lemma_accrued_fields(r, seconds(now), c.interval, c.daily_reward);
            let a = c.accrue_for(owner, now)->Ok_0;
            let v = (a.0, a.1.push(token), a.2, a.3, a.4, a.5, a.6);
            lemma_lookup_put(s, owner, v, owner);
        },
    }
}

/// A claim pays the account's stored unclaimed amount plus what it has
/// earned since, adds exactly that to its claimed amount, empties its
/// unclaimed amount and stamps the claim time with the call's time; its
/// address, tokens and unstake request are kept.
pub proof fn law_claim_record(c: Contract, account: Seq<char>, deposit: u128, now: u64)
    requires
        c.wf(),
        c.claim_outcome(account, deposit, now) is Ok,
    ensures
        deposit == 1,
        lookup(c.entries(), account) is Some,
        ({
            let (t, effects) = c.claim_outcome(account, deposit, now)->Ok_0;
            let n = seconds(now);
            let r = lookup(c.entries(), account)->Some_0;
            let paid = r.3 + earned(r, n, c.interval, c.daily_reward);
            let q = lookup(t, account)->Some_0;
            &&& 0 < paid <= u128::MAX
            &&& effects == seq![
                EffectView::FtTransfer {
                    ft_contract: c.ft_address@,
                    receiver_id: account,
                    amount: paid as u128,
                },
            ]
            &&& lookup(t, account) is Some
            &&& q.0 == r.0
            &&& q.1 == r.1
            &&& q.2 == r.2 + paid
            &&& q.3 == 0
            &&& q.4 == n
            &&& q.5 == r.5
            &&& q.6 == accrual_time(r, n)
        }),
{
    let s = c.entries();
    let r = lookup(s, account)->Some_0;
    lemma_accrued_fields(r, seconds(now), c.interval, c.daily_reward);
    let a = c.accrue_for(account, now)->Ok_0;
    let v = (a.0, a.1, (a.2 + a.3) as u128, 0u128, seconds(now), a.5, a.6);
    lemma_lookup_put(s, account, v, account);
}

/// An unstake request stamps the request time with the call's time and
/// stores the reward earned so far; the address, tokens, claimed amount and
/// claim time are kept.
pub proof fn law_create_unstake_record(c: Contract, account: Seq<char>, deposit: u128, now: u64)
    requires
        c.wf(),
        c.create_unstake_outcome(account, deposit, now) is Ok,
    ensures
        deposit == 1,
        lookup(c.entries(), account) is Some,
        ({
            let t = c.create_unstake_outcome(account, deposit, now)->Ok_0;
            let n = seconds(now);
            let r = lookup(c.entries(), account)->Some_0;
            let q = lookup(t, account)->Some_0;
            &&& lookup(t, account) is Some
            &&& q.0 == r.0
            &&& q.1 == r.1
            &&& q.2 == r.2
            &&& q.3 == r.3 + earned(r, n, c.interval, c.daily_reward)
            &&& q.4 == r.4
            &&& q.5 == n
            &&& q.6 == accrual_time(r, n)
        }),
{
    let s = c.entries();
    let r = lookup(s, account)->Some_0;
    lemma_accrued_fields(r, seconds(now), c.interval, c.daily_reward);
    let a = c.accrue_for(account, now)->Ok_0;
    let v = (a.0, a.1, a.2, a.3, a.4, seconds(now), a.6);
    lemma_lookup_put(s, account, v, account);
}

/// The effects of returning `tokens`: two per token, in order, the transfer
/// to `owner` on `nft` and then its log line.
pub proof fn lemma_token_effects(tokens: Seq<Seq<char>>, owner: Seq<char>, nft: Seq<char>)
    ensures
        token_effects(tokens, owner, nft).len() == 2 * tokens.len(),
        forall|i: int|
            #![trigger tokens[i]]
            0 <= i < tokens.len() ==> token_effects(tokens, owner, nft)[2 * i]
                == (EffectView::NftTransfer { nft_contract: nft, receiver_id: owner, token_id: tokens[i] })
                && token_effects(tokens, owner, nft)[2 * i + 1] == EffectView::Log(
                EventView::UnstakeNft { owner_id: owner, token_id: tokens[i] },
            ),
    decreases tokens.len(),
{
    if tokens.len() > 0 {
        let init = tokens.drop_last();
        lemma_token_effects(init, owner, nft);
        let te = token_effects(tokens, owner, nft);
        let ti = token_effects(init, owner, nft);
        assert(te == ti + seq![
            EffectView::NftTransfer { nft_contract: nft, receiver_id: owner, token_id: tokens.last() },
            EffectView::Log(EventView::UnstakeNft { owner_id: owner, token_id: tokens.last() }),
        ]);
        assert forall|i: int| #![trigger tokens[i]] 0 <= i < tokens.len() implies te[2 * i]
            == (EffectView::NftTransfer { nft_contract: nft, receiver_id: owner, token_id: tokens[i] })
            && te[2 * i + 1] == EffectView::Log(
            EventView::UnstakeNft { owner_id: owner, token_id: tokens[i] },
        ) by {
            if i < init.len() {
                assert(init[i] == tokens[i]);
                assert(te[2 * i] == ti[2 * i]);
                assert(te[2 * i + 1] == ti[2 * i + 1]);
            } else {
                assert(i == tokens.len() - 1);
            }
        }
    }
}

/// Unstaking returns every token of the account's record, in order and each
/// once: its transfer to the record's address on the NFT contract followed
/// by its log line. It is preceded by the payment of the stored unclaimed
/// amount to the caller when that amount is not zero, and removes the record.
pub proof fn law_fetch_returns_every_token(c: Contract, account: Seq<char>, now: u64)
    requires
        c.wf(),
        c.fetch_unstake_outcome(account, now) is Ok,
    ensures
        lookup(c.entries(), account) is Some,
        ({
            let (t, effects) = c.fetch_unstake_outcome(account, now)->Ok_0;
            let r = lookup(c.entries(), account)->Some_0;
            let h: int = if r.3 > 0 { 1 } else { 0 };
            &&& r.5 != 0
            &&& lookup(t, account) is None
            &&& effects.len() == h + 2 * r.1.len()
            &&& r.3 > 0 ==> effects[0] == (EffectView::FtTransfer {
                ft_contract: c.ft_address@,
                receiver_id: account,
                amount: r.3,
            })
            &&& forall|i: int|
                #![trigger r.1[i]]
                0 <= i < r.1.len() ==> effects[h + 2 * i] == (EffectView::NftTransfer {
                    nft_contract: c.nft_address@,
                    receiver_id: r.0,
                    token_id: r.1[i],
                }) && effects[h + 2 * i + 1] == EffectView::Log(
                    EventView::UnstakeNft { owner_id: r.0, token_id: r.1[i] },
                )
        }),
{
    let s = c.entries();
    let r = lookup(s, account)->Some_0;
    lemma_accrued_fields(r, seconds(now), c.interval, c.daily_reward);
    lemma_lookup_take_out(s, account, account);
    lemma_token_effects(r.1, r.0, c.nft_address@);
    let (t, effects) = c.fetch_unstake_outcome(account, now)->Ok_0;
    let head: Seq<EffectView> = if r.3 > 0 {
        seq![EffectView::FtTransfer { ft_contract: c.ft_address@, receiver_id: account, amount: r.3 }]
    } else {
        Seq::empty()
    };
    let te = token_effects(r.1, r.0, c.nft_address@);
    assert(effects == head + te);
    assert forall|i: int| #![trigger r.1[i]] 0 <= i < r.1.len() implies effects[head.len() + 2 * i]
        == te[2 * i] && effects[head.len() + 2 * i + 1] == te[2 * i + 1] by {}
}

/// The accrual of `r` at `now_s` fits its integer types: nothing is earned
/// once unstaking was requested; otherwise the interval is not zero, time
/// has not gone back past an interval boundary, and the weighted period
/// count and the new unclaimed amount fit in a `u128`.
pub open spec fn accrual_fits(r: RecordView, now_s: u64, interval: u64, daily_reward: u128) -> bool {
    ||| r.5 != 0
    ||| {
        &&& interval > 0
        &&& r.6 as int / interval as int <= now_s as int / interval as int
        &&& (now_s as int / interval as int - r.6 as int / interval as int) * r.1.len()
            <= u128::MAX
        &&& r.3 + earned(r, now_s, interval, daily_reward) <= u128::MAX
    }
}

/// Accrual succeeds exactly when it fits its integer types.
pub proof fn law_accrual_succeeds(r: RecordView, now_s: u64, interval: u64, daily_reward: u128)
    ensures
        accrued(r, now_s, interval, daily_reward) is Ok <==> accrual_fits(
            r,
            now_s,
            interval,
            daily_reward,
        ),
{
    if r.5 == 0 && interval > 0 {
        let p = now_s as int / interval as int - r.6 as int / interval as int;
        if p >= 0 {
            assert(p * r.1.len() * daily_reward >= 0) by (nonlinear_arith)
                requires
                    p >= 0,
            ;
        }
    }
}

/// When staking is granted: the token comes from the configured NFT
/// contract, and the owner is new or its reward accrual fits.
pub proof fn law_stake_succeeds(
    c: Contract,
    nft_contract_id: Seq<char>,
    owner: Seq<char>,
    token: Seq<char>,
    now: u64,
)
    ensures
        c.stake_outcome(nft_contract_id, owner, token, now) is Ok <==> {
            &&& nft_contract_id == c.nft_address@
            &&& match lookup(c.entries(), owner) {
                None => true,
                Some(r) => accrual_fits(r, seconds(now), c.interval, c.daily_reward),
            }
        },
{
    if let Some(r) = lookup(c.entries(), owner) {
        law_accrual_succeeds(r, seconds(now), c.interval, c.daily_reward);
    }
}

/// When a claim is granted: one yoctoNEAR is attached, the account has a
/// record whose accrual fits, there is a reward to pay, and the claimed
/// total stays within a `u128`.
pub proof fn law_claim_succeeds(c: Contract, account: Seq<char>, deposit: u128, now: u64)
    ensures
        c.claim_outcome(account, deposit, now) is Ok <==> {
            &&& deposit == 1
            &&& lookup(c.entries(), account) is Some
            &&& {
                let r = lookup(c.entries(), account)->Some_0;
                let paid = r.3 + earned(r, seconds(now), c.interval, c.daily_reward);
                &&& accrual_fits(r, seconds(now), c.interval, c.daily_reward)
                &&& paid > 0
                &&& r.2 + paid <= u128::MAX
            }
        },
{
    if let Some(r) = lookup(c.entries(), account) {
        law_accrual_succeeds(r, seconds(now), c.interval, c.daily_reward);
        if accrual_fits(r, seconds(now), c.interval, c.daily_reward) {
            lemma_accrued_fields(r, seconds(now), c.interval, c.daily_reward);
        }
    }
}

/// When an unstake request is granted: one yoctoNEAR is attached and the
/// account has a record whose accrual fits.
pub proof fn law_create_unstake_succeeds(c: Contract, account: Seq<char>, deposit: u128, now: u64)
    ensures
        c.create_unstake_outcome(account, deposit, now) is Ok <==> {
            &&& deposit == 1
            &&& lookup(c.entries(), account) is Some
            &&& accrual_fits(
                lookup(c.entries(), account)->Some_0,
                seconds(now),
                c.interval,
                c.daily_reward,
            )
        },
{
    if let Some(r) = lookup(c.entries(), account) {
        law_accrual_succeeds(r, seconds(now), c.interval, c.daily_reward);
    }
}

/// When unstaking is granted: the account has a record whose unstake was
/// requested, and the lock period after the request has passed (its end
/// fitting in a `u64`).
pub proof fn law_fetch_succeeds(c: Contract, account: Seq<char>, now: u64)
    ensures
        c.fetch_unstake_outcome(account, now) is Ok <==> {
            &&& lookup(c.entries(), account) is Some
            &&& {
                let r = lookup(c.entries(), account)->Some_0;
                &&& r.5 != 0
                &&& c.lock_time + r.5 <= u64::MAX
                &&& seconds(now) > c.lock_time + r.5
            }
        },
{
    if let Some(r) = lookup(c.entries(), account) {
        law_accrual_succeeds(r, seconds(now), c.interval, c.daily_reward);
        if accrual_fits(r, seconds(now), c.interval, c.daily_reward) {
            lemma_accrued_fields(r, seconds(now), c.interval, c.daily_reward);
        }
    }
}

/// When a page is refused: a start at or past the end of the table, or
/// else a limit of zero (as a `usize`); an absent start is the start 0.
pub proof fn law_page_refusals(c: Contract, from: Option<u128>, limit: Option<u64>)
    ensures
        c.stake_page(None, limit) == c.stake_page(Some(0), limit),
        ({
            let start: int = match from {
                Some(v) => v as int,
                None => 0,
            };
            &&& (c.entries().len() <= start) ==> c.stake_page(from, limit) == Err::<
                Entries,
                StakingError,
            >(StakingError::OutOfBounds)
            &&& (start < c.entries().len() && limit is Some && (limit->Some_0 as usize) == 0)
                ==> c.stake_page(from, limit) == Err::<Entries, StakingError>(
                StakingError::ZeroLimit,
            )
            &&& (start < c.entries().len() && (limit is None || (limit->Some_0 as usize) != 0))
                ==> c.stake_page(from, limit) is Ok
        }),
{
}

} // verus!
