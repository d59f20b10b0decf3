//! The staking contract: its state, what each call does to it, and what each
//! call asks the host to carry out.
//!
//! Every call takes what the host knows of it (caller, attached deposit,
//! block time) as a `CallContext`, and gives back either the effects to carry
//! out or the error that refuses the call. A refused call leaves the state
//! as it was.

use near_sdk::collections::{LookupMap, UnorderedMap};
use vstd::prelude::*;

use crate::decimal::{decimal_digits, decimal_string};
use crate::entries::{
    has_key, keys_unique, lemma_index_of, lemma_put_put, lemma_put_same, lemma_put_unique,
    lemma_take_out_unique, lookup, put, take_out,
};
use crate::host::{json_u128, parse_json_u128};
use crate::store::{
    deposit_map_new, record_view, stake_map_get, stake_map_insert, stake_map_len, stake_map_new,
    stake_map_nth, stake_map_remove, staked_entries, RecordView, StakeRecord,
};
use crate::types::{
    effect_views, CallContext, ConfigInfo, Effect, EffectView, Event, EventView, PromiseOutcome,
    StakingError, StakingInfo, StakingInfoJson, StorageKey,
};
use crate::{seconds, to_sec};

verus! {

/// The staking table as a sequence of `(account, record)` entries.
pub type Entries = Seq<(Seq<char>, RecordView)>;

/// The record `r` after accruing rewards up to `now_s` (seconds).
///
/// A record whose unstake was requested accrues nothing. Otherwise every
/// whole interval boundary passed since the last accrual earns
/// `daily_reward` per staked token, and the last accrual time becomes
/// `now_s`.
pub open spec fn accrued(r: RecordView, now_s: u64, interval: u64, daily_reward: u128) -> Result<
    RecordView,
    StakingError,
> {
    if r.5 != 0 {
        Ok(r)
    } else if interval == 0 {
        Err(StakingError::DivisionByZero)
    } else {
        let periods = now_s as int / interval as int - r.6 as int / interval as int;
        let weighted = periods * r.1.len();
        let reward = weighted * daily_reward;
        if periods < 0 || weighted > u128::MAX || reward > u128::MAX || r.3 + reward
            > u128::MAX {
            Err(StakingError::ArithmeticOverflow)
        } else {
            Ok((r.0, r.1, r.2, (r.3 + reward) as u128, r.4, r.5, now_s))
        }
    }
}

/// The effects of returning staked tokens to `owner`: for each token, in
/// order, its transfer on `nft` and the log line of its unstaking.
pub open spec fn token_effects(tokens: Seq<Seq<char>>, owner: Seq<char>, nft: Seq<char>) -> Seq<
    EffectView,
>
    decreases tokens.len(),
{
    if tokens.len() == 0 {
        Seq::empty()
    } else {
        token_effects(tokens.drop_last(), owner, nft) + seq![
            EffectView::NftTransfer {
                nft_contract: nft,
                receiver_id: owner,
                token_id: tokens.last(),
            },
            EffectView::Log(EventView::UnstakeNft { owner_id: owner, token_id: tokens.last() }),
        ]
    }
}

/// The end of the page of `len` entries that starts at `start` and holds at
/// most `limit` entries.
pub open spec fn page_end(len: int, start: int, limit: int) -> int {
    if start + limit < len {
        start + limit
    } else {
        len
    }
}

/// The `(account, record)` view of a listed entry.
pub open spec fn listing_view(j: StakingInfoJson) -> (Seq<char>, RecordView) {
    (j.account_id@, j.staking_info@)
}

/// The staking contract's state.
pub struct Contract {
    pub owner_id: String,
    pub staking_per_owner: UnorderedMap<String, StakeRecord>,
    pub storage_deposits: LookupMap<String, u128>,
    pub nft_address: String,
    pub ft_address: String,
    pub daily_reward: u128,
    pub interval: u64,
    pub lock_time: u64,
    pub enabled: bool,
}

fn check_one_yocto(ctx: &CallContext) -> (res: Result<(), StakingError>)
    ensures
        res is Ok <==> ctx.attached_deposit == 1,
        res is Err ==> res == Err::<(), StakingError>(StakingError::RequiresOneYocto),
{
    if ctx.attached_deposit == 1 {
        Ok(())
    } else {
        Err(StakingError::RequiresOneYocto)
    }
}

fn accrue_record(rec: StakeRecord, now: u64, interval: u64, daily_reward: u128) -> (res: Result<
    StakeRecord,
    StakingError,
>)
    ensures
        match accrued(record_view(rec), seconds(now), interval, daily_reward) {
            Ok(a) => res matches Ok(r) && record_view(r) == a,
            Err(e) => res == Err::<StakeRecord, StakingError>(e),
        },
{
    if rec.5 != 0 {
        return Ok(rec);
    }
    if interval == 0 {
        return Err(StakingError::DivisionByZero);
    }
    let now_s = to_sec(now);
    let current = (now_s as u128) / (interval as u128);
    let last = (rec.6 as u128) / (interval as u128);
    if current < last {
        return Err(StakingError::ArithmeticOverflow);
    }
    let periods = current - last;
    let count = rec.1.len() as u128;
    let weighted = match periods.checked_mul(count) {
        Some(w) => w,
        None => {
            return Err(StakingError::ArithmeticOverflow);
        },
    };
    let reward = match weighted.checked_mul(daily_reward) {
        Some(w) => w,
        None => {
            return Err(StakingError::ArithmeticOverflow);
        },
    };
    let total = match rec.3.checked_add(reward) {
        Some(t) => t,
        None => {
            return Err(StakingError::ArithmeticOverflow);
        },
    };
    Ok((rec.0, rec.1, rec.2, total, rec.4, rec.5, now_s))
}

impl Contract {
    /// The staking table's entries, in iteration order.
    pub open spec fn entries(&self) -> Entries {
        staked_entries(self.staking_per_owner)
    }

    /// The staking table lists no account twice.
    pub open spec fn wf(&self) -> bool {
        keys_unique(self.entries())
    }

    /// Everything but the staking table is the same in `self` and `other`.
    pub open spec fn same_settings(&self, other: &Contract) -> bool {
        &&& self.owner_id == other.owner_id
        &&& self.storage_deposits == other.storage_deposits
        &&& self.nft_address == other.nft_address
        &&& self.ft_address == other.ft_address
        &&& self.daily_reward == other.daily_reward
        &&& self.interval == other.interval
        &&& self.lock_time == other.lock_time
        &&& self.enabled == other.enabled
    }

    /// The record of `account` after accruing rewards at block time `now`.
    pub open spec fn accrue_for(&self, account: Seq<char>, now: u64) -> Result<
        RecordView,
        StakingError,
    > {
        match lookup(self.entries(), account) {
            None => Err(StakingError::NoStakingNft),
            Some(r) => accrued(r, seconds(now), self.interval, self.daily_reward),
        }
    }

    /// The staking table after `owner` stakes `token` received from
    /// `nft_contract_id` at block time `now`.
    pub open spec fn stake_outcome(
        &self,
        nft_contract_id: Seq<char>,
        owner: Seq<char>,
        token: Seq<char>,
        now: u64,
    ) -> Result<Entries, StakingError> {
        if nft_contract_id != self.nft_address@ {
            Err(StakingError::NotAllowedNft)
        } else if !has_key(self.entries(), owner) {
            let now_s = seconds(now);
            Ok(put(self.entries(), owner, (owner, seq![token], 0u128, 0u128, now_s, 0u64, now_s)))
        } else {
            match self.accrue_for(owner, now) {
                Err(e) => Err(e),
                Ok(a) => Ok(put(self.entries(), owner, (a.0, a.1.push(token), a.2, a.3, a.4, a.5, a.6))),
            }
        }
    }

    /// The staking table and the effects of `account` claiming its reward.
    pub open spec fn claim_outcome(&self, account: Seq<char>, deposit: u128, now: u64) -> Result<
        (Entries, Seq<EffectView>),
        StakingError,
    > {
        if deposit != 1 {
            Err(StakingError::RequiresOneYocto)
        } else {
            match self.accrue_for(account, now) {
                Err(e) => Err(e),
                Ok(a) => if a.3 == 0 {
                    Err(StakingError::NoReward)
                } else if a.2 + a.3 > u128::MAX {
                    Err(StakingError::ArithmeticOverflow)
                } else {
                    Ok(
                        (
                            put(
                                self.entries(),
                                account,
                                (a.0, a.1, (a.2 + a.3) as u128, 0u128, seconds(now), a.5, a.6),
                            ),
                            seq![
                                EffectView::FtTransfer {
                                    ft_contract: self.ft_address@,
                                    receiver_id: account,
                                    amount: a.3,
                                },
                            ],
                        ),
                    )
                },
            }
        }
    }

    /// The staking table after `account` asks to unstake.
    pub open spec fn create_unstake_outcome(&self, account: Seq<char>, deposit: u128, now: u64) -> Result<
        Entries,
        StakingError,
    > {
        if deposit != 1 {
            Err(StakingError::RequiresOneYocto)
        } else {
            match self.accrue_for(account, now) {
                Err(e) => Err(e),
                Ok(a) => Ok(put(self.entries(), account, (a.0, a.1, a.2, a.3, a.4, seconds(now), a.6))),
            }
        }
    }

    /// The staking table and the effects of `account` taking its tokens and
    /// its unclaimed reward back.
    pub open spec fn fetch_unstake_outcome(&self, account: Seq<char>, now: u64) -> Result<
        (Entries, Seq<EffectView>),
        StakingError,
    > {
        match self.accrue_for(account, now) {
            Err(e) => Err(e),
            Ok(a) => if a.5 == 0 {
                Err(StakingError::UnstakeNotCreated)
            } else if self.lock_time + a.5 > u64::MAX {
                Err(StakingError::ArithmeticOverflow)
            } else if seconds(now) <= self.lock_time + a.5 {
                Err(StakingError::StillInLock)
            } else {
                Ok(
                    (
                        take_out(self.entries(), account),
                        (if a.3 > 0 {
                            seq![
                                EffectView::FtTransfer {
                                    ft_contract: self.ft_address@,
                                    receiver_id: account,
                                    amount: a.3,
                                },
                            ]
                        } else {
                            Seq::empty()
                        }) + token_effects(a.1, a.0, self.nft_address@),
                    ),
                )
            },
        }
    }

    /// The page of the staking table that `get_all_stake_info` lists: it
    /// starts at `from_index` (zero when absent), which must be below the
    /// number of entries, and holds at most `limit` entries (taken as a
    /// `usize`; no bound when absent), where a limit must not be zero.
    pub open spec fn stake_page(&self, from_index: Option<u128>, limit: Option<u64>) -> Result<
        Entries,
        StakingError,
    > {
        let start: int = match from_index {
            Some(v) => v as int,
            None => 0,
        };
        let lim: int = match limit {
            Some(v) => (v as usize) as int,
            None => usize::MAX as int,
        };
        let len = self.entries().len() as int;
        if len <= start {
            Err(StakingError::OutOfBounds)
        } else if lim == 0 {
            Err(StakingError::ZeroLimit)
        } else {
            Ok(self.entries().subrange(start, page_end(len, start, lim)))
        }
    }

    /// Creates the contract with an empty staking table, staking disabled.
    pub fn new(
        owner_id: String,
        nft_address: String,
        ft_address: String,
        daily_reward: u128,
        interval: u64,
        lock_time: u64,
    ) -> (this: Contract)
        ensures
            this.wf(),
            this.entries() == Seq::<(Seq<char>, RecordView)>::empty(),
            this.owner_id == owner_id,
            this.nft_address == nft_address,
            this.ft_address == ft_address,
            this.daily_reward == daily_reward,
            this.interval == interval,
            this.lock_time == lock_time,
            !this.enabled,
    {
        Contract {
            staking_per_owner: stake_map_new(StorageKey::TokensPerOwner.into_storage_key()),
            owner_id,
            storage_deposits: deposit_map_new(StorageKey::StorageDeposits.into_storage_key()),
            nft_address,
            ft_address,
            daily_reward,
            interval,
            lock_time,
            enabled: false,
        }
    }

    /// Hands the contract to `owner_id`. The call must carry one yoctoNEAR
    /// and come from the owner.
    pub fn update_owner(&mut self, ctx: &CallContext, owner_id: String) -> (res: Result<
        (),
        StakingError,
    >)
        ensures
            ctx.attached_deposit != 1 ==> res == Err::<(), StakingError>(
                StakingError::RequiresOneYocto,
            ),
            ctx.attached_deposit == 1 && ctx.predecessor_account_id@ != old(self).owner_id@ ==> res
                == Err::<(), StakingError>(StakingError::OwnerOnly),
            res is Err ==> *final(self) == *old(self),
            res is Ok <==> ctx.attached_deposit == 1 && ctx.predecessor_account_id@ == old(self).owner_id@,
            res is Ok ==> *final(self) == (Contract { owner_id: owner_id, ..*old(self) }),
    {
        check_one_yocto(ctx)?;
        if !(ctx.predecessor_account_id == self.owner_id) {
            return Err(StakingError::OwnerOnly);
        }
        self.owner_id = owner_id;
        Ok(())
    }

    /// Turns staking on or off. The call must carry one yoctoNEAR and come
    /// from the owner.
    pub fn update_enable(&mut self, ctx: &CallContext, enabled: bool) -> (res: Result<
        (),
        StakingError,
    >)
        ensures
            ctx.attached_deposit != 1 ==> res == Err::<(), StakingError>(
                StakingError::RequiresOneYocto,
            ),
            ctx.attached_deposit == 1 && ctx.predecessor_account_id@ != old(self).owner_id@ ==> res
                == Err::<(), StakingError>(StakingError::OwnerOnly),
            res is Err ==> *final(self) == *old(self),
            res is Ok <==> ctx.attached_deposit == 1 && ctx.predecessor_account_id@ == old(self).owner_id@,
            res is Ok ==> *final(self) == (Contract { enabled: enabled, ..*old(self) }),
    {
        check_one_yocto(ctx)?;
        if !(ctx.predecessor_account_id == self.owner_id) {
            return Err(StakingError::OwnerOnly);
        }
        self.enabled = enabled;
        Ok(())
    }

    /// Replaces the settings with `config`. The call must carry one
    /// yoctoNEAR; the caller is not checked.
    pub fn update_config(&mut self, ctx: &CallContext, config: ConfigInfo) -> (res: Result<
        (),
        StakingError,
    >)
        ensures
            res is Ok <==> ctx.attached_deposit == 1,
            res is Err ==> res == Err::<(), StakingError>(StakingError::RequiresOneYocto)
                && *final(self) == *old(self),
            res is Ok ==> *final(self) == (Contract {
                nft_address: config.nft_address,
                ft_address: config.ft_address,
                daily_reward: config.daily_reward,
                interval: config.interval,
                lock_time: config.lock_time,
                enabled: config.enabled,
                ..*old(self)
            }),
    {
        check_one_yocto(ctx)?;
        self.interval = config.interval;
        self.daily_reward = config.daily_reward;
        self.lock_time = config.lock_time;
        self.ft_address = config.ft_address;
        self.nft_address = config.nft_address;
        self.enabled = config.enabled;
        Ok(())
    }

    /// The record of `account` after accruing rewards at block time `now`,
    /// without storing it.
    fn accrued_record(&self, account: &String, now: u64) -> (res: Result<StakeRecord, StakingError>)
        requires
            self.wf(),
        ensures
            match self.accrue_for(account@, now) {
                Ok(a) => res matches Ok(r) && record_view(r) == a,
                Err(e) => res == Err::<StakeRecord, StakingError>(e),
            },
    {
        match stake_map_get(&self.staking_per_owner, account) {
            None => Err(StakingError::NoStakingNft),
            Some(rec) => accrue_record(rec, now, self.interval, self.daily_reward),
        }
    }

    /// Accrues the rewards of `owner_id` up to block time `now` and stores
    /// the result (a record whose unstake was requested is left as it is).
    fn update_unclaimed_amount(&mut self, owner_id: &String, now: u64) -> (res: Result<
        StakeRecord,
        StakingError,
    >)
        requires
            old(self).wf(),
        ensures
            final(self).wf(),
            final(self).same_settings(&*old(self)),
            match old(self).accrue_for(owner_id@, now) {
                Ok(a) => res matches Ok(r) && record_view(r) == a && final(self).entries() == put(
                    old(self).entries(),
                    owner_id@,
                    a,
                ),
                Err(e) => res == Err::<StakeRecord, StakingError>(e) && *final(self) == *old(self),
            },
    {
        let r = self.accrued_record(owner_id, now)?;
        proof {
            lemma_put_unique(self.entries(), owner_id@, record_view(r));
        }
        if r.5 == 0 {
            stake_map_insert(&mut self.staking_per_owner, owner_id, &r);
        } else {
            proof {
                lemma_index_of(self.entries(), owner_id@);
                lemma_put_same(self.entries(), owner_id@);
            }
        }
        Ok(r)
    }

    /// Stakes `token_id` for `previous_owner_id`, received from
    /// `nft_contract_id` at block time `now`.
    pub(crate) fn _internal_receive_nft(
        &mut self,
        now: u64,
        nft_contract_id: String,
        previous_owner_id: String,
        token_id: String,
    ) -> (res: Result<Vec<Effect>, StakingError>)
        requires
            old(self).wf(),
        ensures
            final(self).wf(),
            match old(self).stake_outcome(nft_contract_id@, previous_owner_id@, token_id@, now) {
                Ok(t) => res matches Ok(effects) && final(self).entries() == t && final(self).same_settings(&*old(self)) && effect_views(effects@) == seq![
                    EffectView::Log(
                        EventView::StakeNft {
                            owner_id: previous_owner_id@,
                            nft_contract_id: nft_contract_id@,
                            token_id: token_id@,
                        },
                    ),
                ],
                Err(e) => res == Err::<Vec<Effect>, StakingError>(e) && *final(self) == *old(self),
            },
    {
        if !(nft_contract_id == self.nft_address) {
            return Err(StakingError::NotAllowedNft);
        }
        let ghost entries0 = self.entries();
        let now_s = to_sec(now);
        let found = stake_map_get(&self.staking_per_owner, &previous_owner_id);
        let record: StakeRecord = match found {
            None => {
                let tokens = vec![token_id.clone()];
                assert(tokens.deep_view() =~= seq![token_id@]);
                (previous_owner_id.clone(), tokens, 0u128, 0u128, now_s, 0u64, now_s)
            },
            Some(_) => {
                let updated = self.update_unclaimed_amount(&previous_owner_id, now);
                match updated {
                    Err(e) => {
                        return Err(e);
                    },
                    Ok(r) => {
                        let mut r = r;
                        let ghost accrued_view = record_view(r);
                        let ghost tokens0 = r.1.deep_view();
                        r.1.push(token_id.clone());
                        assert(r.1.deep_view() =~= tokens0.push(token_id@));
                        proof {
                            lemma_put_put(
                                entries0,
                                previous_owner_id@,
                                accrued_view,
                                record_view(r),
                            );
                        }
                        r
                    },
                }
            },
        };
        proof {
            lemma_put_unique(entries0, previous_owner_id@, record_view(record));
        }
        stake_map_insert(&mut self.staking_per_owner, &previous_owner_id, &record);
        let effects = vec![
            Effect::Log(
                Event::StakeNft { owner_id: previous_owner_id, nft_contract_id, token_id },
            ),
        ];
        assert(effect_views(effects@) =~= seq![
            EffectView::Log(
                EventView::StakeNft {
                    owner_id: previous_owner_id@,
                    nft_contract_id: nft_contract_id@,
                    token_id: token_id@,
                },
            ),
        ]);
        Ok(effects)
    }

    /// Pays `ctx`'s caller its accrued reward: the reward is transferred,
    /// added to the claimed amount, and the unclaimed amount drops to zero.
    /// The call must carry one yoctoNEAR.
    pub fn claim_rewards(&mut self, ctx: &CallContext) -> (res: Result<Vec<Effect>, StakingError>)
        requires
            old(self).wf(),
        ensures
            final(self).wf(),
            match old(self).claim_outcome(
                ctx.predecessor_account_id@,
                ctx.attached_deposit,
                ctx.block_timestamp,
            ) {
                Ok((t, effects)) => res matches Ok(out) && final(self).entries() == t
                    && final(self).same_settings(&*old(self)) && effect_views(out@) == effects,
                Err(e) => res == Err::<Vec<Effect>, StakingError>(e) && *final(self) == *old(self),
            },
    {
        check_one_yocto(ctx)?;
        let account = &ctx.predecessor_account_id;
        let now = ctx.block_timestamp;
        let ghost entries0 = self.entries();
        let r = self.accrued_record(account, now)?;
        if r.3 == 0 {
            return Err(StakingError::NoReward);
        }
        let amount = r.3;
        let claimed = match r.2.checked_add(amount) {
            Some(c) => c,
            None => {
                return Err(StakingError::ArithmeticOverflow);
            },
        };
        let record: StakeRecord = (r.0, r.1, claimed, 0u128, to_sec(now), r.5, r.6);
        proof {
            lemma_put_unique(entries0, account@, record_view(record));
        }
        stake_map_insert(&mut self.staking_per_owner, account, &record);
        let effects = vec![
            Effect::FtTransfer {
                ft_contract: self.ft_address.clone(),
                receiver_id: account.clone(),
                amount,
            },
        ];
        assert(effect_views(effects@) =~= seq![
            EffectView::FtTransfer { ft_contract: self.ft_address@, receiver_id: account@, amount },
        ]);
        Ok(effects)
    }

    /// Records that `ctx`'s caller asks to unstake, at the call's time; the
    /// lock period runs from then. Rewards accrued so far are stored first.
    /// The call must carry one yoctoNEAR.
    pub fn create_unstake(&mut self, ctx: &CallContext) -> (res: Result<Vec<Effect>, StakingError>)
        requires
            old(self).wf(),
        ensures
            final(self).wf(),
            match old(self).create_unstake_outcome(
                ctx.predecessor_account_id@,
                ctx.attached_deposit,
                ctx.block_timestamp,
            ) {
                Ok(t) => res matches Ok(out) && final(self).entries() == t && final(self).same_settings(
                    &*old(self),
                ) && effect_views(out@) == seq![
                    EffectView::Log(
                        EventView::CreateUnstake { owner_id: ctx.predecessor_account_id@ },
                    ),
                ],
                Err(e) => res == Err::<Vec<Effect>, StakingError>(e) && *final(self) == *old(self),
            },
    {
        check_one_yocto(ctx)?;
        let account = &ctx.predecessor_account_id;
        let now = ctx.block_timestamp;
        let ghost entries0 = self.entries();
        let r = self.accrued_record(account, now)?;
        let record: StakeRecord = (r.0, r.1, r.2, r.3, r.4, to_sec(now), r.6);
        proof {
            lemma_put_unique(entries0, account@, record_view(record));
        }
        stake_map_insert(&mut self.staking_per_owner, account, &record);
        let effects = vec![Effect::Log(Event::CreateUnstake { owner_id: account.clone() })];
        assert(effect_views(effects@) =~= seq![
            EffectView::Log(EventView::CreateUnstake { owner_id: account@ }),
        ]);
        Ok(effects)
    }

    /// Gives `ctx`'s caller its tokens and its unclaimed reward back once
    /// the lock period after its unstake request has passed, and removes its
    /// record. The tokens go to the address held in the record.
    pub fn fetch_unstake(&mut self, ctx: &CallContext) -> (res: Result<Vec<Effect>, StakingError>)
        requires
            old(self).wf(),
        ensures
            final(self).wf(),
            match old(self).fetch_unstake_outcome(ctx.predecessor_account_id@, ctx.block_timestamp) {
                Ok((t, effects)) => res matches Ok(out) && final(self).entries() == t
                    && final(self).same_settings(&*old(self)) && effect_views(out@) == effects,
                Err(e) => res == Err::<Vec<Effect>, StakingError>(e) && *final(self) == *old(self),
            },
    {
        let account = &ctx.predecessor_account_id;
        let now = ctx.block_timestamp;
        let ghost entries0 = self.entries();
        let r = self.accrued_record(account, now)?;
        if r.5 == 0 {
            return Err(StakingError::UnstakeNotCreated);
        }
        let unlock = match self.lock_time.checked_add(r.5) {
            Some(u) => u,
            None => {
                return Err(StakingError::ArithmeticOverflow);
            },
        };
        if !(to_sec(now) > unlock) {
            return Err(StakingError::StillInLock);
        }
        let mut effects: Vec<Effect> = Vec::new();
        if r.3 > 0 {
            effects.push(
                Effect::FtTransfer {
                    ft_contract: self.ft_address.clone(),
                    receiver_id: account.clone(),
                    amount: r.3,
                },
            );
        }
        let ghost head = effect_views(effects@);
        assert(head == (if r.3 > 0 {
            seq![
                EffectView::FtTransfer {
                    ft_contract: self.ft_address@,
                    receiver_id: account@,
                    amount: r.3,
                },
            ]
        } else {
            Seq::<EffectView>::empty()
        }));
        let ghost tokens = r.1.deep_view();
        let mut i: usize = 0;
        while i < r.1.len()
            invariant
                0 <= i <= r.1.len(),
                tokens == r.1.deep_view(),
                effect_views(effects@) == head + token_effects(
                    tokens.take(i as int),
                    r.0@,
                    self.nft_address@,
                ),
            decreases r.1.len() - i,
        {
            let ghost before = effect_views(effects@);
            let token = r.1[i].clone();
            assert(token@ == tokens[i as int]);
            let transfer = Effect::NftTransfer {
                nft_contract: self.nft_address.clone(),
                receiver_id: r.0.clone(),
                token_id: token.clone(),
            };
            let logged = Effect::Log(Event::UnstakeNft { owner_id: r.0.clone(), token_id: token });
            let ghost step = seq![transfer@, logged@];
            assert(step == seq![
                EffectView::NftTransfer {
                    nft_contract: self.nft_address@,
                    receiver_id: r.0@,
                    token_id: tokens[i as int],
                },
                EffectView::Log(
                    EventView::UnstakeNft { owner_id: r.0@, token_id: tokens[i as int] },
                ),
            ]);
            effects.push(transfer);
            effects.push(logged);
            assert(effect_views(effects@) =~= before + step);
            assert(tokens.take(i + 1).drop_last() =~= tokens.take(i as int));
            assert(tokens.take(i + 1).last() == tokens[i as int]);
            assert(token_effects(tokens.take(i + 1), r.0@, self.nft_address@) == token_effects(
                tokens.take(i as int),
                r.0@,
                self.nft_address@,
            ) + step);
            i = i + 1;
            assert(effect_views(effects@) =~= head + token_effects(
                tokens.take(i as int),
                r.0@,
                self.nft_address@,
            ));
        }
        assert(tokens.take(i as int) =~= tokens);
        proof {
            lemma_take_out_unique(entries0, account@);
        }
        stake_map_remove(&mut self.staking_per_owner, account);
        Ok(effects)
    }

    /// The owner.
    pub fn get_owner(&self) -> (owner: String)
        ensures
            owner == self.owner_id,
    {
        self.owner_id.clone()
    }

    /// The current settings.
    pub fn get_config(&self) -> (config: ConfigInfo)
        ensures
            config.nft_address == self.nft_address,
            config.ft_address == self.ft_address,
            config.daily_reward == self.daily_reward,
            config.interval == self.interval,
            config.lock_time == self.lock_time,
            config.enabled == self.enabled,
    {
        ConfigInfo {
            nft_address: self.nft_address.clone(),
            ft_address: self.ft_address.clone(),
            daily_reward: self.daily_reward,
            interval: self.interval,
            lock_time: self.lock_time,
            enabled: self.enabled,
        }
    }

    /// Whether staking is enabled.
    pub fn get_enable_status(&self) -> (enabled: bool)
        ensures
            enabled == self.enabled,
    {
        self.enabled
    }

    /// The query of this contract's balance of the reward token.
    pub fn get_total_amount(&self) -> (query: Effect)
        ensures
            query@ == (EffectView::FtBalanceOf { ft_contract: self.ft_address@ }),
    {
        Effect::FtBalanceOf { ft_contract: self.ft_address.clone() }
    }

    /// The staking state of `owner`.
    pub fn get_stake_info(&self, owner: String) -> (res: Result<StakingInfo, StakingError>)
        requires
            self.wf(),
        ensures
            match lookup(self.entries(), owner@) {
                Some(r) => res matches Ok(info) && info@ == r,
                None => res == Err::<StakingInfo, StakingError>(StakingError::NoStakedNfts),
            },
    {
        match stake_map_get(&self.staking_per_owner, &owner) {
            Some(r) => Ok(StakingInfo::from_record(r)),
            None => Err(StakingError::NoStakedNfts),
        }
    }

    /// A page of the staking table in iteration order: it starts at
    /// `from_index` (zero when absent), which must be below the number of
    /// entries, and holds at most `limit` entries (no bound when absent),
    /// where a limit must not be zero.
    pub fn get_all_stake_info(&self, from_index: Option<u128>, limit: Option<u64>) -> (res: Result<
        Vec<StakingInfoJson>,
        StakingError,
    >)
        requires
            self.entries().len() <= usize::MAX,
        ensures
            match self.stake_page(from_index, limit) {
                Ok(entries) => res matches Ok(page) && page@.map_values(
                    |j: StakingInfoJson| listing_view(j),
                ) == entries,
                Err(e) => res == Err::<Vec<StakingInfoJson>, StakingError>(e),
            },
    {
        let start: u128 = match from_index {
            Some(v) => v,
            None => 0,
        };
        let len = stake_map_len(&self.staking_per_owner);
        if !((len as u128) > start) {
            return Err(StakingError::OutOfBounds);
        }
        let lim: usize = match limit {
            Some(v) => v as usize,
            None => usize::MAX,
        };
        if lim == 0 {
            return Err(StakingError::ZeroLimit);
        }
        let first = start as u64;
        let end: u64 = if (first as u128) + (lim as u128) < (len as u128) {
            first + lim as u64
        } else {
            len
        };
        let ghost entries = self.entries();
        let mut page: Vec<StakingInfoJson> = Vec::new();
        let mut i: u64 = first;
        while i < end
            invariant
                first <= i <= end <= len,
                len == entries.len(),
                entries == self.entries(),
                len <= usize::MAX,
                page@.map_values(|j: StakingInfoJson| listing_view(j)) == entries.subrange(
                    first as int,
                    i as int,
                ),
            decreases end - i,
        {
            let entry = stake_map_nth(&self.staking_per_owner, i);
            match entry {
                Some(e) => {
                    let ghost before = page@.map_values(|j: StakingInfoJson| listing_view(j));
                    let item = StakingInfoJson {
                        account_id: e.0,
                        staking_info: StakingInfo::from_record(e.1),
                    };
                    assert(listing_view(item) == entries[i as int]);
                    page.push(item);
                    assert(page@.map_values(|j: StakingInfoJson| listing_view(j)) =~= before.push(
                        entries[i as int],
                    ));
                    assert(entries.subrange(first as int, i + 1) =~= entries.subrange(
                        first as int,
                        i as int,
                    ).push(entries[i as int]));
                },
                None => {
                    assert(false);
                },
            }
            i = i + 1;
        }
        Ok(page)
    }

    /// The answer to the balance query of `get_total_amount`: the balance in
    /// decimal, or a fixed message when the query failed. The callback must
    /// receive exactly one promise result, and it must be ready.
    pub fn ft_balance_of_callback(&mut self, promise_results_count: u64, result: PromiseOutcome) -> (res:
        Result<String, StakingError>)
        ensures
            *final(self) == *old(self),
            promise_results_count != 1 ==> res == Err::<String, StakingError>(
                StakingError::NotACallback,
            ),
            promise_results_count == 1 ==> match result {
                PromiseOutcome::NotReady => res == Err::<String, StakingError>(
                    StakingError::PromiseNotReady,
                ),
                PromiseOutcome::Failed => res matches Ok(text) && text@
                    == "Marble: ft balance error"@,
                PromiseOutcome::Successful(bytes) => match json_u128(bytes@) {
                    Some(balance) => res matches Ok(text) && text@ == decimal_digits(
                        balance as nat,
                    ),
                    None => res == Err::<String, StakingError>(StakingError::InvalidBalance),
                },
            },
    {
        if promise_results_count != 1 {
            return Err(StakingError::NotACallback);
        }
        match result {
            PromiseOutcome::NotReady => Err(StakingError::PromiseNotReady),
            PromiseOutcome::Failed => Ok(String::from_str("Marble: ft balance error")),
            PromiseOutcome::Successful(bytes) => match parse_json_u128(&bytes) {
                Some(balance) => Ok(decimal_string(balance)),
                None => Err(StakingError::InvalidBalance),
            },
        }
    }

    /// Logs a finished reward transfer and answers zero.
    pub fn callback_post_withdraw_deposit(&mut self, owner_id: String, amount: u128) -> (res: (
        u128,
        Vec<Effect>,
    ))
        ensures
            *final(self) == *old(self),
            res.0 == 0,
            effect_views(res.1@) == seq![
                EffectView::Log(EventView::ClaimReward { owner_id: owner_id@, amount }),
            ],
    {
        let effects = vec![Effect::Log(Event::ClaimReward { owner_id, amount })];
        assert(effect_views(effects@) =~= seq![
            EffectView::Log(EventView::ClaimReward { owner_id: owner_id@, amount }),
        ]);
        (0, effects)
    }
}

} // verus!
