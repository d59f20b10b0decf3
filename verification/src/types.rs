//! The plain values that the staking contract takes and gives: records,
//! configuration, the call context, the effects it asks the host to carry
//! out, and its errors.

use vstd::prelude::*;

use crate::store::{record_view, RecordView, StakeRecord};

verus! {

/// The staking state of one account.
#[derive(Debug, PartialEq, Eq)]
pub struct StakingInfo {
    pub address: String,
    pub token_ids: Vec<String>,
    pub claimed_amount: u128,
    pub unclaimed_amount: u128,
    pub claimed_timestamp: u64,
    pub create_unstake_timestamp: u64,
    pub last_timestamp: u64,
}

impl View for StakingInfo {
    type V = RecordView;

    open spec fn view(&self) -> RecordView {
        (
            self.address@,
            self.token_ids.deep_view(),
            self.claimed_amount,
            self.unclaimed_amount,
            self.claimed_timestamp,
            self.create_unstake_timestamp,
            self.last_timestamp,
        )
    }
}

impl StakingInfo {
    /// The staking state held by a stored record.
    pub fn from_record(r: StakeRecord) -> (info: StakingInfo)
        ensures
            info@ == record_view(r),
    {
        StakingInfo {
            address: r.0,
            token_ids: r.1,
            claimed_amount: r.2,
            unclaimed_amount: r.3,
            claimed_timestamp: r.4,
            create_unstake_timestamp: r.5,
            last_timestamp: r.6,
        }
    }
}

/// The contract's settings as a caller sees and sets them.
#[derive(Debug, PartialEq, Eq)]
pub struct ConfigInfo {
    pub nft_address: String,
    pub ft_address: String,
    pub daily_reward: u128,
    pub interval: u64,
    pub lock_time: u64,
    pub enabled: bool,
}

/// One entry of the staking table: the account and its staking state.
#[derive(Debug, PartialEq, Eq)]
pub struct StakingInfoJson {
    pub account_id: String,
    pub staking_info: StakingInfo,
}

/// The storage prefixes of the contract's collections, encoded as the
/// borsh encoding of this enum: the variant's index as one byte, then its
/// fields.
pub enum StorageKey {
    TokensPerOwner,
    TokensById,
    ConfigData,
    StorageDeposits,
    ByOwnerIdInner { account_id_hash: [u8; 32] },
}

/// The borsh encoding of a storage key.
pub open spec fn storage_key_bytes(key: StorageKey) -> Seq<u8> {
    match key {
        StorageKey::TokensPerOwner => seq![0u8],
        StorageKey::TokensById => seq![1u8],
        StorageKey::ConfigData => seq![2u8],
        StorageKey::StorageDeposits => seq![3u8],
        StorageKey::ByOwnerIdInner { account_id_hash } => seq![4u8] + account_id_hash@,
    }
}

impl StorageKey {
    /// The storage prefix that this key stands for.
    pub fn into_storage_key(self) -> (bytes: Vec<u8>)
        ensures
            bytes@ == storage_key_bytes(self),
    {
        let mut bytes: Vec<u8> = Vec::new();
        match self {
            StorageKey::TokensPerOwner => {
                bytes.push(0u8);
            },
            StorageKey::TokensById => {
                bytes.push(1u8);
            },
            StorageKey::ConfigData => {
                bytes.push(2u8);
            },
            StorageKey::StorageDeposits => {
                bytes.push(3u8);
            },
            StorageKey::ByOwnerIdInner { account_id_hash } => {
                bytes.push(4u8);
                let mut i: usize = 0;
                while i < 32
                    invariant
                        0 <= i <= 32,
                        bytes@ == seq![4u8] + account_id_hash@.subrange(0, i as int),
                    decreases 32 - i,
                {
                    bytes.push(account_id_hash[i]);
                    i = i + 1;
                    assert(account_id_hash@.subrange(0, i as int) =~= account_id_hash@.subrange(
                        0,
                        i - 1,
                    ).push(account_id_hash@[i - 1]));
                }
                assert(account_id_hash@.subrange(0, 32) =~= account_id_hash@);
            },
        }
        bytes
    }
}

/// What the host tells the contract about the call being made.
pub struct CallContext {
    /// The account that made the call.
    pub predecessor_account_id: String,
    /// The deposit attached to the call, in yoctoNEAR.
    pub attached_deposit: u128,
    /// The block timestamp, in nanoseconds.
    pub block_timestamp: u64,
}

/// The outcome of the promise that a callback receives.
pub enum PromiseOutcome {
    NotReady,
    Failed,
    Successful(Vec<u8>),
}

/// An event that the contract logs as a JSON line.
#[derive(Debug, PartialEq, Eq)]
pub enum Event {
    /// `{"type": "stake_nft", "params": {owner_id, nft_contract_id, token_id}}`
    StakeNft { owner_id: String, nft_contract_id: String, token_id: String },
    /// `{"type": "create_unstake", "params": {owner_id}}`
    CreateUnstake { owner_id: String },
    /// `{"type": "unstake_nft", "params": {owner_id, token_id}}`
    UnstakeNft { owner_id: String, token_id: String },
    /// `{"type": "claim_reward", "params": {owner_id, amount}}`
    ClaimReward { owner_id: String, amount: u128 },
}

/// Something the contract asks the host to do, in the order given.
#[derive(Debug, PartialEq, Eq)]
pub enum Effect {
    /// Call `ft_transfer(receiver_id, amount)` on `ft_contract` with one
    /// yoctoNEAR attached, then `callback_post_withdraw_deposit(ft_contract,
    /// amount)` on this contract.
    FtTransfer { ft_contract: String, receiver_id: String, amount: u128 },
    /// Call `nft_transfer(receiver_id, token_id)` on `nft_contract` with one
    /// yoctoNEAR attached.
    NftTransfer { nft_contract: String, receiver_id: String, token_id: String },
    /// Call `ft_balance_of(this contract)` on `ft_contract`, then
    /// `ft_balance_of_callback()` on this contract.
    FtBalanceOf { ft_contract: String },
    /// Log the event.
    Log(Event),
}

/// An event with its strings taken by their views.
pub enum EventView {
    StakeNft { owner_id: Seq<char>, nft_contract_id: Seq<char>, token_id: Seq<char> },
    CreateUnstake { owner_id: Seq<char> },
    UnstakeNft { owner_id: Seq<char>, token_id: Seq<char> },
    ClaimReward { owner_id: Seq<char>, amount: u128 },
}

/// An effect with its strings taken by their views.
pub enum EffectView {
    FtTransfer { ft_contract: Seq<char>, receiver_id: Seq<char>, amount: u128 },
    NftTransfer { nft_contract: Seq<char>, receiver_id: Seq<char>, token_id: Seq<char> },
    FtBalanceOf { ft_contract: Seq<char> },
    Log(EventView),
}

impl View for Event {
    type V = EventView;

    open spec fn view(&self) -> EventView {
        match self {
            Event::StakeNft { owner_id, nft_contract_id, token_id } => EventView::StakeNft {
                owner_id: owner_id@,
                nft_contract_id: nft_contract_id@,
                token_id: token_id@,
            },
            Event::CreateUnstake { owner_id } => EventView::CreateUnstake { owner_id: owner_id@ },
            Event::UnstakeNft { owner_id, token_id } => EventView::UnstakeNft {
                owner_id: owner_id@,
                token_id: token_id@,
            },
            Event::ClaimReward { owner_id, amount } => EventView::ClaimReward {
                owner_id: owner_id@,
                amount: *amount,
            },
        }
    }
}

impl View for Effect {
    type V = EffectView;

    open spec fn view(&self) -> EffectView {
        match self {
            Effect::FtTransfer { ft_contract, receiver_id, amount } => EffectView::FtTransfer {
                ft_contract: ft_contract@,
                receiver_id: receiver_id@,
                amount: *amount,
            },
            Effect::NftTransfer { nft_contract, receiver_id, token_id } => EffectView::NftTransfer {
                nft_contract: nft_contract@,
                receiver_id: receiver_id@,
                token_id: token_id@,
            },
            Effect::FtBalanceOf { ft_contract } => EffectView::FtBalanceOf {
                ft_contract: ft_contract@,
            },
            Effect::Log(e) => EffectView::Log(e@),
        }
    }
}

/// The views of a list of effects.
pub open spec fn effect_views(effects: Seq<Effect>) -> Seq<EffectView> {
    effects.map_values(|e: Effect| e@)
}

/// Why a call is refused. Each variant stands for the panic of the
/// contract that the call would otherwise hit.
#[derive(Debug, Clone, Copy, PartialEq, Eq, Structural)]
pub enum StakingError {
    /// The call must carry exactly one yoctoNEAR.
    RequiresOneYocto,
    /// Only the owner may make this call.
    OwnerOnly,
    /// The token does not come from the configured NFT contract.
    NotAllowedNft,
    /// The account has no staking record (during an operation on it).
    NoStakingNft,
    /// The account has no staking record (when its record is read).
    NoStakedNfts,
    /// There is no reward to claim.
    NoReward,
    /// Unstaking was not requested first.
    UnstakeNotCreated,
    /// The lock period after the unstake request has not passed.
    StillInLock,
    /// The start index is not below the number of staking records.
    OutOfBounds,
    /// A limit of zero was given.
    ZeroLimit,
    /// A callback was invoked without exactly one promise result.
    NotACallback,
    /// The promise result was not ready.
    PromiseNotReady,
    /// The promise result was not a JSON-encoded `u128` string.
    InvalidBalance,
    /// The reward interval is zero.
    DivisionByZero,
    /// An amount or timestamp computation does not fit its integer type.
    ArithmeticOverflow,
}

} // verus!
