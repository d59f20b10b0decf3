//! A staking pool for NFTs: accounts stake tokens, accrue a fixed reward per
//! token and per elapsed interval, claim the reward, and unstake their tokens
//! after a lock period.

pub mod contract;
pub mod decimal;
pub mod entries;
pub mod host;
pub mod laws;
pub mod nft_callbacks;
pub mod store;
pub mod types;

use vstd::prelude::*;

use crate::host::{sha256_of, sha256_of_str};

verus! {

/// The id of an NFT.
pub type TokenId = String;

/// A block timestamp in nanoseconds, in whole seconds.
pub open spec fn seconds(timestamp: u64) -> u64 {
    timestamp / 1_000_000_000
}

/// Converts a block timestamp in nanoseconds to whole seconds.
pub fn to_sec(timestamp: u64) -> (secs: u64)
    ensures
        secs == seconds(timestamp),
{
    timestamp / 1_000_000_000
}

/// The SHA-256 hash of an account id's UTF-8 bytes.
pub fn hash_account_id(account_id: &String) -> (hash: [u8; 32])
    ensures
        hash@ == sha256_of(account_id@),
{
    let digest = sha256_of_str(account_id);
    let mut hash: [u8; 32] = [0u8; 32];
    let mut i: usize = 0;
    while i < 32
        invariant
            0 <= i <= 32,
            digest@.len() == 32,
            forall|j: int| 0 <= j < i ==> hash@[j] == digest@[j],
        decreases 32 - i,
    {
        hash[i] = digest[i];
        i = i + 1;
    }
    assert(hash@ =~= digest@);
    hash
}

} // verus!
