//! Calls into near-sdk that compute on plain values: hashing and the JSON
//! decoding of a `U128`. Their results are named, not restated; nothing here
//! is proved.

use near_sdk::json_types::U128;
use vstd::prelude::*;

verus! {

/// The SHA-256 digest that near-sdk's `env::sha256` gives for the UTF-8
/// bytes of `text`.
pub uninterp spec fn sha256_of(text: Seq<char>) -> Seq<u8>;

/// The value that near-sdk's `serde_json::from_slice::<U128>` decodes from
/// `bytes`, or `None` where decoding fails.
pub uninterp spec fn json_u128(bytes: Seq<u8>) -> Option<u128>;

/// `env::sha256` on the UTF-8 bytes of `text`. Its result is named
/// `sha256_of`; near-sdk documents it as a 32-byte hash.
#[verifier::external_body]
pub(crate) fn sha256_of_str(text: &String) -> (digest: Vec<u8>)
    ensures
        digest@ == sha256_of(text@),
        digest@.len() == 32,
{
    near_sdk::env::sha256(text.as_bytes())
}

/// `serde_json::from_slice::<U128>` (a JSON string holding a decimal
/// `u128`), with a decoding error given as `None`. Its result is named
/// `json_u128`.
#[verifier::external_body]
pub(crate) fn parse_json_u128(bytes: &Vec<u8>) -> (value: Option<u128>)
    ensures
        value == json_u128(bytes@),
{
    near_sdk::serde_json::from_slice::<U128>(bytes).ok().map(|b| b.0)
}

} // verus!
