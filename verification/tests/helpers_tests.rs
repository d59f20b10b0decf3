use nft_staking::decimal::decimal_string;
use nft_staking::types::StorageKey;
use nft_staking::{hash_account_id, to_sec};

#[test]
fn to_sec_truncates_nanoseconds() {
    assert_eq!(to_sec(0), 0);
    assert_eq!(to_sec(999_999_999), 0);
    assert_eq!(to_sec(1_000_000_000), 1);
    assert_eq!(to_sec(1_725_029_869_123_456_789), 1_725_029_869);
    assert_eq!(to_sec(u64::MAX), 18_446_744_073);
}

#[test]
fn hash_account_id_is_sha256() {
    assert_eq!(
        hash_account_id(&"alice.near".to_string()),
        [
            45, 213, 221, 165, 64, 118, 123, 58, 26, 163, 53, 68, 188, 186, 56, 4, 47, 77, 246,
            222, 155, 221, 180, 103, 152, 178, 148, 129, 200, 66, 197, 88
        ]
    );
    assert_eq!(
        hash_account_id(&"bob".to_string()),
        [
            129, 182, 55, 216, 252, 210, 198, 218, 99, 89, 230, 150, 49, 19, 161, 23, 13, 231,
            149, 228, 183, 37, 184, 77, 30, 11, 76, 253, 158, 197, 140, 233
        ]
    );
}

#[test]
fn decimal_strings() {
    assert_eq!(decimal_string(0), "0");
    assert_eq!(decimal_string(9), "9");
    assert_eq!(decimal_string(10), "10");
    assert_eq!(decimal_string(1_000_007), "1000007");
    assert_eq!(decimal_string(u128::MAX), u128::MAX.to_string());
}

#[test]
fn storage_keys_encode_as_borsh() {
    assert_eq!(StorageKey::TokensPerOwner.into_storage_key(), vec![0u8]);
    assert_eq!(StorageKey::TokensById.into_storage_key(), vec![1u8]);
    assert_eq!(StorageKey::ConfigData.into_storage_key(), vec![2u8]);
    assert_eq!(StorageKey::StorageDeposits.into_storage_key(), vec![3u8]);
    let mut expected = vec![4u8];
    expected.extend((0u8..32).collect::<Vec<u8>>());
    let mut hash = [0u8; 32];
    for i in 0..32 {
        hash[i] = i as u8;
    }
    assert_eq!(StorageKey::ByOwnerIdInner { account_id_hash: hash }.into_storage_key(), expected);
}
