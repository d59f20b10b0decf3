use near_sdk::test_utils::accounts;
use nft_staking::contract::Contract;
use nft_staking::nft_callbacks::NonFungibleTokenReceiver;
use nft_staking::types::{
    CallContext, ConfigInfo, Effect, Event, PromiseOutcome, StakingError, StakingInfo,
};

const NS: u64 = 1_000_000_000;

fn setup_contract() -> Contract {
    Contract::new(
        accounts(0).to_string(),
        accounts(1).to_string(),
        accounts(2).to_string(),
        100,
        1000000,
        1000000000,
    )
}

fn ctx(caller: &str, deposit: u128, secs: u64) -> CallContext {
    CallContext {
        predecessor_account_id: caller.to_string(),
        attached_deposit: deposit,
        block_timestamp: secs * NS,
    }
}

/// A contract whose NFT contract is "nft", reward token "ft", 100 per token
/// per 10-second interval, lock time 100 seconds.
fn small_contract() -> Contract {
    Contract::new("owner".to_string(), "nft".to_string(), "ft".to_string(), 100, 10, 100)
}

fn stake(c: &mut Contract, sender: &str, token: &str, secs: u64) -> Result<(bool, Vec<Effect>), StakingError> {
    c.nft_on_transfer(
        &ctx("nft", 0, secs),
        sender.to_string(),
        sender.to_string(),
        token.to_string(),
        String::new(),
    )
}

#[test]
fn test_new() {
    let mut contract = setup_contract();
    let context = ctx(&accounts(0).to_string(), 1, 0);
    assert_eq!(contract.get_owner(), accounts(0).to_string());
    contract.update_owner(&context, accounts(1).to_string()).unwrap();
    assert_eq!(contract.get_owner(), accounts(1).to_string());
}

#[test]
fn test_enable() {
    let mut contract = setup_contract();
    let context = ctx(&accounts(0).to_string(), 1, 0);
    assert_eq!(contract.get_enable_status(), false);
    contract.update_enable(&context, true).unwrap();
    assert_eq!(contract.get_enable_status(), true);
}

#[test]
fn internal_receive_nft_test() {
    let contract = setup_contract();
    let config = contract.get_config();
    println!(
        "Config status: {:?}, {:?}, {:?},{:?},{:?}",
        config.nft_address, config.ft_address, config.daily_reward, config.interval, config.lock_time
    );
    assert_eq!(config.nft_address, accounts(1).to_string());
    assert_eq!(config.ft_address, accounts(2).to_string());
    assert_eq!(config.daily_reward, 100);
    assert_eq!(config.interval, 1000000);
    assert_eq!(config.lock_time, 1000000000);
    assert!(!config.enabled);
}

#[test]
fn update_owner_needs_one_yocto() {
    let mut c = setup_contract();
    assert_eq!(
        c.update_owner(&ctx("alice", 0, 0), "bob".to_string()),
        Err(StakingError::RequiresOneYocto)
    );
    assert_eq!(
        c.update_owner(&ctx("alice", 2, 0), "bob".to_string()),
        Err(StakingError::RequiresOneYocto)
    );
    assert_eq!(c.get_owner(), "alice");
}

#[test]
fn update_owner_owner_only() {
    let mut c = setup_contract();
    assert_eq!(
        c.update_owner(&ctx("bob", 1, 0), "bob".to_string()),
        Err(StakingError::OwnerOnly)
    );
    assert_eq!(c.update_enable(&ctx("bob", 1, 0), true), Err(StakingError::OwnerOnly));
    assert_eq!(c.get_owner(), "alice");
    assert!(!c.get_enable_status());
}

#[test]
fn update_config_sets_every_setting() {
    let mut c = setup_contract();
    let config = ConfigInfo {
        nft_address: "nft2".to_string(),
        ft_address: "ft2".to_string(),
        daily_reward: 7,
        interval: 60,
        lock_time: 3600,
        enabled: true,
    };
    // Any caller may change the settings, as long as one yoctoNEAR is attached.
    assert_eq!(
        c.update_config(&ctx("bob", 0, 0), ConfigInfo { ..config_copy(&config) }),
        Err(StakingError::RequiresOneYocto)
    );
    c.update_config(&ctx("bob", 1, 0), config_copy(&config)).unwrap();
    assert_eq!(c.get_config(), config);
    assert_eq!(c.get_owner(), "alice");
}

fn config_copy(c: &ConfigInfo) -> ConfigInfo {
    ConfigInfo {
        nft_address: c.nft_address.clone(),
        ft_address: c.ft_address.clone(),
        daily_reward: c.daily_reward,
        interval: c.interval,
        lock_time: c.lock_time,
        enabled: c.enabled,
    }
}

#[test]
fn staking_accrual_claim_and_unstake() {
    let mut c = small_contract();
    let (give_back, effects) = stake(&mut c, "bob", "1", 1000).unwrap();
    assert!(!give_back);
    assert_eq!(
        effects,
        vec![Effect::Log(Event::StakeNft {
            owner_id: "bob".to_string(),
            nft_contract_id: "nft".to_string(),
            token_id: "1".to_string(),
        })]
    );
    assert_eq!(
        c.get_stake_info("bob".to_string()).unwrap(),
        StakingInfo {
            address: "bob".to_string(),
            token_ids: vec!["1".to_string()],
            claimed_amount: 0,
            unclaimed_amount: 0,
            claimed_timestamp: 1000,
            create_unstake_timestamp: 0,
            last_timestamp: 1000,
        }
    );

    // Two interval boundaries pass with one token staked: 2 * 1 * 100.
    stake(&mut c, "bob", "2", 1025).unwrap();
    let info = c.get_stake_info("bob".to_string()).unwrap();
    assert_eq!(info.token_ids, vec!["1".to_string(), "2".to_string()]);
    assert_eq!(info.unclaimed_amount, 200);
    assert_eq!(info.last_timestamp, 1025);

    // Two more boundaries with two tokens: 200 + 2 * 2 * 100.
    let effects = c.claim_rewards(&ctx("bob", 1, 1040)).unwrap();
    assert_eq!(
        effects,
        vec![Effect::FtTransfer {
            ft_contract: "ft".to_string(),
            receiver_id: "bob".to_string(),
            amount: 600,
        }]
    );
    let info = c.get_stake_info("bob".to_string()).unwrap();
    assert_eq!(info.claimed_amount, 600);
    assert_eq!(info.unclaimed_amount, 0);
    assert_eq!(info.claimed_timestamp, 1040);

    // Nothing accrues within the same interval.
    assert_eq!(c.claim_rewards(&ctx("bob", 1, 1049)), Err(StakingError::NoReward));

    let effects = c.create_unstake(&ctx("bob", 1, 1050)).unwrap();
    assert_eq!(effects, vec![Effect::Log(Event::CreateUnstake { owner_id: "bob".to_string() })]);
    let info = c.get_stake_info("bob".to_string()).unwrap();
    assert_eq!(info.unclaimed_amount, 200);
    assert_eq!(info.create_unstake_timestamp, 1050);

    // The lock runs until 1050 + 100; rewards are frozen meanwhile.
    assert_eq!(c.fetch_unstake(&ctx("bob", 0, 1150)), Err(StakingError::StillInLock));
    let effects = c.fetch_unstake(&ctx("bob", 0, 1151)).unwrap();
    assert_eq!(
        effects,
        vec![
            Effect::FtTransfer {
                ft_contract: "ft".to_string(),
                receiver_id: "bob".to_string(),
                amount: 200,
            },
            Effect::NftTransfer {
                nft_contract: "nft".to_string(),
                receiver_id: "bob".to_string(),
                token_id: "1".to_string(),
            },
            Effect::Log(Event::UnstakeNft { owner_id: "bob".to_string(), token_id: "1".to_string() }),
            Effect::NftTransfer {
                nft_contract: "nft".to_string(),
                receiver_id: "bob".to_string(),
                token_id: "2".to_string(),
            },
            Effect::Log(Event::UnstakeNft { owner_id: "bob".to_string(), token_id: "2".to_string() }),
        ]
    );
    assert_eq!(c.get_stake_info("bob".to_string()), Err(StakingError::NoStakedNfts));
}

#[test]
fn fetch_unstake_without_reward_sends_only_tokens() {
    let mut c = small_contract();
    stake(&mut c, "bob", "7", 1000).unwrap();
    c.create_unstake(&ctx("bob", 1, 1005)).unwrap();
    let effects = c.fetch_unstake(&ctx("bob", 0, 2000)).unwrap();
    assert_eq!(
        effects,
        vec![
            Effect::NftTransfer {
                nft_contract: "nft".to_string(),
                receiver_id: "bob".to_string(),
                token_id: "7".to_string(),
            },
            Effect::Log(Event::UnstakeNft { owner_id: "bob".to_string(), token_id: "7".to_string() }),
        ]
    );
}

#[test]
fn fetch_unstake_needs_request() {
    let mut c = small_contract();
    assert_eq!(c.fetch_unstake(&ctx("bob", 0, 1000)), Err(StakingError::NoStakingNft));
    stake(&mut c, "bob", "1", 1000).unwrap();
    assert_eq!(c.fetch_unstake(&ctx("bob", 0, 5000)), Err(StakingError::UnstakeNotCreated));
    // The refused call stored nothing.
    assert_eq!(c.get_stake_info("bob".to_string()).unwrap().unclaimed_amount, 0);
}

#[test]
fn operations_on_unknown_accounts_are_refused() {
    let mut c = small_contract();
    assert_eq!(c.claim_rewards(&ctx("carol", 1, 1000)), Err(StakingError::NoStakingNft));
    assert_eq!(c.create_unstake(&ctx("carol", 1, 1000)), Err(StakingError::NoStakingNft));
    assert_eq!(c.claim_rewards(&ctx("carol", 0, 1000)), Err(StakingError::RequiresOneYocto));
    assert_eq!(c.create_unstake(&ctx("carol", 5, 1000)), Err(StakingError::RequiresOneYocto));
    assert_eq!(c.get_stake_info("carol".to_string()), Err(StakingError::NoStakedNfts));
}

#[test]
fn tokens_from_other_contracts_are_refused() {
    let mut c = small_contract();
    let res = c.nft_on_transfer(
        &ctx("other_nft", 0, 1000),
        "bob".to_string(),
        "bob".to_string(),
        "1".to_string(),
        String::new(),
    );
    assert_eq!(res, Err(StakingError::NotAllowedNft));
    assert_eq!(c.get_stake_info("bob".to_string()), Err(StakingError::NoStakedNfts));
}

#[test]
fn staked_for_sender_not_previous_owner() {
    let mut c = small_contract();
    c.nft_on_transfer(
        &ctx("nft", 0, 1000),
        "sender".to_string(),
        "previous".to_string(),
        "9".to_string(),
        "msg".to_string(),
    )
    .unwrap();
    assert!(c.get_stake_info("sender".to_string()).is_ok());
    assert_eq!(c.get_stake_info("previous".to_string()), Err(StakingError::NoStakedNfts));
}

#[test]
fn zero_interval_is_a_division_by_zero() {
    let mut c = Contract::new("owner".to_string(), "nft".to_string(), "ft".to_string(), 100, 0, 100);
    stake(&mut c, "bob", "1", 1000).unwrap();
    assert_eq!(stake(&mut c, "bob", "2", 1001), Err(StakingError::DivisionByZero));
    assert_eq!(c.claim_rewards(&ctx("bob", 1, 1001)), Err(StakingError::DivisionByZero));
    assert_eq!(c.get_stake_info("bob".to_string()).unwrap().token_ids, vec!["1".to_string()]);
}

#[test]
fn time_going_back_overflows() {
    let mut c = small_contract();
    stake(&mut c, "bob", "1", 1000).unwrap();
    assert_eq!(c.claim_rewards(&ctx("bob", 1, 900)), Err(StakingError::ArithmeticOverflow));
}

#[test]
fn huge_reward_overflows() {
    let mut c =
        Contract::new("owner".to_string(), "nft".to_string(), "ft".to_string(), u128::MAX, 1, 100);
    stake(&mut c, "bob", "1", 1000).unwrap();
    assert_eq!(c.claim_rewards(&ctx("bob", 1, 1002)), Err(StakingError::ArithmeticOverflow));
}

#[test]
fn lock_time_overflow() {
    let mut c =
        Contract::new("owner".to_string(), "nft".to_string(), "ft".to_string(), 1, 10, u64::MAX);
    stake(&mut c, "bob", "1", 1000).unwrap();
    c.create_unstake(&ctx("bob", 1, 1000)).unwrap();
    assert_eq!(c.fetch_unstake(&ctx("bob", 0, 3000)), Err(StakingError::ArithmeticOverflow));
}

#[test]
fn paging_follows_swap_remove_order() {
    let mut c = small_contract();
    stake(&mut c, "alice", "a", 1000).unwrap();
    stake(&mut c, "bob", "b", 1000).unwrap();
    stake(&mut c, "carol", "c", 1000).unwrap();
    let names = |page: Vec<nft_staking::types::StakingInfoJson>| -> Vec<String> {
        page.into_iter().map(|j| j.account_id).collect()
    };
    assert_eq!(names(c.get_all_stake_info(None, None).unwrap()), vec!["alice", "bob", "carol"]);
    c.create_unstake(&ctx("alice", 1, 1000)).unwrap();
    c.fetch_unstake(&ctx("alice", 0, 2000)).unwrap();
    assert_eq!(names(c.get_all_stake_info(None, None).unwrap()), vec!["carol", "bob"]);
    assert_eq!(names(c.get_all_stake_info(Some(1), Some(5)).unwrap()), vec!["bob"]);
    assert_eq!(names(c.get_all_stake_info(Some(0), Some(1)).unwrap()), vec!["carol"]);
    let page = c.get_all_stake_info(Some(1), None).unwrap();
    assert_eq!(page[0].staking_info.token_ids, vec!["b".to_string()]);
    assert_eq!(c.get_all_stake_info(Some(2), None).err(), Some(StakingError::OutOfBounds));
    assert_eq!(c.get_all_stake_info(None, Some(0)).err(), Some(StakingError::ZeroLimit));
}

#[test]
fn empty_table_has_no_page() {
    let c = small_contract();
    assert_eq!(c.get_all_stake_info(None, None).err(), Some(StakingError::OutOfBounds));
}

#[test]
fn balance_callback_answers() {
    let mut c = small_contract();
    assert_eq!(
        c.ft_balance_of_callback(1, PromiseOutcome::Successful(b"\"12345\"".to_vec())),
        Ok("12345".to_string())
    );
    assert_eq!(
        c.ft_balance_of_callback(1, PromiseOutcome::Successful(b"\"340282366920938463463374607431768211455\"".to_vec())),
        Ok(u128::MAX.to_string())
    );
    assert_eq!(
        c.ft_balance_of_callback(1, PromiseOutcome::Successful(b"\"0\"".to_vec())),
        Ok("0".to_string())
    );
    assert_eq!(
        c.ft_balance_of_callback(1, PromiseOutcome::Failed),
        Ok("Marble: ft balance error".to_string())
    );
    assert_eq!(
        c.ft_balance_of_callback(1, PromiseOutcome::NotReady),
        Err(StakingError::PromiseNotReady)
    );
    assert_eq!(
        c.ft_balance_of_callback(2, PromiseOutcome::Failed),
        Err(StakingError::NotACallback)
    );
    assert_eq!(
        c.ft_balance_of_callback(1, PromiseOutcome::Successful(b"12345".to_vec())),
        Err(StakingError::InvalidBalance)
    );
}

#[test]
fn withdraw_callback_logs_and_answers_zero() {
    let mut c = small_contract();
    let (answer, effects) = c.callback_post_withdraw_deposit("ft".to_string(), 42);
    assert_eq!(answer, 0);
    assert_eq!(
        effects,
        vec![Effect::Log(Event::ClaimReward { owner_id: "ft".to_string(), amount: 42 })]
    );
}

#[test]
fn total_amount_queries_the_reward_token() {
    let c = small_contract();
    assert_eq!(c.get_total_amount(), Effect::FtBalanceOf { ft_contract: "ft".to_string() });
}

#[test]
fn operations_leave_other_accounts_alone() {
    let mut c = small_contract();
    stake(&mut c, "alice", "a", 1000).unwrap();
    stake(&mut c, "bob", "b", 1000).unwrap();
    c.claim_rewards(&ctx("alice", 1, 1100)).unwrap();
    c.create_unstake(&ctx("alice", 1, 1100)).unwrap();
    let bob = c.get_stake_info("bob".to_string()).unwrap();
    assert_eq!(bob.unclaimed_amount, 0);
    assert_eq!(bob.last_timestamp, 1000);
    assert_eq!(bob.create_unstake_timestamp, 0);
    c.fetch_unstake(&ctx("alice", 0, 1300)).unwrap();
    assert_eq!(c.get_stake_info("bob".to_string()).unwrap().token_ids, vec!["b".to_string()]);
}

#[test]
fn unstake_request_freezes_rewards() {
    let mut c = small_contract();
    stake(&mut c, "bob", "1", 1000).unwrap();
    c.create_unstake(&ctx("bob", 1, 1030)).unwrap();
    assert_eq!(c.get_stake_info("bob".to_string()).unwrap().unclaimed_amount, 300);
    // A token staked after the request joins the record without accruing.
    stake(&mut c, "bob", "2", 5000).unwrap();
    let info = c.get_stake_info("bob".to_string()).unwrap();
    assert_eq!(info.unclaimed_amount, 300);
    assert_eq!(info.last_timestamp, 1030);
    assert_eq!(info.token_ids, vec!["1".to_string(), "2".to_string()]);
    let effects = c.claim_rewards(&ctx("bob", 1, 9000)).unwrap();
    assert_eq!(
        effects,
        vec![Effect::FtTransfer {
            ft_contract: "ft".to_string(),
            receiver_id: "bob".to_string(),
            amount: 300,
        }]
    );
}

#[test]
fn claim_keeps_the_total_of_claimed_and_unclaimed() {
    let mut c = small_contract();
    stake(&mut c, "bob", "1", 1000).unwrap();
    c.claim_rewards(&ctx("bob", 1, 1050)).unwrap();
    c.claim_rewards(&ctx("bob", 1, 1080)).unwrap();
    let info = c.get_stake_info("bob".to_string()).unwrap();
    assert_eq!(info.claimed_amount + info.unclaimed_amount, 800);
    assert_eq!(info.unclaimed_amount, 0);
}

#[test]
fn owner_handover_moves_the_rights() {
    let mut c = setup_contract();
    c.update_owner(&ctx("alice", 1, 0), "bob".to_string()).unwrap();
    assert_eq!(c.update_owner(&ctx("alice", 1, 0), "alice".to_string()), Err(StakingError::OwnerOnly));
    assert_eq!(c.update_enable(&ctx("alice", 1, 0), true), Err(StakingError::OwnerOnly));
    c.update_enable(&ctx("bob", 1, 0), true).unwrap();
    assert!(c.get_enable_status());
    c.update_owner(&ctx("bob", 1, 0), "carol".to_string()).unwrap();
    assert_eq!(c.get_owner(), "carol");
}

#[test]
fn pages_concatenate_to_the_table() {
    let mut c = small_contract();
    for (i, name) in ["a", "b", "c", "d"].iter().enumerate() {
        stake(&mut c, name, &i.to_string(), 1000).unwrap();
    }
    let ids = |page: Vec<nft_staking::types::StakingInfoJson>| -> Vec<String> {
        page.into_iter().map(|j| j.account_id).collect()
    };
    let whole = ids(c.get_all_stake_info(None, None).unwrap());
    for k in 1..4u64 {
        let mut joined = ids(c.get_all_stake_info(None, Some(k)).unwrap());
        joined.extend(ids(c.get_all_stake_info(Some(k as u128), None).unwrap()));
        assert_eq!(joined, whole);
    }
    assert_eq!(whole, vec!["a", "b", "c", "d"]);
}

#[test]
fn fetch_pays_what_was_frozen_at_the_request() {
    let mut c = small_contract();
    stake(&mut c, "bob", "1", 1000).unwrap();
    c.create_unstake(&ctx("bob", 1, 1040)).unwrap();
    // Long after the lock the payment is still the reward frozen at 1040.
    let effects = c.fetch_unstake(&ctx("bob", 0, 99999)).unwrap();
    assert_eq!(
        effects[0],
        Effect::FtTransfer { ft_contract: "ft".to_string(), receiver_id: "bob".to_string(), amount: 400 }
    );
}

#[test]
fn accrual_in_two_steps_equals_one() {
    let mut c = small_contract();
    stake(&mut c, "alice", "a", 1000).unwrap();
    stake(&mut c, "bob", "b", 1000).unwrap();
    // bob's reward is taken in two steps, alice's in one.
    let paid = c.claim_rewards(&ctx("bob", 1, 1013)).unwrap();
    assert_eq!(
        paid,
        vec![Effect::FtTransfer { ft_contract: "ft".to_string(), receiver_id: "bob".to_string(), amount: 100 }]
    );
    c.create_unstake(&ctx("alice", 1, 1027)).unwrap();
    c.create_unstake(&ctx("bob", 1, 1027)).unwrap();
    let alice = c.get_stake_info("alice".to_string()).unwrap();
    let bob = c.get_stake_info("bob".to_string()).unwrap();
    assert_eq!(alice.unclaimed_amount, 200);
    assert_eq!(bob.claimed_amount + bob.unclaimed_amount, alice.unclaimed_amount);
    assert_eq!(bob.last_timestamp, alice.last_timestamp);
}
