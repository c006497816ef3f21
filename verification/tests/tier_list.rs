#![allow(dead_code)]
#![allow(unused_imports)]

use dd_blind_box::contract::{execute, instantiate, migrate};
use dd_blind_box::error::ContractError;
use dd_blind_box::msg::{
    ConfigResponse, DepositResponse, Env, ExecuteMsg, InstantiateMsg, MessageInfo, MigrateMsg,
    OutMsg, QueryAnswer, QueryMsg, Response, TierListResponse, TierResponse,
};
use dd_blind_box::query::query;
use dd_blind_box::state::{Coin, CommitInfo, ContractState, Payout, RevealInfo, Scale, VoteState};
use sha2::Digest;

const OWNER: &str = "owner";
const USER1: &str = "user1";
const USER2: &str = "user2";
const USER3: &str = "user3";
const OPERATOR: &str = "operator";
const BASE_DENOM: &str = "ujunox";
const BASE_AMOUNT: u128 = 100;

fn mock_env() -> Env {
    Env {
        block_height: 12_345,
        block_time: 1_571_797_419,
        contract_address: "cosmos2contract".to_string(),
        transaction_index: Some(3),
    }
}

fn message_info(sender: &str) -> MessageInfo {
    MessageInfo { sender: sender.to_string(), funds: Vec::new() }
}

fn coins(amount: u128, denom: &str) -> Vec<Coin> {
    vec![Coin { denom: denom.to_string(), amount }]
}

fn funds_info(sender: &str, amount: u128, denom: &str) -> MessageInfo {
    MessageInfo { sender: sender.to_string(), funds: coins(amount, denom) }
}

fn instantiate_contract(scale: Scale, base_amount: u128) -> ContractState {
    let msg = InstantiateMsg {
        scale,
        base: Coin { denom: BASE_DENOM.to_string(), amount: base_amount },
        first_prize_count: None,
    };
    instantiate(&mock_env(), &message_info(OWNER), msg).0
}

fn exec(s: &mut ContractState, sender: &str, msg: ExecuteMsg) -> Result<Response, ContractError> {
    execute(s, &mock_env(), &message_info(sender), msg)
}

fn deposit_as(
    s: &mut ContractState,
    sender: &str,
    amount: u128,
) -> Result<Response, ContractError> {
    execute(s, &mock_env(), &funds_info(sender, amount, BASE_DENOM), ExecuteMsg::Deposit {})
}

fn calculate_commitment(addr: &str, reveal: &str, salt: &str) -> String {
    let preimage = format!("{}|{}|{}", addr, reveal, salt);
    hex::encode(sha2::Sha256::digest(preimage.as_bytes()))
}

fn attr_value(res: &Response, key: &str) -> String {
    res.attributes.iter().find(|a| a.key == key).unwrap().value.clone()
}

fn query_config(s: &ContractState) -> ConfigResponse {
    match query(s, QueryMsg::Config {}).unwrap() {
        QueryAnswer::Config(c) => c,
        _ => panic!("unexpected answer"),
    }
}

fn query_deposit_test(s: &ContractState, address: &str) -> DepositResponse {
    let p = match s.deposits.get(address) {
        Some(p) => p.principal,
        None => 0,
    };
    DepositResponse { principal: p.to_string() }
}

fn query_tier_test(s: &ContractState, address: &str) -> TierResponse {
    let t = match s.tiers.get(address) {
        Some(t) => *t,
        None => 0,
    };
    TierResponse { tier: t }
}

fn query_owner_of(s: &ContractState, token_id: u64) -> dd_blind_box::msg::OwnerOfResponse {
    match query(s, QueryMsg::OwnerOf { token_id }).unwrap() {
        QueryAnswer::OwnerOf(o) => o,
        _ => panic!("unexpected answer"),
    }
}

fn query_nft_info(s: &ContractState, token_id: u64) -> dd_blind_box::msg::NftInfoResponse {
    match query(s, QueryMsg::NftInfo { token_id }).unwrap() {
        QueryAnswer::NftInfo(n) => n,
        _ => panic!("unexpected answer"),
    }
}

fn query_approval(s: &ContractState, token_id: u64) -> dd_blind_box::msg::ApprovalResponse {
    match query(s, QueryMsg::Approval { token_id }).unwrap() {
        QueryAnswer::Approval(a) => a,
        _ => panic!("unexpected answer"),
    }
}

fn query_is_approved_for_all(
    s: &ContractState,
    owner: &str,
    operator: &str,
) -> dd_blind_box::msg::IsApprovedForAllResponse {
    match query(
        s,
        QueryMsg::IsApprovedForAll { owner: owner.to_string(), operator: operator.to_string() },
    )
    .unwrap()
    {
        QueryAnswer::IsApprovedForAll(a) => a,
        _ => panic!("unexpected answer"),
    }
}

fn query_tier_list(
    s: &ContractState,
    tier: u8,
    start_after: Option<String>,
    limit: Option<u32>,
) -> TierListResponse {
    match query(s, QueryMsg::TierList { tier, start_after, limit }).unwrap() {
        QueryAnswer::TierList(t) => t,
        _ => panic!("unexpected answer"),
    }
}

fn setup_tier_data(s: &mut ContractState) {
    s.tiers.insert(USER1, 1);
    s.tiers.insert(USER2, 2);
    s.tiers.insert(USER3, 3);
}

fn setup_multiple_tier_data(s: &mut ContractState) {
    s.tiers.insert(USER1, 1);
    s.tiers.insert(USER2, 1);
    s.tiers.insert(USER3, 1);
}

fn setup_voting_and_finalize(s: &mut ContractState) {
    s.deposits.insert(USER1, Payout { principal: BASE_AMOUNT });
    s.deposits.insert(USER2, Payout { principal: BASE_AMOUNT });
    s.deposits.insert(USER3, Payout { principal: BASE_AMOUNT });

    let users = vec![USER1, USER2, USER3];
    for (i, user) in users.iter().enumerate() {
        let reveal = format!("vote_{}", i);
        let salt = format!("salt_{}", i);
        let commitment = calculate_commitment(user, &reveal, &salt);
        s.commits.insert(user, CommitInfo { commitment });
        s.reveals.insert(user, RevealInfo { reveal, salt });
    }

    s.config.vote_state = VoteState::Closed;
    s.config.closed_window.start_time = None;
    s.config.closed_window.end_time = None;

    exec(s, OWNER, ExecuteMsg::Finalize {}).unwrap();
}

#[test]
fn test_tier_list_empty() {
    let s = instantiate_contract(Scale::new_tiny(), BASE_AMOUNT);

    let tier_list = query_tier_list(&s, 1, None, None);
    assert_eq!(tier_list.addresses.len(), 0);
    assert_eq!(tier_list.next_start_after, None);
}

#[test]
fn test_tier_list_with_limit() {
    let mut s = instantiate_contract(Scale::new_tiny(), BASE_AMOUNT);

    setup_multiple_tier_data(&mut s);

    let tier_list = query_tier_list(&s, 1, None, Some(2));
    assert_eq!(tier_list.addresses.len(), 2);
    assert!(tier_list.next_start_after.is_some());
}

#[test]
fn test_tier_list_with_start_after() {
    let mut s = instantiate_contract(Scale::new_tiny(), BASE_AMOUNT);

    setup_multiple_tier_data(&mut s);

    let tier_list = query_tier_list(&s, 1, Some(USER1.to_string()), None);
    assert!(tier_list.addresses.len() > 0);

    assert!(!tier_list.addresses.contains(&USER1.to_string()));
}

#[test]
fn test_tier_list_different_tiers() {
    let mut s = instantiate_contract(Scale::new_tiny(), BASE_AMOUNT);

    setup_tier_data(&mut s);

    let tier1_list = query_tier_list(&s, 1, None, None);
    assert_eq!(tier1_list.addresses.len(), 1);
    assert_eq!(tier1_list.addresses[0], USER1);

    let tier2_list = query_tier_list(&s, 2, None, None);
    assert_eq!(tier2_list.addresses.len(), 1);
    assert_eq!(tier2_list.addresses[0], USER2);

    let tier3_list = query_tier_list(&s, 3, None, None);
    assert_eq!(tier3_list.addresses.len(), 1);
    assert_eq!(tier3_list.addresses[0], USER3);
}

#[test]
fn test_tier_list_pagination() {
    let mut s = instantiate_contract(Scale::new_tiny(), BASE_AMOUNT);

    setup_multiple_tier_data(&mut s);

    let tier_list1 = query_tier_list(&s, 1, None, Some(2));
    assert_eq!(tier_list1.addresses.len(), 2);
    assert!(tier_list1.next_start_after.is_some());

    let tier_list2 = query_tier_list(&s, 1, tier_list1.next_start_after, Some(2));
    assert_eq!(tier_list2.addresses.len(), 0);
    assert_eq!(tier_list2.next_start_after, None);
}

#[test]
fn test_tier_list_nonexistent_tier() {
    let mut s = instantiate_contract(Scale::new_tiny(), BASE_AMOUNT);

    setup_tier_data(&mut s);

    let tier_list = query_tier_list(&s, 99, None, None);
    assert_eq!(tier_list.addresses.len(), 0);
    assert_eq!(tier_list.next_start_after, None);
}

#[test]
fn test_tier_list_invalid_start_after() {
    let s = instantiate_contract(Scale::new_tiny(), BASE_AMOUNT);

    let result = query(&s, QueryMsg::TierList {
        tier: 1,
        start_after: Some("invalid_address".to_string()),
        limit: None,
    });
    assert!(result.is_err());
}

#[test]
fn test_tier_list_large_limit() {
    let mut s = instantiate_contract(Scale::new_tiny(), BASE_AMOUNT);

    setup_tier_data(&mut s);

    let tier_list = query_tier_list(&s, 1, None, Some(1000));
    assert_eq!(tier_list.addresses.len(), 1);
    assert_eq!(tier_list.next_start_after, None);
}

#[test]
fn test_tier_list_zero_limit() {
    let mut s = instantiate_contract(Scale::new_tiny(), BASE_AMOUNT);

    setup_tier_data(&mut s);

    let tier_list = query_tier_list(&s, 1, None, Some(0));
    assert_eq!(tier_list.addresses.len(), 0);
    assert!(tier_list.next_start_after.is_some());
}

#[test]
fn test_tier_list_default_limit() {
    let mut s = instantiate_contract(Scale::new_tiny(), BASE_AMOUNT);

    setup_tier_data(&mut s);

    let tier_list = query_tier_list(&s, 1, None, None);
    assert_eq!(tier_list.addresses.len(), 1);
    assert_eq!(tier_list.next_start_after, None);
}

#[test]
fn test_tier_list_ordering() {
    let mut s = instantiate_contract(Scale::new_tiny(), BASE_AMOUNT);

    setup_multiple_tier_data(&mut s);

    let tier_list = query_tier_list(&s, 1, None, None);
    assert_eq!(tier_list.addresses.len(), 3);

    let mut sorted_addresses = tier_list.addresses.clone();
    sorted_addresses.sort();
    assert_eq!(tier_list.addresses, sorted_addresses);
}

#[test]
fn test_tier_list_after_finalize() {
    let mut s = instantiate_contract(Scale::new_tiny(), BASE_AMOUNT);

    setup_voting_and_finalize(&mut s);

    let tier1_list = query_tier_list(&s, 1, None, None);
    let tier2_list = query_tier_list(&s, 2, None, None);
    let tier3_list = query_tier_list(&s, 3, None, None);

    assert!(
        tier1_list.addresses.len() > 0 || tier2_list.addresses.len() > 0
            || tier3_list.addresses.len() > 0
    );
}
