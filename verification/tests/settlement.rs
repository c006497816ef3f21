#![allow(dead_code)]
#![allow(unused_imports)]

use dd_blind_box::contract::{execute, instantiate, migrate};
use dd_blind_box::error::ContractError;
use dd_blind_box::msg::{
    ConfigResponse, DepositResponse, Env, ExecuteMsg, InstantiateMsg, MessageInfo, MigrateMsg,
    OutMsg, QueryAnswer, QueryMsg, Response, TierListResponse, TierResponse,
};
use dd_blind_box::query::query;
use dd_blind_box::state::{Coin, CommitInfo, ContractState, Payout, RevealInfo, Scale, VoteState};
use sha2::Digest;

const OWNER: &str = "owner";
const USER1: &str = "user1";
const USER2: &str = "user2";
const USER3: &str = "user3";
const OPERATOR: &str = "operator";
const BASE_DENOM: &str = "ujunox";
const BASE_AMOUNT: u128 = 100;

fn mock_env() -> Env {
    Env {
        block_height: 12_345,
        block_time: 1_571_797_419,
        contract_address: "cosmos2contract".to_string(),
        transaction_index: Some(3),
    }
}

fn message_info(sender: &str) -> MessageInfo {
    MessageInfo { sender: sender.to_string(), funds: Vec::new() }
}

fn coins(amount: u128, denom: &str) -> Vec<Coin> {
    vec![Coin { denom: denom.to_string(), amount }]
}

fn funds_info(sender: &str, amount: u128, denom: &str) -> MessageInfo {
    MessageInfo { sender: sender.to_string(), funds: coins(amount, denom) }
}

fn instantiate_contract(scale: Scale, base_amount: u128) -> ContractState {
    let msg = InstantiateMsg {
        scale,
        base: Coin { denom: BASE_DENOM.to_string(), amount: base_amount },
        first_prize_count: None,
    };
    instantiate(&mock_env(), &message_info(OWNER), msg).0
}

fn exec(s: &mut ContractState, sender: &str, msg: ExecuteMsg) -> Result<Response, ContractError> {
    execute(s, &mock_env(), &message_info(sender), msg)
}

fn deposit_as(
    s: &mut ContractState,
    sender: &str,
    amount: u128,
) -> Result<Response, ContractError> {
    execute(s, &mock_env(), &funds_info(sender, amount, BASE_DENOM), ExecuteMsg::Deposit {})
}

fn calculate_commitment(addr: &str, reveal: &str, salt: &str) -> String {
    let preimage = format!("{}|{}|{}", addr, reveal, salt);
    hex::encode(sha2::Sha256::digest(preimage.as_bytes()))
}

fn attr_value(res: &Response, key: &str) -> String {
    res.attributes.iter().find(|a| a.key == key).unwrap().value.clone()
}

fn query_config(s: &ContractState) -> ConfigResponse {
    match query(s, QueryMsg::Config {}).unwrap() {
        QueryAnswer::Config(c) => c,
        _ => panic!("unexpected answer"),
    }
}

fn query_deposit_test(s: &ContractState, address: &str) -> DepositResponse {
    let p = match s.deposits.get(address) {
        Some(p) => p.principal,
        None => 0,
    };
    DepositResponse { principal: p.to_string() }
}

fn query_tier_test(s: &ContractState, address: &str) -> TierResponse {
    let t = match s.tiers.get(address) {
        Some(t) => *t,
        None => 0,
    };
    TierResponse { tier: t }
}

fn query_owner_of(s: &ContractState, token_id: u64) -> dd_blind_box::msg::OwnerOfResponse {
    match query(s, QueryMsg::OwnerOf { token_id }).unwrap() {
        QueryAnswer::OwnerOf(o) => o,
        _ => panic!("unexpected answer"),
    }
}

fn query_nft_info(s: &ContractState, token_id: u64) -> dd_blind_box::msg::NftInfoResponse {
    match query(s, QueryMsg::NftInfo { token_id }).unwrap() {
        QueryAnswer::NftInfo(n) => n,
        _ => panic!("unexpected answer"),
    }
}

fn query_approval(s: &ContractState, token_id: u64) -> dd_blind_box::msg::ApprovalResponse {
    match query(s, QueryMsg::Approval { token_id }).unwrap() {
        QueryAnswer::Approval(a) => a,
        _ => panic!("unexpected answer"),
    }
}

fn query_is_approved_for_all(
    s: &ContractState,
    owner: &str,
    operator: &str,
) -> dd_blind_box::msg::IsApprovedForAllResponse {
    match query(
        s,
        QueryMsg::IsApprovedForAll { owner: owner.to_string(), operator: operator.to_string() },
    )
    .unwrap()
    {
        QueryAnswer::IsApprovedForAll(a) => a,
        _ => panic!("unexpected answer"),
    }
}

fn query_tier_list(
    s: &ContractState,
    tier: u8,
    start_after: Option<String>,
    limit: Option<u32>,
) -> TierListResponse {
    match query(s, QueryMsg::TierList { tier, start_after, limit }).unwrap() {
        QueryAnswer::TierList(t) => t,
        _ => panic!("unexpected answer"),
    }
}

fn setup_finalize_environment(s: &mut ContractState) {
    s.deposits.insert(USER1, Payout { principal: BASE_AMOUNT });
    s.deposits.insert(USER2, Payout { principal: BASE_AMOUNT });
    s.deposits.insert(USER3, Payout { principal: BASE_AMOUNT });

    let users = vec![USER1, USER2, USER3];
    for (i, user) in users.iter().enumerate() {
        let reveal = format!("vote_{}", i);
        let salt = format!("salt_{}", i);
        let commitment = calculate_commitment(user, &reveal, &salt);
        s.commits.insert(user, CommitInfo { commitment });
        s.reveals.insert(user, RevealInfo { reveal, salt });
    }

    s.config.vote_state = VoteState::Closed;
    s.config.closed_window.start_time = None;
    s.config.closed_window.end_time = None;
}

fn setup_voting_environment(s: &mut ContractState) {
    s.deposits.insert(USER1, Payout { principal: BASE_AMOUNT });

    let reveal = "vote_1";
    let salt = "salt_1";
    let commitment = calculate_commitment(USER1, reveal, salt);
    s.commits.insert(USER1, CommitInfo { commitment });
    s.reveals.insert(USER1, RevealInfo { reveal: reveal.to_string(), salt: salt.to_string() });
}

fn setup_multiple_users_environment(s: &mut ContractState) {
    let users = vec![USER1, USER2, USER3];

    for user in &users {
        s.deposits.insert(user, Payout { principal: BASE_AMOUNT });
    }

    for (i, user) in users.iter().enumerate() {
        let reveal = format!("vote_{}", i);
        let salt = format!("salt_{}", i);
        let commitment = calculate_commitment(user, &reveal, &salt);
        s.commits.insert(user, CommitInfo { commitment });
        s.reveals.insert(user, RevealInfo { reveal, salt });
    }

    s.config.vote_state = VoteState::Closed;
    s.config.closed_window.start_time = None;
    s.config.closed_window.end_time = None;
}

fn setup_ten_users_environment(s: &mut ContractState) {
    for i in 1..=10 {
        let user = format!("user{}", i);
        s.deposits.insert(&user, Payout { principal: BASE_AMOUNT });
    }

    for i in 1..=10 {
        let user = format!("user{}", i);
        let reveal = format!("vote_{}", i);
        let salt = format!("salt_{}", i);
        let commitment = calculate_commitment(&user, &reveal, &salt);
        s.commits.insert(&user, CommitInfo { commitment });
        s.reveals.insert(&user, RevealInfo { reveal, salt });
    }

    s.config.vote_state = VoteState::Closed;
    s.config.closed_window.start_time = None;
    s.config.closed_window.end_time = None;
}

#[test]
fn test_finalize_success() {
    let mut s = instantiate_contract(Scale::new_tiny(), BASE_AMOUNT);

    setup_finalize_environment(&mut s);

    let result = exec(&mut s, OWNER, ExecuteMsg::Finalize {});
    assert!(result.is_ok());

    let res = result.unwrap();
    assert_eq!(res.attributes[0].key, "action");
    assert_eq!(res.attributes[0].value, "finalize");

    assert!(res.messages.len() > 0);
}

#[test]
fn test_finalize_wrong_phase() {
    let mut s = instantiate_contract(Scale::new_tiny(), BASE_AMOUNT);

    setup_voting_environment(&mut s);

    let result = exec(&mut s, OWNER, ExecuteMsg::Finalize {});
    assert_eq!(result.unwrap_err(), ContractError::InvalidState);
}

#[test]
fn test_finalize_paused() {
    let mut s = instantiate_contract(Scale::new_tiny(), BASE_AMOUNT);

    exec(&mut s, OWNER, ExecuteMsg::SetPaused { paused: true }).unwrap();

    setup_finalize_environment(&mut s);

    let result = exec(&mut s, OWNER, ExecuteMsg::Finalize {});
    assert_eq!(result.unwrap_err(), ContractError::InvalidState);
}

#[test]
fn test_finalize_no_voters() {
    let mut s = instantiate_contract(Scale::new_tiny(), BASE_AMOUNT);

    s.config.vote_state = VoteState::Closed;
    s.config.closed_window.start_time = None;
    s.config.closed_window.end_time = None;

    let result = exec(&mut s, OWNER, ExecuteMsg::Finalize {});
    assert!(result.is_ok());

    let res = result.unwrap();
    assert_eq!(res.attributes[0].key, "action");
    assert_eq!(res.attributes[0].value, "finalize");
    assert_eq!(res.attributes[1].key, "note");
    assert_eq!(res.attributes[1].value, "no voters");

    assert_eq!(res.messages.len(), 0);
}

#[test]
fn test_finalize_window_restriction() {
    let mut s = instantiate_contract(Scale::new_tiny(), BASE_AMOUNT);

    s.config.vote_state = VoteState::Closed;
    s.config.closed_window.start_height = Some(1000);
    s.config.closed_window.end_height = Some(2000);

    setup_voting_environment(&mut s);

    let result = exec(&mut s, OWNER, ExecuteMsg::Finalize {});
    assert_eq!(result.unwrap_err(), ContractError::InvalidState);
}

#[test]
fn test_finalize_tier_assignment() {
    let mut s = instantiate_contract(Scale::new_tiny(), BASE_AMOUNT);

    setup_finalize_environment(&mut s);

    exec(&mut s, OWNER, ExecuteMsg::Finalize {}).unwrap();

    let tier1 = query_tier_test(&s, USER1);
    let tier2 = query_tier_test(&s, USER2);
    let tier3 = query_tier_test(&s, USER3);

    assert!(tier1.tier > 0 || tier2.tier > 0 || tier3.tier > 0);
}

#[test]
fn test_finalize_payout_calculation() {
    let mut s = instantiate_contract(Scale::new_tiny(), BASE_AMOUNT);

    setup_finalize_environment(&mut s);

    let result = exec(&mut s, OWNER, ExecuteMsg::Finalize {});
    assert!(result.is_ok());

    let res = result.unwrap();
    assert!(res.messages.len() > 0);

    for msg in res.messages {
        match msg {
            OutMsg::BankSend { to_address, denom, amount } => {
                assert!(!to_address.is_empty());
                assert_eq!(denom, BASE_DENOM);
                assert!(amount > 0);
            },
            _ => panic!("Unexpected message type"),
        }
    }
}

#[test]
fn test_finalize_multiple_users() {
    let mut s = instantiate_contract(Scale::new_tiny(), BASE_AMOUNT);

    setup_multiple_users_environment(&mut s);

    let result = exec(&mut s, OWNER, ExecuteMsg::Finalize {});
    assert!(result.is_ok());

    let res = result.unwrap();
    assert!(res.messages.len() >= 3);
}

#[test]
fn test_finalize_duplicate() {
    let mut s = instantiate_contract(Scale::new_tiny(), BASE_AMOUNT);

    setup_finalize_environment(&mut s);

    let result1 = exec(&mut s, OWNER, ExecuteMsg::Finalize {});
    assert!(result1.is_ok());

    let result2 = exec(&mut s, OWNER, ExecuteMsg::Finalize {});
    assert!(result2.is_ok());
}

#[test]
fn test_finalize_unauthorized() {
    let mut s = instantiate_contract(Scale::new_tiny(), BASE_AMOUNT);

    setup_finalize_environment(&mut s);

    let result = exec(&mut s, USER1, ExecuteMsg::Finalize {});
    assert_eq!(result.unwrap_err(), ContractError::Unauthorized);
}

#[test]
fn test_finalize_tier_ratios() {
    let mut s = instantiate_contract(Scale::new_tiny(), BASE_AMOUNT);

    setup_ten_users_environment(&mut s);

    let result = exec(&mut s, OWNER, ExecuteMsg::Finalize {});
    assert!(result.is_ok());

    let mut tier1_count = 0;
    let mut tier2_count = 0;
    let mut tier3_count = 0;

    for i in 1..=10 {
        let user = format!("user{}", i);
        let tier = query_tier_test(&s, &user);
        match tier.tier {
            1 => tier1_count += 1,
            2 => tier2_count += 1,
            3 => tier3_count += 1,
            _ => {},
        }
    }

    assert!(tier1_count > 0 || tier2_count > 0 || tier3_count > 0);
}
