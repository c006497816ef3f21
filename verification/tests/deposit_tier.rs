#![allow(dead_code)]
#![allow(unused_imports)]

use dd_blind_box::contract::{execute, instantiate, migrate};
use dd_blind_box::error::ContractError;
use dd_blind_box::msg::{
    ConfigResponse, DepositResponse, Env, ExecuteMsg, InstantiateMsg, MessageInfo, MigrateMsg,
    OutMsg, QueryAnswer, QueryMsg, Response, TierListResponse, TierResponse,
};
use dd_blind_box::query::query;
use dd_blind_box::state::{Coin, CommitInfo, ContractState, Payout, RevealInfo, Scale, VoteState};
use sha2::Digest;

const OWNER: &str = "owner";
const USER1: &str = "user1";
const USER2: &str = "user2";
const USER3: &str = "user3";
const OPERATOR: &str = "operator";
const BASE_DENOM: &str = "ujunox";
const BASE_AMOUNT: u128 = 100;

fn mock_env() -> Env {
    Env {
        block_height: 12_345,
        block_time: 1_571_797_419,
        contract_address: "cosmos2contract".to_string(),
        transaction_index: Some(3),
    }
}

fn message_info(sender: &str) -> MessageInfo {
    MessageInfo { sender: sender.to_string(), funds: Vec::new() }
}

fn coins(amount: u128, denom: &str) -> Vec<Coin> {
    vec![Coin { denom: denom.to_string(), amount }]
}

fn funds_info(sender: &str, amount: u128, denom: &str) -> MessageInfo {
    MessageInfo { sender: sender.to_string(), funds: coins(amount, denom) }
}

fn instantiate_contract(scale: Scale, base_amount: u128) -> ContractState {
    let msg = InstantiateMsg {
        scale,
        base: Coin { denom: BASE_DENOM.to_string(), amount: base_amount },
        first_prize_count: None,
    };
    instantiate(&mock_env(), &message_info(OWNER), msg).0
}

fn exec(s: &mut ContractState, sender: &str, msg: ExecuteMsg) -> Result<Response, ContractError> {
    execute(s, &mock_env(), &message_info(sender), msg)
}

fn deposit_as(
    s: &mut ContractState,
    sender: &str,
    amount: u128,
) -> Result<Response, ContractError> {
    execute(s, &mock_env(), &funds_info(sender, amount, BASE_DENOM), ExecuteMsg::Deposit {})
}

fn calculate_commitment(addr: &str, reveal: &str, salt: &str) -> String {
    let preimage = format!("{}|{}|{}", addr, reveal, salt);
    hex::encode(sha2::Sha256::digest(preimage.as_bytes()))
}

fn attr_value(res: &Response, key: &str) -> String {
    res.attributes.iter().find(|a| a.key == key).unwrap().value.clone()
}

fn query_config(s: &ContractState) -> ConfigResponse {
    match query(s, QueryMsg::Config {}).unwrap() {
        QueryAnswer::Config(c) => c,
        _ => panic!("unexpected answer"),
    }
}

fn query_deposit_test(s: &ContractState, address: &str) -> DepositResponse {
    let p = match s.deposits.get(address) {
        Some(p) => p.principal,
        None => 0,
    };
    DepositResponse { principal: p.to_string() }
}

fn query_tier_test(s: &ContractState, address: &str) -> TierResponse {
    let t = match s.tiers.get(address) {
        Some(t) => *t,
        None => 0,
    };
    TierResponse { tier: t }
}

fn query_owner_of(s: &ContractState, token_id: u64) -> dd_blind_box::msg::OwnerOfResponse {
    match query(s, QueryMsg::OwnerOf { token_id }).unwrap() {
        QueryAnswer::OwnerOf(o) => o,
        _ => panic!("unexpected answer"),
    }
}

fn query_nft_info(s: &ContractState, token_id: u64) -> dd_blind_box::msg::NftInfoResponse {
    match query(s, QueryMsg::NftInfo { token_id }).unwrap() {
        QueryAnswer::NftInfo(n) => n,
        _ => panic!("unexpected answer"),
    }
}

fn query_approval(s: &ContractState, token_id: u64) -> dd_blind_box::msg::ApprovalResponse {
    match query(s, QueryMsg::Approval { token_id }).unwrap() {
        QueryAnswer::Approval(a) => a,
        _ => panic!("unexpected answer"),
    }
}

fn query_is_approved_for_all(
    s: &ContractState,
    owner: &str,
    operator: &str,
) -> dd_blind_box::msg::IsApprovedForAllResponse {
    match query(
        s,
        QueryMsg::IsApprovedForAll { owner: owner.to_string(), operator: operator.to_string() },
    )
    .unwrap()
    {
        QueryAnswer::IsApprovedForAll(a) => a,
        _ => panic!("unexpected answer"),
    }
}

fn query_tier_list(
    s: &ContractState,
    tier: u8,
    start_after: Option<String>,
    limit: Option<u32>,
) -> TierListResponse {
    match query(s, QueryMsg::TierList { tier, start_after, limit }).unwrap() {
        QueryAnswer::TierList(t) => t,
        _ => panic!("unexpected answer"),
    }
}

#[test]
fn test_deposit_success() {
    let mut s = instantiate_contract(Scale::new_tiny(), BASE_AMOUNT);

    let result = deposit_as(&mut s, USER1, BASE_AMOUNT);
    assert!(result.is_ok());

    let res = result.unwrap();
    assert_eq!(attr_value(&res, "minted"), "1");

    let deposit = query_deposit_test(&s, USER1);
    assert_eq!(deposit.principal, BASE_AMOUNT.to_string());
}

#[test]
fn test_deposit_multiple_base_amounts() {
    let mut s = instantiate_contract(Scale::new_tiny(), BASE_AMOUNT);

    let result = deposit_as(&mut s, USER1, BASE_AMOUNT * 3);
    assert!(result.is_ok());

    let res = result.unwrap();
    assert_eq!(attr_value(&res, "minted"), "3");

    let deposit = query_deposit_test(&s, USER1);
    assert_eq!(deposit.principal, (BASE_AMOUNT * 3).to_string());
}

#[test]
fn test_deposit_insufficient_amount() {
    let mut s = instantiate_contract(Scale::new_tiny(), BASE_AMOUNT);

    let result = deposit_as(&mut s, USER1, BASE_AMOUNT - 1);
    assert!(result.is_err());

    let err = result.unwrap_err();
    assert!(matches!(err, ContractError::Generic(_)));
}

#[test]
fn deposit_tier_test_deposit_zero_amount() {
    let mut s = instantiate_contract(Scale::new_tiny(), BASE_AMOUNT);

    let result = deposit_as(&mut s, USER1, 0);
    assert!(result.is_err());
}

#[test]
fn deposit_tier_test_deposit_wrong_denom() {
    let mut s = instantiate_contract(Scale::new_tiny(), BASE_AMOUNT);

    let info = funds_info(USER1, BASE_AMOUNT, "uatom");
    let result = execute(&mut s, &mock_env(), &info, ExecuteMsg::Deposit {});
    assert!(result.is_err());
}

#[test]
fn test_deposit_accumulation() {
    let mut s = instantiate_contract(Scale::new_tiny(), BASE_AMOUNT);

    deposit_as(&mut s, USER1, BASE_AMOUNT).unwrap();
    deposit_as(&mut s, USER1, BASE_AMOUNT * 2).unwrap();

    let deposit = query_deposit_test(&s, USER1);
    assert_eq!(deposit.principal, (BASE_AMOUNT * 3).to_string());
}

#[test]
fn test_deposit_exceeds_total_supply() {
    let mut s = instantiate_contract(Scale::new_tiny(), BASE_AMOUNT);

    let result = deposit_as(&mut s, USER1, BASE_AMOUNT * 15);
    assert!(result.is_ok());

    let res = result.unwrap();
    assert_eq!(attr_value(&res, "minted"), "10");
}

#[test]
fn test_deposit_sequential_token_ids() {
    let mut s = instantiate_contract(Scale::new_tiny(), BASE_AMOUNT);

    deposit_as(&mut s, USER1, BASE_AMOUNT).unwrap();
    deposit_as(&mut s, USER2, BASE_AMOUNT).unwrap();
    deposit_as(&mut s, USER3, BASE_AMOUNT).unwrap();

    let owner1 = query_owner_of(&s, 0);
    assert_eq!(owner1.owner, USER1);

    let owner2 = query_owner_of(&s, 1);
    assert_eq!(owner2.owner, USER2);

    let owner3 = query_owner_of(&s, 2);
    assert_eq!(owner3.owner, USER3);
}

#[test]
fn test_deposit_paused() {
    let mut s = instantiate_contract(Scale::new_tiny(), BASE_AMOUNT);

    exec(&mut s, OWNER, ExecuteMsg::SetPaused { paused: true }).unwrap();

    let result = deposit_as(&mut s, USER1, BASE_AMOUNT);
    assert_eq!(result.unwrap_err(), ContractError::InvalidState);
}

#[test]
fn test_deposit_query_nonexistent_user() {
    let s = instantiate_contract(Scale::new_tiny(), BASE_AMOUNT);

    let deposit = query_deposit_test(&s, USER1);
    assert_eq!(deposit.principal, "0");
}

#[test]
fn test_tier_query_before_finalize() {
    let mut s = instantiate_contract(Scale::new_tiny(), BASE_AMOUNT);

    deposit_as(&mut s, USER1, BASE_AMOUNT).unwrap();

    let tier = query_tier_test(&s, USER1);
    assert_eq!(tier.tier, 0);
}

#[test]
fn test_tier_query_nonexistent_user() {
    let s = instantiate_contract(Scale::new_tiny(), BASE_AMOUNT);

    let tier = query_tier_test(&s, USER1);
    assert_eq!(tier.tier, 0);
}

#[test]
fn test_deposit_fractional_base_amount() {
    let mut s = instantiate_contract(Scale::new_tiny(), BASE_AMOUNT);

    let result = deposit_as(&mut s, USER1, BASE_AMOUNT + BASE_AMOUNT / 2);
    assert!(result.is_ok());

    let res = result.unwrap();
    assert_eq!(attr_value(&res, "minted"), "1");

    let deposit = query_deposit_test(&s, USER1);
    assert_eq!(deposit.principal, (BASE_AMOUNT + BASE_AMOUNT / 2).to_string());
}

#[test]
fn test_deposit_large_scale() {
    let mut s = instantiate_contract(Scale::new_large(), BASE_AMOUNT);

    let result = deposit_as(&mut s, USER1, BASE_AMOUNT * 100);
    assert!(result.is_ok());

    let res = result.unwrap();
    assert_eq!(attr_value(&res, "minted"), "100");
}
