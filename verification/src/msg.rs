//! The invocation surface: the block context, the incoming messages, the
//! outbound instructions and the query responses.

use vstd::prelude::*;
use vstd::string::StringExecFns;
use crate::state::{Coin, Scale, VoteState};

verus! {

/// The block context an invocation runs under.
#[derive(Clone, Debug)]
pub struct Env {
    pub block_height: u64,
    pub block_time: u64,
    pub contract_address: String,
    pub transaction_index: Option<u32>,
}

/// The caller and the payment attached to the invocation.
#[derive(Clone, Debug)]
pub struct MessageInfo {
    pub sender: String,
    pub funds: Vec<Coin>,
}

/// Deployment parameters.
#[derive(Clone, Debug)]
pub struct InstantiateMsg {
    pub scale: Scale,
    pub base: Coin,
    pub first_prize_count: Option<u32>,
}

/// The state-changing operations.
#[derive(Clone, Debug)]
pub enum ExecuteMsg {
    SetBase { base: Coin },
    Deposit {},
    SetVoteState { state: VoteState },
    SetPaused { paused: bool },
    SetCommitWindow {
        start_height: Option<u64>,
        end_height: Option<u64>,
        start_time: Option<u64>,
        end_time: Option<u64>,
    },
    SetRevealWindow {
        start_height: Option<u64>,
        end_height: Option<u64>,
        start_time: Option<u64>,
        end_time: Option<u64>,
    },
    SetClosedWindow {
        start_height: Option<u64>,
        end_height: Option<u64>,
        start_time: Option<u64>,
        end_time: Option<u64>,
    },
    SetNftContract { nft_contract: String },
    SetNftCodeId { code_id: u64 },
    InstantiateNftContract { name: String, symbol: String, base_uri: Option<String> },
    CommitVote { commitment: String },
    RevealVote { reveal: String, salt: String },
    Finalize {},
    TransferNft { recipient: String, token_id: u64 },
    Approve { spender: String, token_id: u64 },
    Revoke { spender: String, token_id: u64 },
    ApproveAll { operator: String },
    RevokeAll { operator: String },
}

/// The read-only queries.
#[derive(Clone, Debug)]
pub enum QueryMsg {
    Config {},
    DepositOf { address: String },
    TierOf { address: String },
    OwnerOf { token_id: u64 },
    TierList { tier: u8, start_after: Option<String>, limit: Option<u32> },
    NftInfo { token_id: u64 },
    Approval { token_id: u64 },
    IsApprovedForAll { owner: String, operator: String },
    TokenUri { token_id: u64 },
    AllTokens { start_after: Option<u64>, limit: Option<u32> },
    Tokens { owner: String, start_after: Option<u64>, limit: Option<u32> },
}

/// Migration parameters: the new scale to re-derive the supply from.
#[derive(Clone, Debug)]
pub struct MigrateMsg {
    pub scale: Scale,
}

/// A key/value pair reported back to the host with each operation.
#[derive(Clone, Debug, PartialEq, Eq)]
pub struct Attribute {
    pub key: String,
    pub value: String,
}

/// An instruction handed to the host for execution after the state change
/// has fully committed.
#[derive(Clone, Debug, PartialEq, Eq)]
pub enum OutMsg {
    /// Send native currency to an address.
    BankSend { to_address: String, denom: String, amount: u128 },
    /// Instantiate the delegated unit-ownership contract.
    InstantiateNft { code_id: u64, name: String, symbol: String, base_uri: Option<String> },
}

/// What an operation reports back: attributes and outbound instructions.
#[derive(Clone, Debug)]
pub struct Response {
    pub attributes: Vec<Attribute>,
    pub messages: Vec<OutMsg>,
}

impl Response {
    pub fn new() -> (r: Self)
        ensures
            r.attributes@ =~= Seq::<Attribute>::empty(),
            r.messages@ =~= Seq::<OutMsg>::empty(),
    {
        Response { attributes: Vec::new(), messages: Vec::new() }
    }
}

/// Builds an attribute from a key literal and an owned value.
pub fn attr(key: &str, value: String) -> (a: Attribute)
    ensures
        a.key@ == key@,
        a.value == value,
{
    Attribute { key: key.to_owned(), value }
}

/// Builds an attribute from a key literal and a value literal.
pub fn attr_str(key: &str, value: &str) -> (a: Attribute)
    ensures
        a.key@ == key@,
        a.value@ == value@,
{
    Attribute { key: key.to_owned(), value: value.to_owned() }
}

/// One host event, as handed to the reply entry point.
#[derive(Clone, Debug)]
pub struct Event {
    pub ty: String,
    pub attributes: Vec<Attribute>,
}

/// What the host reports back from a submessage: the events it emitted.
#[derive(Clone, Debug)]
pub struct SubMsgResponse {
    pub events: Vec<Event>,
}

/// The configuration snapshot returned by the config query.
#[derive(Clone, Debug, PartialEq, Eq)]
pub struct ConfigResponse {
    pub owner: String,
    pub total_supply: u64,
    pub base: Coin,
    pub vote_state: VoteState,
    pub scale: Scale,
    pub first_prize_count: u32,
    pub nft_contract: Option<String>,
    pub nft_code_id: Option<u64>,
}

/// A cumulative principal, rendered in decimal.
#[derive(Clone, Debug, PartialEq, Eq)]
pub struct DepositResponse {
    pub principal: String,
}

/// A settled tier: 1, 2 or 3, and 0 while unassigned.
#[derive(Clone, Debug, PartialEq, Eq)]
pub struct TierResponse {
    pub tier: u8,
}

/// The owner of one unit.
#[derive(Clone, Debug, PartialEq, Eq)]
pub struct OwnerOfResponse {
    pub owner: String,
}

/// One page of the tier membership listing, in ascending address order.
#[derive(Clone, Debug, PartialEq, Eq)]
pub struct TierListResponse {
    pub addresses: Vec<String>,
    pub next_start_after: Option<String>,
}

/// Owner and active approval of one unit.
#[derive(Clone, Debug, PartialEq, Eq)]
pub struct NftInfoResponse {
    pub owner: String,
    pub approved: Option<String>,
}

/// The active approval of one unit, if any.
#[derive(Clone, Debug, PartialEq, Eq)]
pub struct ApprovalResponse {
    pub spender: Option<String>,
}

/// Whether an operator holds a blanket grant from an owner.
#[derive(Clone, Debug, PartialEq, Eq)]
pub struct IsApprovedForAllResponse {
    pub approved: bool,
}

/// The metadata location of one unit, if any.
#[derive(Clone, Debug, PartialEq, Eq)]
pub struct TokenUriResponse {
    pub token_uri: Option<String>,
}

/// One page of all issued unit ids.
#[derive(Clone, Debug, PartialEq, Eq)]
pub struct AllTokensResponse {
    pub tokens: Vec<u64>,
}

/// One page of the unit ids held by one owner.
#[derive(Clone, Debug, PartialEq, Eq)]
pub struct TokensResponse {
    pub tokens: Vec<u64>,
}

/// The typed result of a query dispatch.
#[derive(Clone, Debug)]
pub enum QueryAnswer {
    Config(ConfigResponse),
    Deposit(DepositResponse),
    Tier(TierResponse),
    OwnerOf(OwnerOfResponse),
    TierList(TierListResponse),
    NftInfo(NftInfoResponse),
    Approval(ApprovalResponse),
    IsApprovedForAll(IsApprovedForAllResponse),
    TokenUri(TokenUriResponse),
    AllTokens(AllTokensResponse),
    Tokens(TokensResponse),
}

} // verus!
