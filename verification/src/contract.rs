//! The operations of the contract: administration, the bounded minting
//! allocator, the internal ownership ledger, migration, and the dispatchers.
//!
//! Every operation is specified by a postcondition predicate over the state
//! before and after the call; a failing call returns its error and leaves
//! the state untouched.

use vstd::prelude::*;
use vstd::string::StringExecFns;
use crate::error::ContractError;
use crate::msg::{attr, attr_str, Attribute, Env, Event, SubMsgResponse, ExecuteMsg, InstantiateMsg, MessageInfo,
    MigrateMsg, OutMsg, Response};
use crate::state::{Coin, Config, ContractState, OperatorGrant, Payout, PhaseWindow, Scale,
    TokenInfo, VoteState};
use crate::strings::{spec_decimal, str_eq, u64_to_string, u128_to_string};
use crate::addr_map::AddrMap;

verus! {

/// Whether the block of `env` lies inside the window: every set bound must
/// hold, an unset bound always does.
pub open spec fn spec_in_window(env: Env, w: PhaseWindow) -> bool {
    &&& (w.start_height matches Some(s) ==> env.block_height >= s)
    &&& (w.end_height matches Some(e) ==> env.block_height <= e)
    &&& (w.start_time matches Some(s) ==> env.block_time >= s)
    &&& (w.end_time matches Some(e) ==> env.block_time <= e)
}

/// Decides whether the current block lies inside a phase window.
pub fn in_window(env: &Env, w: &PhaseWindow) -> (r: bool)
    ensures
        r == spec_in_window(*env, *w),
{
    if let Some(s) = w.start_height {
        if env.block_height < s {
            return false;
        }
    }
    if let Some(e) = w.end_height {
        if env.block_height > e {
            return false;
        }
    }
    if let Some(s) = w.start_time {
        if env.block_time < s {
            return false;
        }
    }
    if let Some(e) = w.end_time {
        if env.block_time > e {
            return false;
        }
    }
    true
}

/// The name of each voting phase.
pub open spec fn spec_format_state(state: VoteState) -> Seq<char> {
    match state {
        VoteState::Commit => "commit"@,
        VoteState::Reveal => "reveal"@,
        VoteState::Closed => "closed"@,
    }
}

/// Renders a voting phase as its name.
pub fn format_state(state: &VoteState) -> (r: String)
    ensures
        r@ == spec_format_state(*state),
{
    match state {
        VoteState::Commit => "commit".to_owned(),
        VoteState::Reveal => "reveal".to_owned(),
        VoteState::Closed => "closed".to_owned(),
    }
}

/// The name of each scale tier.
pub open spec fn spec_format_state_scale(scale: Scale) -> Seq<char> {
    match scale {
        Scale::Tiny(_) => "tiny"@,
        Scale::Small(_) => "small"@,
        Scale::Medium(_) => "medium"@,
        Scale::Large(_) => "large"@,
        Scale::Huge(_) => "huge"@,
    }
}

/// Renders a scale as its tier name.
pub fn format_state_scale(scale: &Scale) -> (r: String)
    ensures
        r@ == spec_format_state_scale(*scale),
{
    match scale {
        Scale::Tiny(_) => "tiny".to_owned(),
        Scale::Small(_) => "small".to_owned(),
        Scale::Medium(_) => "medium".to_owned(),
        Scale::Large(_) => "large".to_owned(),
        Scale::Huge(_) => "huge".to_owned(),
    }
}

/// The fixed table of legal phase edges. Rollbacks are allowed; a direct
/// jump from `Closed` back into `Reveal` is not, nor is any self-loop.
pub open spec fn spec_transition_allowed(from: VoteState, to: VoteState) -> bool {
    ||| (from == VoteState::Commit && to == VoteState::Reveal)
    ||| (from == VoteState::Commit && to == VoteState::Closed)
    ||| (from == VoteState::Reveal && to == VoteState::Closed)
    ||| (from == VoteState::Reveal && to == VoteState::Commit)
    ||| (from == VoteState::Closed && to == VoteState::Commit)
}

/// Accepts exactly the legal phase edges, reporting both endpoints of a
/// rejected one.
pub fn validate_state_transition(current: &VoteState, new_state: &VoteState) -> (r: Result<
    (),
    ContractError,
>)
    ensures
        r is Ok <==> spec_transition_allowed(*current, *new_state),
        r is Err ==> r == Err::<(), ContractError>(ContractError::InvalidStateTransition {
            from: *current,
            to: *new_state,
        }),
{
    match (current, new_state) {
        (VoteState::Commit, VoteState::Reveal) => Ok(()),
        (VoteState::Commit, VoteState::Closed) => Ok(()),
        (VoteState::Reveal, VoteState::Closed) => Ok(()),
        (VoteState::Reveal, VoteState::Commit) => Ok(()),
        (VoteState::Closed, VoteState::Commit) => Ok(()),
        _ => Err(ContractError::InvalidStateTransition { from: *current, to: *new_state }),
    }
}

/// Address plausibility: the host validates the address format itself; the
/// library only rejects input that is plainly malformed.
pub open spec fn spec_valid_address(addr: Seq<char>) -> bool {
    addr.len() != 0 && addr != "invalid_address"@
}

/// A generic error whose message reads as given.
pub open spec fn is_generic_err<T>(r: Result<T, ContractError>, msg: Seq<char>) -> bool {
    r matches Err(ContractError::Generic(m)) && m@ == msg
}

/// Rejects a plainly malformed address.
pub fn validate_address(address: &str) -> (r: Result<(), ContractError>)
    ensures
        r is Ok <==> spec_valid_address(address@),
        r is Err ==> is_generic_err(r, "Invalid address"@),
{
    if address.is_empty() || str_eq(address, "invalid_address") {
        Err(ContractError::Generic("Invalid address".to_owned()))
    } else {
        Ok(())
    }
}

/// Whether the caller is the configured owner.
pub fn is_owner(s: &ContractState, sender: &str) -> (r: bool)
    ensures
        r == (sender@ == s.config.owner@),
{
    str_eq(sender, s.config.owner.as_str())
}

/// Everything but the configuration is as it was.
pub open spec fn same_records(pre: ContractState, post: ContractState) -> bool {
    &&& post.tokens == pre.tokens
    &&& post.operators == pre.operators
    &&& post.commits == pre.commits
    &&& post.reveals == pre.reveals
    &&& post.deposits == pre.deposits
    &&& post.tiers == pre.tiers
}

/// An owner-gated operation run by someone else: `Unauthorized`, no change.
pub open spec fn unauthorized_post<T>(
    pre: ContractState,
    post: ContractState,
    r: Result<T, ContractError>,
) -> bool {
    &&& r == Err::<T, ContractError>(ContractError::Unauthorized)
    &&& post == pre
}

/// What setting the base coin does.
pub open spec fn set_base_post(
    pre: ContractState,
    post: ContractState,
    info: MessageInfo,
    base: Coin,
    r: Result<Response, ContractError>,
) -> bool {
    if info.sender@ != pre.config.owner@ {
        unauthorized_post(pre, post, r)
    } else {
        &&& r matches Ok(resp) && resp.messages@.len() == 0 && resp.attributes@.len() == 3
            && resp.attributes@[0].key@ == "action"@
            && resp.attributes@[0].value@ == "set_base"@
            && resp.attributes@[1].key@ == "denom"@
            && resp.attributes@[1].value@ == base.denom@
            && resp.attributes@[2].key@ == "amount"@
            && resp.attributes@[2].value@ == spec_decimal(base.amount as int)
        &&& post.config == (Config { base: base, ..pre.config })
        &&& same_records(pre, post)
    }
}

/// Owner-only: replaces the base coin used for deposits and settlement.
pub fn exec_set_base(s: &mut ContractState, info: &MessageInfo, base: Coin) -> (r: Result<
    Response,
    ContractError,
>)
    ensures
        set_base_post(*old(s), *final(s), *info, base, r),
{
    if !is_owner(s, info.sender.as_str()) {
        return Err(ContractError::Unauthorized);
    }
    let denom_attr = attr("denom", base.denom.clone());
    let amount_attr = attr("amount", u128_to_string(base.amount));
    s.config.base = base;
    let mut resp = Response::new();
    resp.attributes.push(attr_str("action", "set_base"));
    resp.attributes.push(denom_attr);
    resp.attributes.push(amount_attr);
    Ok(resp)
}

/// What a phase change does: owner-gated, and only along a legal edge.
pub open spec fn set_vote_state_post(
    pre: ContractState,
    post: ContractState,
    info: MessageInfo,
    state: VoteState,
    r: Result<Response, ContractError>,
) -> bool {
    if info.sender@ != pre.config.owner@ {
        unauthorized_post(pre, post, r)
    } else if !spec_transition_allowed(pre.config.vote_state, state) {
        &&& r == Err::<Response, ContractError>(ContractError::InvalidStateTransition {
            from: pre.config.vote_state,
            to: state,
        })
        &&& post == pre
    } else {
        &&& r matches Ok(resp) && resp.messages@.len() == 0 && resp.attributes@.len() == 2
            && resp.attributes@[0].key@ == "action"@
            && resp.attributes@[0].value@ == "set_vote_state"@
            && resp.attributes@[1].key@ == "state"@
            && resp.attributes@[1].value@ == spec_format_state(state)
        &&& post.config == (Config { vote_state: state, ..pre.config })
        &&& same_records(pre, post)
    }
}

/// Owner-only: moves the phase machine along a legal edge.
pub fn exec_set_vote_state(s: &mut ContractState, info: &MessageInfo, state: VoteState) -> (r:
    Result<Response, ContractError>)
    ensures
        set_vote_state_post(*old(s), *final(s), *info, state, r),
{
    if !is_owner(s, info.sender.as_str()) {
        return Err(ContractError::Unauthorized);
    }
    match validate_state_transition(&s.config.vote_state, &state) {
        Err(e) => Err(e),
        Ok(()) => {
            s.config.vote_state = state;
            let mut resp = Response::new();
            resp.attributes.push(attr_str("action", "set_vote_state"));
            resp.attributes.push(attr("state", format_state(&state)));
            Ok(resp)
        },
    }
}

/// What pausing or unpausing does.
pub open spec fn set_paused_post(
    pre: ContractState,
    post: ContractState,
    info: MessageInfo,
    paused: bool,
    r: Result<Response, ContractError>,
) -> bool {
    if info.sender@ != pre.config.owner@ {
        unauthorized_post(pre, post, r)
    } else {
        &&& r matches Ok(resp) && resp.messages@.len() == 0 && resp.attributes@.len() == 2
            && resp.attributes@[0].key@ == "action"@
            && resp.attributes@[0].value@ == "set_paused"@
            && resp.attributes@[1].key@ == "paused"@
            && resp.attributes@[1].value@ == (if paused {
                "true"@
            } else {
                "false"@
            })
        &&& post.config == (Config { paused: paused, ..pre.config })
        &&& same_records(pre, post)
    }
}

/// Owner-only: sets the pause flag. Pausing blocks deposits and settlement,
/// never administration, voting or ownership transfers.
pub fn exec_set_paused(s: &mut ContractState, info: &MessageInfo, paused: bool) -> (r: Result<
    Response,
    ContractError,
>)
    ensures
        set_paused_post(*old(s), *final(s), *info, paused, r),
{
    if !is_owner(s, info.sender.as_str()) {
        return Err(ContractError::Unauthorized);
    }
    s.config.paused = paused;
    let mut resp = Response::new();
    resp.attributes.push(attr_str("action", "set_paused"));
    if paused {
        resp.attributes.push(attr_str("paused", "true"));
    } else {
        resp.attributes.push(attr_str("paused", "false"));
    }
    Ok(resp)
}

/// The configuration with one phase window replaced: 0 is the commit
/// window, 1 the reveal window, anything else the closed window.
pub open spec fn config_with_window(cfg: Config, which: u8, w: PhaseWindow) -> Config {
    if which == 0 {
        Config { commit_window: w, ..cfg }
    } else if which == 1 {
        Config { reveal_window: w, ..cfg }
    } else {
        Config { closed_window: w, ..cfg }
    }
}

/// What setting a phase window does.
pub open spec fn set_window_post(
    pre: ContractState,
    post: ContractState,
    info: MessageInfo,
    which: u8,
    w: PhaseWindow,
    r: Result<Response, ContractError>,
) -> bool {
    if info.sender@ != pre.config.owner@ {
        unauthorized_post(pre, post, r)
    } else {
        &&& r matches Ok(resp) && resp.messages@.len() == 0 && resp.attributes@.len() == 2
            && resp.attributes@[0].key@ == "action"@
            && resp.attributes@[0].value@ == "set_window"@
            && resp.attributes@[1].key@ == "which"@
            && resp.attributes@[1].value@ == spec_decimal(which as int)
        &&& post.config == config_with_window(pre.config, which, w)
        &&& same_records(pre, post)
    }
}

/// Owner-only: replaces one phase window (0 = commit, 1 = reveal, anything
/// else = closed).
pub fn exec_set_window(
    s: &mut ContractState,
    info: &MessageInfo,
    which: u8,
    start_height: Option<u64>,
    end_height: Option<u64>,
    start_time: Option<u64>,
    end_time: Option<u64>,
) -> (r: Result<Response, ContractError>)
    ensures
        set_window_post(
            *old(s),
            *final(s),
            *info,
            which,
            PhaseWindow { start_height, end_height, start_time, end_time },
            r,
        ),
{
    if !is_owner(s, info.sender.as_str()) {
        return Err(ContractError::Unauthorized);
    }
    let w = PhaseWindow { start_height, end_height, start_time, end_time };
    match which {
        0 => {
            s.config.commit_window = w;
        },
        1 => {
            s.config.reveal_window = w;
        },
        _ => {
            s.config.closed_window = w;
        },
    }
    let mut resp = Response::new();
    resp.attributes.push(attr_str("action", "set_window"));
    resp.attributes.push(attr("which", u64_to_string(which as u64)));
    Ok(resp)
}

/// What registering the delegated unit-ownership contract does.
pub open spec fn set_nft_contract_post(
    pre: ContractState,
    post: ContractState,
    info: MessageInfo,
    nft_contract: Seq<char>,
    r: Result<Response, ContractError>,
) -> bool {
    if info.sender@ != pre.config.owner@ {
        unauthorized_post(pre, post, r)
    } else if !spec_valid_address(nft_contract) {
        is_generic_err(r, "Invalid address"@) && post == pre
    } else {
        &&& r matches Ok(resp) && resp.messages@.len() == 0 && resp.attributes@.len() == 2
            && resp.attributes@[0].key@ == "action"@
            && resp.attributes@[0].value@ == "set_nft_contract"@
            && resp.attributes@[1].key@ == "nft_contract"@
            && resp.attributes@[1].value@ == nft_contract
        &&& post.config.nft_contract matches Some(a) && a@ == nft_contract
        &&& post.config == (Config { nft_contract: post.config.nft_contract, ..pre.config })
        &&& same_records(pre, post)
    }
}

/// Owner-only: registers the address of the delegated unit-ownership
/// contract.
pub fn exec_set_nft_contract(s: &mut ContractState, info: &MessageInfo, nft_contract: String) -> (r:
    Result<Response, ContractError>)
    ensures
        set_nft_contract_post(*old(s), *final(s), *info, nft_contract@, r),
{
    if !is_owner(s, info.sender.as_str()) {
        return Err(ContractError::Unauthorized);
    }
    match validate_address(nft_contract.as_str()) {
        Err(e) => Err(e),
        Ok(()) => {
            s.config.nft_contract = Some(nft_contract.clone());
            let mut resp = Response::new();
            resp.attributes.push(attr_str("action", "set_nft_contract"));
            resp.attributes.push(attr("nft_contract", nft_contract));
            Ok(resp)
        },
    }
}

/// What registering the delegated contract's code id does.
pub open spec fn set_nft_code_id_post(
    pre: ContractState,
    post: ContractState,
    info: MessageInfo,
    code_id: u64,
    r: Result<Response, ContractError>,
) -> bool {
    if info.sender@ != pre.config.owner@ {
        unauthorized_post(pre, post, r)
    } else {
        &&& r matches Ok(resp) && resp.messages@.len() == 0 && resp.attributes@.len() == 2
            && resp.attributes@[0].key@ == "action"@
            && resp.attributes@[0].value@ == "set_nft_code_id"@
            && resp.attributes@[1].key@ == "code_id"@
            && resp.attributes@[1].value@ == spec_decimal(code_id as int)
        &&& post.config == (Config { nft_code_id: Some(code_id), ..pre.config })
        &&& same_records(pre, post)
    }
}

/// Owner-only: registers the code id used to instantiate the delegated
/// unit-ownership contract.
pub fn exec_set_nft_code_id(s: &mut ContractState, info: &MessageInfo, code_id: u64) -> (r: Result<
    Response,
    ContractError,
>)
    ensures
        set_nft_code_id_post(*old(s), *final(s), *info, code_id, r),
{
    if !is_owner(s, info.sender.as_str()) {
        return Err(ContractError::Unauthorized);
    }
    s.config.nft_code_id = Some(code_id);
    let mut resp = Response::new();
    resp.attributes.push(attr_str("action", "set_nft_code_id"));
    resp.attributes.push(attr("code_id", u64_to_string(code_id)));
    Ok(resp)
}

/// What asking for the delegated contract's instantiation does: an
/// instruction to the host, no state change.
pub open spec fn instantiate_nft_contract_post(
    pre: ContractState,
    post: ContractState,
    info: MessageInfo,
    name: String,
    symbol: String,
    base_uri: Option<String>,
    r: Result<Response, ContractError>,
) -> bool {
    if info.sender@ != pre.config.owner@ {
        unauthorized_post(pre, post, r)
    } else if pre.config.nft_code_id is None {
        is_generic_err(r, "NFT contract code ID not set"@) && post == pre
    } else if pre.config.nft_contract is Some {
        is_generic_err(r, "NFT contract already instantiated"@) && post == pre
    } else {
        &&& r matches Ok(resp) && resp.messages@.len() == 1
            && resp.messages@[0] == (OutMsg::InstantiateNft {
                code_id: pre.config.nft_code_id->0,
                name: name,
                symbol: symbol,
                base_uri: base_uri,
            })
            && resp.attributes@.len() == 4
            && resp.attributes@[0].key@ == "action"@
            && resp.attributes@[0].value@ == "instantiate_nft_contract"@
            && resp.attributes@[1].key@ == "name"@
            && resp.attributes@[1].value@ == name@
            && resp.attributes@[2].key@ == "symbol"@
            && resp.attributes@[2].value@ == symbol@
            && resp.attributes@[3].key@ == "code_id"@
            && resp.attributes@[3].value@ == spec_decimal(pre.config.nft_code_id->0 as int)
        &&& post == pre
    }
}

/// Owner-only: emits the instruction that instantiates the delegated
/// unit-ownership contract from the registered code id.
pub fn exec_instantiate_nft_contract(
    s: &mut ContractState,
    info: &MessageInfo,
    name: String,
    symbol: String,
    base_uri: Option<String>,
) -> (r: Result<Response, ContractError>)
    ensures
        instantiate_nft_contract_post(*old(s), *final(s), *info, name, symbol, base_uri, r),
{
    if !is_owner(s, info.sender.as_str()) {
        return Err(ContractError::Unauthorized);
    }
    let code_id: u64 = match s.config.nft_code_id {
        None => {
            return Err(ContractError::Generic("NFT contract code ID not set".to_owned()));
        },
        Some(id) => id,
    };
    if s.config.nft_contract.is_some() {
        return Err(ContractError::Generic("NFT contract already instantiated".to_owned()));
    }
    let mut resp = Response::new();
    resp.attributes.push(attr_str("action", "instantiate_nft_contract"));
    resp.attributes.push(attr("name", name.clone()));
    resp.attributes.push(attr("symbol", symbol.clone()));
    resp.attributes.push(attr("code_id", u64_to_string(code_id)));
    resp.messages.push(OutMsg::InstantiateNft { code_id, name, symbol, base_uri });
    Ok(resp)
}

/// What deployment does: a fresh state in the `Commit` phase, the supply
/// derived from the scale, nothing issued, nothing recorded.
pub open spec fn instantiate_post(
    info: MessageInfo,
    msg: InstantiateMsg,
    state: ContractState,
    resp: Response,
) -> bool {
    &&& state.config == (Config {
        owner: info.sender,
        total_supply: msg.scale.spec_total_supply(),
        base: msg.base,
        vote_state: VoteState::Commit,
        next_token_id: 0,
        scale: msg.scale,
        first_prize_count: match msg.first_prize_count {
            Some(c) => c,
            None => msg.scale.spec_default_first_prize_count(),
        },
        paused: false,
        commit_window: spec_unbounded_window(),
        reveal_window: spec_unbounded_window(),
        closed_window: spec_unbounded_window(),
        nft_contract: None,
        nft_code_id: None,
    })
    &&& state.wf()
    &&& state.supply_bounded()
    &&& state.tokens@.len() == 0
    &&& state.operators@.len() == 0
    &&& forall|k: Seq<char>| state.commits.spec_get(k) is None
    &&& forall|k: Seq<char>| state.reveals.spec_get(k) is None
    &&& forall|k: Seq<char>| state.deposits.spec_get(k) is None
    &&& forall|k: Seq<char>| state.tiers.spec_get(k) is None
    &&& state.reveals.spec_len() == 0
    &&& resp.messages@.len() == 0
    &&& resp.attributes@.len() == 5
    &&& resp.attributes@[0].key@ == "action"@
    &&& resp.attributes@[0].value@ == "instantiate"@
    &&& resp.attributes@[1].key@ == "owner"@
    &&& resp.attributes@[1].value@ == info.sender@
    &&& resp.attributes@[2].key@ == "scale"@
    &&& resp.attributes@[2].value@ == spec_format_state_scale(msg.scale)
    &&& resp.attributes@[3].key@ == "base_denom"@
    &&& resp.attributes@[3].value@ == msg.base.denom@
    &&& resp.attributes@[4].key@ == "base_amount"@
    &&& resp.attributes@[4].value@ == spec_decimal(msg.base.amount as int)
}

/// A window with no bounds set.
pub open spec fn spec_unbounded_window() -> PhaseWindow {
    PhaseWindow { start_height: None, end_height: None, start_time: None, end_time: None }
}

/// Deploys the contract: the caller becomes the owner, the supply is
/// derived from the scale, and the phase starts at `Commit`.
pub fn instantiate(_env: &Env, info: &MessageInfo, msg: InstantiateMsg) -> (r: (
    ContractState,
    Response,
))
    ensures
        instantiate_post(*info, msg, r.0, r.1),
{
    let first_prize_count: u32 = match msg.first_prize_count {
        Some(c) => c,
        None => msg.scale.default_first_prize_count(),
    };
    let config = Config {
        owner: info.sender.clone(),
        total_supply: msg.scale.total_supply(),
        base: msg.base.duplicate(),
        vote_state: VoteState::Commit,
        next_token_id: 0,
        scale: msg.scale,
        first_prize_count,
        paused: false,
        commit_window: PhaseWindow::unbounded(),
        reveal_window: PhaseWindow::unbounded(),
        closed_window: PhaseWindow::unbounded(),
        nft_contract: None,
        nft_code_id: None,
    };
    let state = ContractState {
        config,
        tokens: Vec::new(),
        operators: Vec::new(),
        commits: AddrMap::new(),
        reveals: AddrMap::new(),
        deposits: AddrMap::new(),
        tiers: AddrMap::new(),
    };
    let mut resp = Response::new();
    resp.attributes.push(attr_str("action", "instantiate"));
    resp.attributes.push(attr("owner", info.sender.clone()));
    resp.attributes.push(attr("scale", format_state_scale(&msg.scale)));
    resp.attributes.push(attr("base_denom", msg.base.denom));
    resp.attributes.push(attr("base_amount", u128_to_string(msg.base.amount)));
    (state, resp)
}

/// What migration does: the scale, supply and first-prize count are
/// re-derived; no per-participant record is touched.
pub open spec fn migrate_post(
    pre: ContractState,
    post: ContractState,
    msg: MigrateMsg,
    r: Result<Response, ContractError>,
) -> bool {
    &&& r matches Ok(resp) && resp.messages@.len() == 0 && resp.attributes@.len() == 2
        && resp.attributes@[0].key@ == "action"@
        && resp.attributes@[0].value@ == "migrate"@
        && resp.attributes@[1].key@ == "scale"@
        && resp.attributes@[1].value@ == spec_format_state_scale(msg.scale)
    &&& post.config == (Config {
        scale: msg.scale,
        total_supply: msg.scale.spec_total_supply(),
        first_prize_count: msg.scale.spec_first_prize_count(),
        ..pre.config
    })
    &&& same_records(pre, post)
}

/// Replaces one element of a vector.
fn vec_set<T>(v: &mut Vec<T>, i: usize, x: T)
    requires
        i < old(v)@.len(),
    ensures
        final(v)@ == old(v)@.update(i as int, x),
{
    let _replaced = v.remove(i);
    v.insert(i, x);
    assert(v@ =~= old(v)@.update(i as int, x));
}

/// The amount of the first attached coin of the wanted denomination, zero
/// if none is attached.
pub open spec fn spec_find_funds(funds: Seq<Coin>, denom: Seq<char>) -> u128
    decreases funds.len(),
{
    if funds.len() == 0 {
        0
    } else if funds[0].denom@ == denom {
        funds[0].amount
    } else {
        spec_find_funds(funds.drop_first(), denom)
    }
}

/// Finds the attached payment of the wanted denomination.
fn find_funds(funds: &Vec<Coin>, denom: &str) -> (r: u128)
    ensures
        r == spec_find_funds(funds@, denom@),
{
    let n = funds.len();
    let mut i: usize = 0;
    assert(funds@.skip(0) =~= funds@);
    while i < n
        invariant
            n == funds@.len(),
            i <= n,
            spec_find_funds(funds@, denom@) == spec_find_funds(funds@.skip(i as int), denom@),
        decreases n - i,
    {
        assert(funds@.skip(i as int)[0] == funds@[i as int]);
        if str_eq(funds[i].denom.as_str(), denom) {
            return funds[i].amount;
        }
        assert(funds@.skip(i as int).drop_first() =~= funds@.skip(i + 1));
        i = i + 1;
    }
    0
}

/// The number of units a deposit issues: the paid multiples of the base
/// price, capped by what is left of the supply.
pub open spec fn spec_minted(pre: ContractState, sent: u128) -> int {
    let multiples = sent as int / pre.config.base.amount as int;
    let avail = pre.config.total_supply - pre.config.next_token_id;
    if multiples > avail {
        avail
    } else {
        multiples
    }
}

/// What a deposit does. While not paused, a payment of at least one base
/// price buys `floor(paid / base_price)` sequential units, stopping at the
/// supply cap; the full paid amount is credited to the caller's cumulative
/// principal. With the supply exhausted nothing changes at all.
pub open spec fn deposit_post(
    pre: ContractState,
    post: ContractState,
    info: MessageInfo,
    r: Result<Response, ContractError>,
) -> bool {
    let sent = spec_find_funds(info.funds@, pre.config.base.denom@);
    let minted = spec_minted(pre, sent);
    if pre.config.paused {
        r == Err::<Response, ContractError>(ContractError::InvalidState) && post == pre
    } else if sent == 0 || sent < pre.config.base.amount {
        is_generic_err(r, "insufficient base sent"@) && post == pre
    } else if pre.config.next_token_id >= pre.config.total_supply {
        r == Err::<Response, ContractError>(ContractError::NoNftsAvailable) && post == pre
    } else {
        &&& r matches Ok(resp) && resp.messages@.len() == 0 && resp.attributes@.len() == 4
            && resp.attributes@[0].key@ == "action"@
            && resp.attributes@[0].value@ == "deposit"@
            && resp.attributes@[1].key@ == "from"@
            && resp.attributes@[1].value@ == info.sender@
            && resp.attributes@[2].key@ == "amount"@
            && resp.attributes@[2].value@ == spec_decimal(sent as int)
            && resp.attributes@[3].key@ == "minted"@
            && resp.attributes@[3].value@ == spec_decimal(minted)
        &&& post.config == (Config {
            next_token_id: (pre.config.next_token_id + minted) as u64,
            ..pre.config
        })
        &&& post.tokens@ == pre.tokens@ + Seq::new(
            minted as nat,
            |i: int| TokenInfo { owner: info.sender, approved: None },
        )
        &&& post.deposits.wf()
        &&& post.deposits.spec_get(info.sender@) == Some(Payout {
            principal: (pre.spec_principal_of(info.sender@) + sent) as u128,
        })
        &&& forall|k: Seq<char>| k != info.sender@ ==> post.deposits.spec_get(k)
            == pre.deposits.spec_get(k)
        &&& post.operators == pre.operators
        &&& post.commits == pre.commits
        &&& post.reveals == pre.reveals
        &&& post.tiers == pre.tiers
    }
}

/// The bounded minting allocator: credits the full payment and issues up to
/// `paid / base_price` sequential units, never past the total supply. This
/// is the only operation that advances the issue cursor.
#[verifier::loop_isolation(false)]
pub fn exec_deposit(s: &mut ContractState, info: &MessageInfo) -> (r: Result<
    Response,
    ContractError,
>)
    requires
        old(s).wf(),
        old(s).config.base.amount > 0,
        old(s).spec_principal_of(info.sender@) + spec_find_funds(
            info.funds@,
            old(s).config.base.denom@,
        ) <= u128::MAX,
    ensures
        deposit_post(*old(s), *final(s), *info, r),
        final(s).wf(),
        r is Ok ==> final(s).supply_bounded(),
{
    if s.config.paused {
        return Err(ContractError::InvalidState);
    }
    let sent: u128 = find_funds(&info.funds, s.config.base.denom.as_str());
    if sent == 0 || sent < s.config.base.amount {
        return Err(ContractError::Generic("insufficient base sent".to_owned()));
    }
    if s.config.next_token_id >= s.config.total_supply {
        return Err(ContractError::NoNftsAvailable);
    }
    let avail: u64 = s.config.total_supply - s.config.next_token_id;
    let multiples: u128 = sent / s.config.base.amount;
    let minted: u64 = if multiples > avail as u128 {
        avail
    } else {
        multiples as u64
    };
    assert(minted <= avail);
    assert(minted as int == spec_minted(*old(s), sent));

    let existing: u128 = match s.deposits.get(info.sender.as_str()) {
        Some(p) => p.principal,
        None => 0,
    };
    s.deposits.insert(info.sender.as_str(), Payout { principal: existing + sent });

    let ghost tokens_before = s.tokens@;
    let ghost mid = *s;
    let mut i: u64 = 0;
    while i < minted
        invariant
            i <= minted,
            s.tokens@ =~= tokens_before + Seq::new(
                i as nat,
                |j: int| TokenInfo { owner: info.sender, approved: None },
            ),
            s.config == mid.config,
            s.operators == mid.operators,
            s.commits == mid.commits,
            s.reveals == mid.reveals,
            s.deposits == mid.deposits,
            s.tiers == mid.tiers,
        decreases minted - i,
    {
        s.tokens.push(TokenInfo { owner: info.sender.clone(), approved: None });
        i = i + 1;
        assert(s.tokens@ =~= tokens_before + Seq::new(
            i as nat,
            |j: int| TokenInfo { owner: info.sender, approved: None },
        ));
    }
    s.config.next_token_id = s.config.next_token_id + minted;

    let mut resp = Response::new();
    resp.attributes.push(attr_str("action", "deposit"));
    resp.attributes.push(attr("from", info.sender.clone()));
    resp.attributes.push(attr("amount", u128_to_string(sent)));
    resp.attributes.push(attr("minted", u64_to_string(minted)));
    Ok(resp)
}

/// Whether `operator` holds a blanket grant from `owner`, decided over the
/// grant list.
pub fn is_operator(s: &ContractState, owner: &str, operator: &str) -> (r: bool)
    ensures
        r == s.spec_is_operator(owner@, operator@),
{
    let n = s.operators.len();
    let mut i: usize = 0;
    while i < n
        invariant
            n == s.operators@.len(),
            i <= n,
            forall|j: int| 0 <= j < i ==> !(s.operators@[j].owner@ == owner@
                && s.operators@[j].operator@ == operator@),
        decreases n - i,
    {
        if str_eq(s.operators[i].owner.as_str(), owner) && str_eq(
            s.operators[i].operator.as_str(),
            operator,
        ) {
            return true;
        }
        i = i + 1;
    }
    false
}

/// Whether the caller may move a unit: its owner, its approved spender, or
/// an operator of its owner.
pub open spec fn spec_can_send(pre: ContractState, sender: Seq<char>, token_id: u64) -> bool {
    let token = pre.tokens@[token_id as int];
    ||| sender == token.owner@
    ||| (token.approved matches Some(a) && a@ == sender)
    ||| pre.spec_is_operator(token.owner@, sender)
}

/// What a transfer does: authorized callers move the unit to the recipient
/// and any approval on it is cleared.
pub open spec fn transfer_post(
    pre: ContractState,
    post: ContractState,
    info: MessageInfo,
    recipient: String,
    token_id: u64,
    r: Result<Response, ContractError>,
) -> bool {
    if token_id >= pre.tokens@.len() {
        is_generic_err(r, "token not found"@) && post == pre
    } else if !spec_valid_address(recipient@) {
        is_generic_err(r, "Invalid address"@) && post == pre
    } else if !spec_can_send(pre, info.sender@, token_id) {
        unauthorized_post(pre, post, r)
    } else {
        &&& r matches Ok(resp) && resp.messages@.len() == 0 && resp.attributes@.len() == 3
            && resp.attributes@[0].key@ == "action"@
            && resp.attributes@[0].value@ == "transfer_nft"@
            && resp.attributes@[1].key@ == "token_id"@
            && resp.attributes@[1].value@ == spec_decimal(token_id as int)
            && resp.attributes@[2].key@ == "to"@
            && resp.attributes@[2].value@ == recipient@
        &&& post.tokens@ == pre.tokens@.update(
            token_id as int,
            TokenInfo { owner: recipient, approved: None },
        )
        &&& post.config == pre.config
        &&& post.operators == pre.operators
        &&& post.commits == pre.commits
        &&& post.reveals == pre.reveals
        &&& post.deposits == pre.deposits
        &&& post.tiers == pre.tiers
    }
}

/// Moves a unit to a recipient. The caller must be its owner, its approved
/// spender, or an operator of its owner; the approval is cleared.
pub fn exec_transfer(s: &mut ContractState, info: &MessageInfo, recipient: String, token_id: u64)
    -> (r: Result<Response, ContractError>)
    ensures
        transfer_post(*old(s), *final(s), *info, recipient, token_id, r),
{
    let n = s.tokens.len();
    if token_id >= n as u64 {
        return Err(ContractError::Generic("token not found".to_owned()));
    }
    let idx = token_id as usize;
    if let Err(e) = validate_address(recipient.as_str()) {
        return Err(e);
    }
    let authorized: bool = {
        if str_eq(info.sender.as_str(), s.tokens[idx].owner.as_str()) {
            true
        } else {
            let approved_ok: bool = match &s.tokens[idx].approved {
                Some(a) => str_eq(info.sender.as_str(), a.as_str()),
                None => false,
            };
            if approved_ok {
                true
            } else {
                let owner = s.tokens[idx].owner.clone();
                is_operator(s, owner.as_str(), info.sender.as_str())
            }
        }
    };
    if !authorized {
        return Err(ContractError::Unauthorized);
    }
    let token_attr = attr("token_id", u64_to_string(token_id));
    let to_attr = attr("to", recipient.clone());
    vec_set(&mut s.tokens, idx, TokenInfo { owner: recipient, approved: None });
    let mut resp = Response::new();
    resp.attributes.push(attr_str("action", "transfer_nft"));
    resp.attributes.push(token_attr);
    resp.attributes.push(to_attr);
    Ok(resp)
}

/// What an approval does: the unit's owner grants one spender transfer
/// rights over this unit, replacing any earlier approval.
pub open spec fn approve_post(
    pre: ContractState,
    post: ContractState,
    info: MessageInfo,
    spender: String,
    token_id: u64,
    r: Result<Response, ContractError>,
) -> bool {
    if token_id >= pre.tokens@.len() {
        is_generic_err(r, "token not found"@) && post == pre
    } else if !spec_valid_address(spender@) {
        is_generic_err(r, "Invalid address"@) && post == pre
    } else if info.sender@ != pre.tokens@[token_id as int].owner@ {
        unauthorized_post(pre, post, r)
    } else {
        &&& r matches Ok(resp) && resp.messages@.len() == 0 && resp.attributes@.len() == 3
            && resp.attributes@[0].key@ == "action"@
            && resp.attributes@[0].value@ == "approve"@
            && resp.attributes@[1].key@ == "token_id"@
            && resp.attributes@[1].value@ == spec_decimal(token_id as int)
            && resp.attributes@[2].key@ == "spender"@
            && resp.attributes@[2].value@ == spender@
        &&& post.tokens@ == pre.tokens@.update(
            token_id as int,
            TokenInfo { owner: pre.tokens@[token_id as int].owner, approved: Some(spender) },
        )
        &&& post.config == pre.config
        &&& post.operators == pre.operators
        &&& post.commits == pre.commits
        &&& post.reveals == pre.reveals
        &&& post.deposits == pre.deposits
        &&& post.tiers == pre.tiers
    }
}

/// Grants one spender transfer rights over one unit. Owner-of-the-unit
/// only; a later approval replaces the earlier one.
pub fn exec_approve(s: &mut ContractState, info: &MessageInfo, spender: String, token_id: u64)
    -> (r: Result<Response, ContractError>)
    ensures
        approve_post(*old(s), *final(s), *info, spender, token_id, r),
{
    let n = s.tokens.len();
    if token_id >= n as u64 {
        return Err(ContractError::Generic("token not found".to_owned()));
    }
    let idx = token_id as usize;
    if let Err(e) = validate_address(spender.as_str()) {
        return Err(e);
    }
    if !str_eq(info.sender.as_str(), s.tokens[idx].owner.as_str()) {
        return Err(ContractError::Unauthorized);
    }
    let owner = s.tokens[idx].owner.clone();
    let spender_attr = attr("spender", spender.clone());
    vec_set(&mut s.tokens, idx, TokenInfo { owner, approved: Some(spender) });
    let mut resp = Response::new();
    resp.attributes.push(attr_str("action", "approve"));
    resp.attributes.push(attr("token_id", u64_to_string(token_id)));
    resp.attributes.push(spender_attr);
    Ok(resp)
}

/// What a revocation does: the unit's owner clears its approval.
pub open spec fn revoke_post(
    pre: ContractState,
    post: ContractState,
    info: MessageInfo,
    spender: String,
    token_id: u64,
    r: Result<Response, ContractError>,
) -> bool {
    if token_id >= pre.tokens@.len() {
        is_generic_err(r, "token not found"@) && post == pre
    } else if !spec_valid_address(spender@) {
        is_generic_err(r, "Invalid address"@) && post == pre
    } else if info.sender@ != pre.tokens@[token_id as int].owner@ {
        unauthorized_post(pre, post, r)
    } else {
        &&& r matches Ok(resp) && resp.messages@.len() == 0 && resp.attributes@.len() == 3
            && resp.attributes@[0].key@ == "action"@
            && resp.attributes@[0].value@ == "revoke"@
            && resp.attributes@[1].key@ == "token_id"@
            && resp.attributes@[1].value@ == spec_decimal(token_id as int)
            && resp.attributes@[2].key@ == "spender"@
            && resp.attributes@[2].value@ == spender@
        &&& post.tokens@ == pre.tokens@.update(
            token_id as int,
            TokenInfo { owner: pre.tokens@[token_id as int].owner, approved: None },
        )
        &&& post.config == pre.config
        &&& post.operators == pre.operators
        &&& post.commits == pre.commits
        &&& post.reveals == pre.reveals
        &&& post.deposits == pre.deposits
        &&& post.tiers == pre.tiers
    }
}

/// Clears the approval on one unit. Owner-of-the-unit only.
pub fn exec_revoke(s: &mut ContractState, info: &MessageInfo, spender: String, token_id: u64) -> (r:
    Result<Response, ContractError>)
    ensures
        revoke_post(*old(s), *final(s), *info, spender, token_id, r),
{
    let n = s.tokens.len();
    if token_id >= n as u64 {
        return Err(ContractError::Generic("token not found".to_owned()));
    }
    let idx = token_id as usize;
    if let Err(e) = validate_address(spender.as_str()) {
        return Err(e);
    }
    if !str_eq(info.sender.as_str(), s.tokens[idx].owner.as_str()) {
        return Err(ContractError::Unauthorized);
    }
    let owner = s.tokens[idx].owner.clone();
    vec_set(&mut s.tokens, idx, TokenInfo { owner, approved: None });
    let mut resp = Response::new();
    resp.attributes.push(attr_str("action", "revoke"));
    resp.attributes.push(attr("token_id", u64_to_string(token_id)));
    resp.attributes.push(attr("spender", spender));
    Ok(resp)
}

/// What granting a blanket operator does. The grant is caller-scoped: any
/// address may set operators over its own holdings, never another's.
pub open spec fn approve_all_post(
    pre: ContractState,
    post: ContractState,
    info: MessageInfo,
    operator: String,
    r: Result<Response, ContractError>,
) -> bool {
    if !spec_valid_address(operator@) {
        is_generic_err(r, "Invalid address"@) && post == pre
    } else {
        &&& r matches Ok(resp) && resp.messages@.len() == 0 && resp.attributes@.len() == 3
            && resp.attributes@[0].key@ == "action"@
            && resp.attributes@[0].value@ == "approve_all"@
            && resp.attributes@[1].key@ == "owner"@
            && resp.attributes@[1].value@ == info.sender@
            && resp.attributes@[2].key@ == "operator"@
            && resp.attributes@[2].value@ == operator@
        &&& post.spec_is_operator(info.sender@, operator@)
        &&& forall|o: Seq<char>, p: Seq<char>| !(o == info.sender@ && p == operator@)
            ==> post.spec_is_operator(o, p) == pre.spec_is_operator(o, p)
        &&& post.config == pre.config
        &&& post.tokens == pre.tokens
        &&& post.commits == pre.commits
        &&& post.reveals == pre.reveals
        &&& post.deposits == pre.deposits
        &&& post.tiers == pre.tiers
    }
}

/// Grants the operator blanket transfer rights over all units the caller
/// holds.
pub fn exec_approve_all(s: &mut ContractState, info: &MessageInfo, operator: String) -> (r: Result<
    Response,
    ContractError,
>)
    requires
        old(s).wf(),
    ensures
        approve_all_post(*old(s), *final(s), *info, operator, r),
        final(s).wf(),
{
    if let Err(e) = validate_address(operator.as_str()) {
        return Err(e);
    }
    let already = is_operator(s, info.sender.as_str(), operator.as_str());
    if !already {
        s.operators.push(OperatorGrant { owner: info.sender.clone(), operator: operator.clone() });
        proof {
            let pre_ops = old(s).operators@;
            let post_ops = s.operators@;
            assert(post_ops[pre_ops.len() as int].owner@ == info.sender@);
            assert forall|o: Seq<char>, p: Seq<char>| !(o == info.sender@ && p == operator@)
                implies s.spec_is_operator(o, p) == old(s).spec_is_operator(o, p) by {
                if old(s).spec_is_operator(o, p) {
                    let i = choose|i: int|
                        0 <= i < pre_ops.len() && pre_ops[i].owner@ == o && pre_ops[i].operator@
                            == p;
                    assert(post_ops[i].owner@ == o && post_ops[i].operator@ == p);
                }
                if s.spec_is_operator(o, p) {
                    let i = choose|i: int|
                        0 <= i < post_ops.len() && post_ops[i].owner@ == o && post_ops[i].operator@
                            == p;
                    assert(i < pre_ops.len());
                    assert(pre_ops[i].owner@ == o && pre_ops[i].operator@ == p);
                }
            }
        }
    }
    let mut resp = Response::new();
    resp.attributes.push(attr_str("action", "approve_all"));
    resp.attributes.push(attr("owner", info.sender.clone()));
    resp.attributes.push(attr("operator", operator));
    Ok(resp)
}

/// What revoking a blanket operator does: the caller's own grant to this
/// operator is gone, every other grant stays.
pub open spec fn revoke_all_post(
    pre: ContractState,
    post: ContractState,
    info: MessageInfo,
    operator: String,
    r: Result<Response, ContractError>,
) -> bool {
    if !spec_valid_address(operator@) {
        is_generic_err(r, "Invalid address"@) && post == pre
    } else {
        &&& r matches Ok(resp) && resp.messages@.len() == 0 && resp.attributes@.len() == 3
            && resp.attributes@[0].key@ == "action"@
            && resp.attributes@[0].value@ == "revoke_all"@
            && resp.attributes@[1].key@ == "owner"@
            && resp.attributes@[1].value@ == info.sender@
            && resp.attributes@[2].key@ == "operator"@
            && resp.attributes@[2].value@ == operator@
        &&& !post.spec_is_operator(info.sender@, operator@)
        &&& forall|o: Seq<char>, p: Seq<char>| !(o == info.sender@ && p == operator@)
            ==> post.spec_is_operator(o, p) == pre.spec_is_operator(o, p)
        &&& post.config == pre.config
        &&& post.tokens == pre.tokens
        &&& post.commits == pre.commits
        &&& post.reveals == pre.reveals
        &&& post.deposits == pre.deposits
        &&& post.tiers == pre.tiers
    }
}

/// Withdraws the caller's blanket grant to the operator, if one stands.
pub fn exec_revoke_all(s: &mut ContractState, info: &MessageInfo, operator: String) -> (r: Result<
    Response,
    ContractError,
>)
    requires
        old(s).wf(),
    ensures
        revoke_all_post(*old(s), *final(s), *info, operator, r),
        final(s).wf(),
{
    if let Err(e) = validate_address(operator.as_str()) {
        return Err(e);
    }
    let n = s.operators.len();
    let mut i: usize = 0;
    let mut found: bool = false;
    let mut found_at: usize = 0;
    while i < n
        invariant
            n == s.operators@.len(),
            i <= n,
            !found ==> forall|j: int| 0 <= j < i ==> !(s.operators@[j].owner@ == info.sender@
                && s.operators@[j].operator@ == operator@),
            found ==> found_at < i && s.operators@[found_at as int].owner@ == info.sender@
                && s.operators@[found_at as int].operator@ == operator@,
        decreases n - i,
    {
        if !found && str_eq(s.operators[i].owner.as_str(), info.sender.as_str()) && str_eq(
            s.operators[i].operator.as_str(),
            operator.as_str(),
        ) {
            found = true;
            found_at = i;
        }
        i = i + 1;
    }
    if found {
        let ghost pre_ops = s.operators@;
        let _removed = s.operators.remove(found_at);
        proof {
            let fi = found_at as int;
            let post_ops = s.operators@;
            assert forall|o: Seq<char>, p: Seq<char>| !(o == info.sender@ && p == operator@)
                implies s.spec_is_operator(o, p) == old(s).spec_is_operator(o, p) by {
                if old(s).spec_is_operator(o, p) {
                    let i0 = choose|i0: int|
                        0 <= i0 < pre_ops.len() && pre_ops[i0].owner@ == o && pre_ops[i0].operator@
                            == p;
                    if i0 < fi {
                        assert(post_ops[i0].owner@ == o && post_ops[i0].operator@ == p);
                    } else {
                        assert(i0 != fi);
                        assert(post_ops[i0 - 1].owner@ == o && post_ops[i0 - 1].operator@ == p);
                    }
                }
                if s.spec_is_operator(o, p) {
                    let i0 = choose|i0: int|
                        0 <= i0 < post_ops.len() && post_ops[i0].owner@ == o
                            && post_ops[i0].operator@ == p;
                    if i0 < fi {
                        assert(pre_ops[i0].owner@ == o && pre_ops[i0].operator@ == p);
                    } else {
                        assert(pre_ops[i0 + 1].owner@ == o && pre_ops[i0 + 1].operator@ == p);
                    }
                }
            }
            assert forall|i0: int|
                0 <= i0 < s.operators@.len() implies !(s.operators@[i0].owner@ == info.sender@
                && s.operators@[i0].operator@ == operator@) by {
                if i0 < fi {
                    assert(s.operators@[i0] == pre_ops[i0]);
                } else {
                    assert(s.operators@[i0] == pre_ops[i0 + 1]);
                }
            }
        }
    }
    let mut resp = Response::new();
    resp.attributes.push(attr_str("action", "revoke_all"));
    resp.attributes.push(attr("owner", info.sender.clone()));
    resp.attributes.push(attr("operator", operator));
    Ok(resp)
}

/// Re-derives the supply parameters from a new scale. Per-participant
/// records, the phase and the issue cursor stay as they are.
pub fn migrate(s: &mut ContractState, _env: &Env, msg: MigrateMsg) -> (r: Result<
    Response,
    ContractError,
>)
    ensures
        migrate_post(*old(s), *final(s), msg, r),
{
    s.config.scale = msg.scale;
    s.config.total_supply = msg.scale.total_supply();
    s.config.first_prize_count = msg.scale.first_prize_count();
    let mut resp = Response::new();
    resp.attributes.push(attr_str("action", "migrate"));
    resp.attributes.push(attr("scale", format_state_scale(&msg.scale)));
    Ok(resp)
}

/// The first event of the instantiate kind, if any.
pub open spec fn spec_first_instantiate(events: Seq<Event>) -> Option<Event>
    decreases events.len(),
{
    if events.len() == 0 {
        None
    } else if events[0].ty@ == "instantiate"@ {
        Some(events[0])
    } else {
        spec_first_instantiate(events.drop_first())
    }
}

/// The value of the first contract-address attribute, if any.
pub open spec fn spec_contract_addr_attr(attrs: Seq<Attribute>) -> Option<String>
    decreases attrs.len(),
{
    if attrs.len() == 0 {
        None
    } else if attrs[0].key@ == "_contract_address"@ {
        Some(attrs[0].value)
    } else {
        spec_contract_addr_attr(attrs.drop_first())
    }
}

/// What handling a submessage callback does: if the host reports an
/// instantiate event carrying a contract address, that address is
/// registered as the delegated unit-ownership contract; otherwise the
/// callback is acknowledged and nothing changes.
pub open spec fn reply_post(
    pre: ContractState,
    post: ContractState,
    msg: SubMsgResponse,
    r: Result<Response, ContractError>,
) -> bool {
    let found = match spec_first_instantiate(msg.events@) {
        Some(e) => spec_contract_addr_attr(e.attributes@),
        None => None,
    };
    match found {
        None => {
            &&& r matches Ok(resp) && resp.messages@.len() == 0 && resp.attributes@.len() == 1
                && resp.attributes@[0].key@ == "action"@
                && resp.attributes@[0].value@ == "reply_success"@
            &&& post == pre
        },
        Some(a) => {
            if !spec_valid_address(a@) {
                is_generic_err(r, "Invalid address"@) && post == pre
            } else {
                &&& r matches Ok(resp) && resp.messages@.len() == 0 && resp.attributes@.len()
                    == 2
                    && resp.attributes@[0].key@ == "action"@
                    && resp.attributes@[0].value@ == "nft_contract_instantiated"@
                    && resp.attributes@[1].key@ == "contract_address"@
                    && resp.attributes@[1].value@ == a@
                &&& post.config == (Config { nft_contract: Some(a), ..pre.config })
                &&& same_records(pre, post)
            }
        },
    }
}

/// Finds the first instantiate event among the reported events.
fn find_instantiate_event(events: &Vec<Event>) -> (r: Option<&Event>)
    ensures
        (match spec_first_instantiate(events@) {
            Some(e) => r matches Some(re) && *re == e,
            None => r is None,
        }),
{
    let n = events.len();
    let mut i: usize = 0;
    assert(events@.skip(0) =~= events@);
    while i < n
        invariant
            n == events@.len(),
            i <= n,
            spec_first_instantiate(events@) == spec_first_instantiate(events@.skip(i as int)),
        decreases n - i,
    {
        assert(events@.skip(i as int)[0] == events@[i as int]);
        if str_eq(events[i].ty.as_str(), "instantiate") {
            return Some(&events[i]);
        }
        assert(events@.skip(i as int).drop_first() =~= events@.skip(i + 1));
        i = i + 1;
    }
    None
}

/// Finds the first contract-address attribute of an event.
fn find_contract_addr_attr(attrs: &Vec<Attribute>) -> (r: Option<&String>)
    ensures
        (match spec_contract_addr_attr(attrs@) {
            Some(a) => r matches Some(ra) && *ra == a,
            None => r is None,
        }),
{
    let n = attrs.len();
    let mut i: usize = 0;
    assert(attrs@.skip(0) =~= attrs@);
    while i < n
        invariant
            n == attrs@.len(),
            i <= n,
            spec_contract_addr_attr(attrs@) == spec_contract_addr_attr(attrs@.skip(i as int)),
        decreases n - i,
    {
        assert(attrs@.skip(i as int)[0] == attrs@[i as int]);
        if str_eq(attrs[i].key.as_str(), "_contract_address") {
            return Some(&attrs[i].value);
        }
        assert(attrs@.skip(i as int).drop_first() =~= attrs@.skip(i + 1));
        i = i + 1;
    }
    None
}

/// Handles the host's submessage callback: registers the address of a
/// freshly instantiated delegated contract, if the events carry one.
pub fn reply(s: &mut ContractState, _env: &Env, msg: SubMsgResponse) -> (r: Result<
    Response,
    ContractError,
>)
    ensures
        reply_post(*old(s), *final(s), msg, r),
{
    let addr: Option<String> = match find_instantiate_event(&msg.events) {
        Some(e) => {
            match find_contract_addr_attr(&e.attributes) {
                Some(a) => Some(a.clone()),
                None => None,
            }
        },
        None => None,
    };
    match addr {
        None => {
            let mut resp = Response::new();
            resp.attributes.push(attr_str("action", "reply_success"));
            Ok(resp)
        },
        Some(a) => {
            if let Err(e) = validate_address(a.as_str()) {
                return Err(e);
            }
            s.config.nft_contract = Some(a.clone());
            let mut resp = Response::new();
            resp.attributes.push(attr_str("action", "nft_contract_instantiated"));
            resp.attributes.push(attr("contract_address", a));
            Ok(resp)
        },
    }
}

/// What each operation does, by message.
pub open spec fn execute_post(
    pre: ContractState,
    post: ContractState,
    env: Env,
    info: MessageInfo,
    msg: ExecuteMsg,
    r: Result<Response, ContractError>,
) -> bool {
    match msg {
        ExecuteMsg::SetBase { base } => set_base_post(pre, post, info, base, r),
        ExecuteMsg::Deposit {} => deposit_post(pre, post, info, r),
        ExecuteMsg::SetVoteState { state } => set_vote_state_post(pre, post, info, state, r),
        ExecuteMsg::SetPaused { paused } => set_paused_post(pre, post, info, paused, r),
        ExecuteMsg::SetCommitWindow { start_height, end_height, start_time, end_time } =>
            set_window_post(
            pre,
            post,
            info,
            0,
            PhaseWindow { start_height, end_height, start_time, end_time },
            r,
        ),
        ExecuteMsg::SetRevealWindow { start_height, end_height, start_time, end_time } =>
            set_window_post(
            pre,
            post,
            info,
            1,
            PhaseWindow { start_height, end_height, start_time, end_time },
            r,
        ),
        ExecuteMsg::SetClosedWindow { start_height, end_height, start_time, end_time } =>
            set_window_post(
            pre,
            post,
            info,
            2,
            PhaseWindow { start_height, end_height, start_time, end_time },
            r,
        ),
        ExecuteMsg::SetNftContract { nft_contract } => set_nft_contract_post(
            pre,
            post,
            info,
            nft_contract@,
            r,
        ),
        ExecuteMsg::SetNftCodeId { code_id } => set_nft_code_id_post(pre, post, info, code_id, r),
        ExecuteMsg::InstantiateNftContract { name, symbol, base_uri } =>
            instantiate_nft_contract_post(pre, post, info, name, symbol, base_uri, r),
        ExecuteMsg::CommitVote { commitment } => crate::voting::commit_post(
            pre,
            post,
            env,
            info,
            commitment,
            r,
        ),
        ExecuteMsg::RevealVote { reveal, salt } => crate::voting::reveal_post(
            pre,
            post,
            env,
            info,
            reveal,
            salt,
            r,
        ),
        ExecuteMsg::Finalize {} => crate::settlement::finalize_post(pre, post, env, info, r),
        ExecuteMsg::TransferNft { recipient, token_id } => transfer_post(
            pre,
            post,
            info,
            recipient,
            token_id,
            r,
        ),
        ExecuteMsg::Approve { spender, token_id } => approve_post(
            pre,
            post,
            info,
            spender,
            token_id,
            r,
        ),
        ExecuteMsg::Revoke { spender, token_id } => revoke_post(
            pre,
            post,
            info,
            spender,
            token_id,
            r,
        ),
        ExecuteMsg::ApproveAll { operator } => approve_all_post(pre, post, info, operator, r),
        ExecuteMsg::RevokeAll { operator } => revoke_all_post(pre, post, info, operator, r),
    }
}

/// Dispatches a state-changing operation to its handler.
pub fn execute(s: &mut ContractState, env: &Env, info: &MessageInfo, msg: ExecuteMsg) -> (r: Result<
    Response,
    ContractError,
>)
    requires
        old(s).wf(),
        (msg matches ExecuteMsg::Deposit {} ==> old(s).config.base.amount > 0 && old(
            s,
        ).spec_principal_of(info.sender@) + spec_find_funds(
            info.funds@,
            old(s).config.base.denom@,
        ) <= u128::MAX),
        (msg matches ExecuteMsg::Finalize {} ==> forall|k: Seq<char>|
            old(s).spec_principal_of(k) <= u128::MAX / 2),
    ensures
        execute_post(*old(s), *final(s), *env, *info, msg, r),
        final(s).wf(),
{
    match msg {
        ExecuteMsg::SetBase { base } => exec_set_base(s, info, base),
        ExecuteMsg::Deposit {} => exec_deposit(s, info),
        ExecuteMsg::SetVoteState { state } => exec_set_vote_state(s, info, state),
        ExecuteMsg::SetPaused { paused } => exec_set_paused(s, info, paused),
        ExecuteMsg::SetCommitWindow { start_height, end_height, start_time, end_time } =>
            exec_set_window(s, info, 0, start_height, end_height, start_time, end_time),
        ExecuteMsg::SetRevealWindow { start_height, end_height, start_time, end_time } =>
            exec_set_window(s, info, 1, start_height, end_height, start_time, end_time),
        ExecuteMsg::SetClosedWindow { start_height, end_height, start_time, end_time } =>
            exec_set_window(s, info, 2, start_height, end_height, start_time, end_time),
        ExecuteMsg::SetNftContract { nft_contract } => exec_set_nft_contract(s, info, nft_contract),
        ExecuteMsg::SetNftCodeId { code_id } => exec_set_nft_code_id(s, info, code_id),
        ExecuteMsg::InstantiateNftContract { name, symbol, base_uri } =>
            exec_instantiate_nft_contract(s, info, name, symbol, base_uri),
        ExecuteMsg::CommitVote { commitment } => crate::voting::exec_commit(
            s,
            env,
            info,
            commitment,
        ),
        ExecuteMsg::RevealVote { reveal, salt } => crate::voting::exec_reveal(
            s,
            env,
            info,
            reveal,
            salt,
        ),
        ExecuteMsg::Finalize {} => crate::settlement::exec_finalize(s, env, info),
        ExecuteMsg::TransferNft { recipient, token_id } => exec_transfer(
            s,
            info,
            recipient,
            token_id,
        ),
        ExecuteMsg::Approve { spender, token_id } => exec_approve(s, info, spender, token_id),
        ExecuteMsg::Revoke { spender, token_id } => exec_revoke(s, info, spender, token_id),
        ExecuteMsg::ApproveAll { operator } => exec_approve_all(s, info, operator),
        ExecuteMsg::RevokeAll { operator } => exec_revoke_all(s, info, operator),
    }
}

/// The supply bound: a deposit never drives the issue cursor past the
/// total supply and never moves it backwards; and once the cursor stands
/// at the supply, a deposit that would otherwise mint fails with
/// `NoNftsAvailable` and leaves every record untouched.
pub proof fn lemma_deposit_supply_bound(
    pre: ContractState,
    post: ContractState,
    info: MessageInfo,
    r: Result<Response, ContractError>,
)
    requires
        deposit_post(pre, post, info, r),
        pre.supply_bounded(),
        pre.config.base.amount > 0,
    ensures
        post.supply_bounded(),
        post.config.next_token_id >= pre.config.next_token_id,
        pre.config.next_token_id == pre.config.total_supply && !pre.config.paused
            && spec_find_funds(info.funds@, pre.config.base.denom@) >= pre.config.base.amount
            && spec_find_funds(info.funds@, pre.config.base.denom@) > 0 ==> r == Err::<
            Response,
            ContractError,
        >(ContractError::NoNftsAvailable) && post == pre,
{
}

} // verus!
