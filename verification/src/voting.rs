//! The commitment-reveal voting protocol. A participant commits to an
//! opaque string during the `Commit` phase, then discloses the value and
//! salt during the `Reveal` phase; the reveal is stored only if
//! `sha256(address|value|salt)` in lowercase hex equals the stored
//! commitment byte for byte.

use vstd::prelude::*;
use crate::contract::{in_window, is_generic_err, spec_in_window};
use crate::error::ContractError;
use crate::hashing::{commitment_hash, compute_commitment};
use crate::msg::{attr, attr_str, Env, MessageInfo, Response};
use crate::state::{CommitInfo, ContractState, PhaseWindow, RevealInfo, VoteState};
use crate::strings::str_eq;

verus! {

/// The error reported when the block falls outside a phase window: the
/// block time against the configured time bounds, unset bounds reported as
/// zero and the largest time.
pub open spec fn outside_window_err<T>(
    r: Result<T, ContractError>,
    env: Env,
    w: PhaseWindow,
) -> bool {
    r == Err::<T, ContractError>(ContractError::OutsideWindow {
        current: env.block_time,
        start: match w.start_time {
            Some(s) => s,
            None => 0,
        },
        end: match w.end_time {
            Some(e) => e,
            None => u64::MAX,
        },
    })
}

/// Builds the outside-window error for a window.
fn make_outside_window_err(env: &Env, w: &PhaseWindow) -> (e: ContractError)
    ensures
        outside_window_err(Err::<Response, ContractError>(e), *env, *w),
{
    ContractError::OutsideWindow {
        current: env.block_time,
        start: match w.start_time {
            Some(s) => s,
            None => 0,
        },
        end: match w.end_time {
            Some(e) => e,
            None => u64::MAX,
        },
    }
}

/// What a commit does: in the `Commit` phase, inside the commit window, the
/// caller's commitment is stored, a later commit overwriting the earlier
/// one. No other record moves.
pub open spec fn commit_post(
    pre: ContractState,
    post: ContractState,
    env: Env,
    info: MessageInfo,
    commitment: String,
    r: Result<Response, ContractError>,
) -> bool {
    if pre.config.vote_state != VoteState::Commit {
        r == Err::<Response, ContractError>(ContractError::CommitNotActive) && post == pre
    } else if !spec_in_window(env, pre.config.commit_window) {
        outside_window_err(r, env, pre.config.commit_window) && post == pre
    } else {
        &&& r matches Ok(resp) && resp.messages@.len() == 0 && resp.attributes@.len() == 3
            && resp.attributes@[0].key@ == "action"@
            && resp.attributes@[0].value@ == "commit"@
            && resp.attributes@[1].key@ == "voter"@
            && resp.attributes@[1].value@ == info.sender@
            && resp.attributes@[2].key@ == "commitment"@
            && resp.attributes@[2].value@ == commitment@
        &&& post.commits.wf()
        &&& post.commits.spec_get(info.sender@) == Some(CommitInfo { commitment })
        &&& forall|k: Seq<char>| k != info.sender@ ==> post.commits.spec_get(k)
            == pre.commits.spec_get(k)
        &&& post.config == pre.config
        &&& post.tokens == pre.tokens
        &&& post.operators == pre.operators
        &&& post.reveals == pre.reveals
        &&& post.deposits == pre.deposits
        &&& post.tiers == pre.tiers
    }
}

/// Stores the caller's commitment. Valid only in the `Commit` phase and
/// inside the commit window; a later commit overwrites the earlier one.
pub fn exec_commit(s: &mut ContractState, env: &Env, info: &MessageInfo, commitment: String) -> (r:
    Result<Response, ContractError>)
    requires
        old(s).wf(),
    ensures
        commit_post(*old(s), *final(s), *env, *info, commitment, r),
        final(s).wf(),
{
    if !(matches!(s.config.vote_state, VoteState::Commit)) {
        return Err(ContractError::CommitNotActive);
    }
    if !in_window(env, &s.config.commit_window) {
        return Err(make_outside_window_err(env, &s.config.commit_window));
    }
    let commitment_attr = attr("commitment", commitment.clone());
    s.commits.insert(info.sender.as_str(), CommitInfo { commitment });
    let mut resp = Response::new();
    resp.attributes.push(attr_str("action", "commit"));
    resp.attributes.push(attr("voter", info.sender.clone()));
    resp.attributes.push(commitment_attr);
    Ok(resp)
}

/// What a reveal does: in the `Reveal` phase, inside the reveal window, the
/// disclosed value and salt are stored exactly when their hash matches the
/// stored commitment; on any failure nothing is stored.
pub open spec fn reveal_post(
    pre: ContractState,
    post: ContractState,
    env: Env,
    info: MessageInfo,
    reveal: String,
    salt: String,
    r: Result<Response, ContractError>,
) -> bool {
    if pre.config.vote_state != VoteState::Reveal {
        r == Err::<Response, ContractError>(ContractError::RevealNotActive) && post == pre
    } else if !spec_in_window(env, pre.config.reveal_window) {
        outside_window_err(r, env, pre.config.reveal_window) && post == pre
    } else if pre.commits.spec_get(info.sender@) is None {
        r == Err::<Response, ContractError>(ContractError::NothingToReveal) && post == pre
    } else if commitment_hash(info.sender@, reveal@, salt@)
        != pre.commits.spec_get(info.sender@)->0.commitment@ {
        is_generic_err(r, "commitment mismatch"@) && post == pre
    } else {
        &&& r matches Ok(resp) && resp.messages@.len() == 0 && resp.attributes@.len() == 3
            && resp.attributes@[0].key@ == "action"@
            && resp.attributes@[0].value@ == "reveal"@
            && resp.attributes@[1].key@ == "voter"@
            && resp.attributes@[1].value@ == info.sender@
            && resp.attributes@[2].key@ == "reveal"@
            && resp.attributes@[2].value@ == reveal@
        &&& post.reveals.wf()
        &&& post.reveals.spec_get(info.sender@) == Some(RevealInfo { reveal, salt })
        &&& forall|k: Seq<char>| k != info.sender@ ==> post.reveals.spec_get(k)
            == pre.reveals.spec_get(k)
        &&& post.config == pre.config
        &&& post.tokens == pre.tokens
        &&& post.operators == pre.operators
        &&& post.commits == pre.commits
        &&& post.deposits == pre.deposits
        &&& post.tiers == pre.tiers
    }
}

/// Verifies and stores the caller's reveal: the hash of
/// `address|value|salt` must equal the stored commitment; a repeated
/// successful reveal overwrites the earlier one.
pub fn exec_reveal(
    s: &mut ContractState,
    env: &Env,
    info: &MessageInfo,
    reveal: String,
    salt: String,
) -> (r: Result<Response, ContractError>)
    requires
        old(s).wf(),
    ensures
        reveal_post(*old(s), *final(s), *env, *info, reveal, salt, r),
        final(s).wf(),
{
    if !(matches!(s.config.vote_state, VoteState::Reveal)) {
        return Err(ContractError::RevealNotActive);
    }
    if !in_window(env, &s.config.reveal_window) {
        return Err(make_outside_window_err(env, &s.config.reveal_window));
    }
    let stored: String = match s.commits.get(info.sender.as_str()) {
        None => {
            return Err(ContractError::NothingToReveal);
        },
        Some(c) => c.commitment.clone(),
    };
    let calc = compute_commitment(info.sender.as_str(), reveal.as_str(), salt.as_str());
    if !str_eq(calc.as_str(), stored.as_str()) {
        return Err(ContractError::Generic("commitment mismatch".to_owned()));
    }
    let reveal_attr = attr("reveal", reveal.clone());
    s.reveals.insert(info.sender.as_str(), RevealInfo { reveal, salt });
    let mut resp = Response::new();
    resp.attributes.push(attr_str("action", "reveal"));
    resp.attributes.push(attr("voter", info.sender.clone()));
    resp.attributes.push(reveal_attr);
    Ok(resp)
}

/// Phase gating is deterministic: a rejected commit changes nothing, and
/// repeating the identical call is rejected with the identical error,
/// however many times it is tried.
pub proof fn lemma_commit_gating_deterministic(
    pre: ContractState,
    mid: ContractState,
    post: ContractState,
    env: Env,
    info: MessageInfo,
    commitment: String,
    r1: Result<Response, ContractError>,
    r2: Result<Response, ContractError>,
)
    requires
        commit_post(pre, mid, env, info, commitment, r1),
        r1 is Err,
        commit_post(mid, post, env, info, commitment, r2),
    ensures
        mid == pre,
        post == pre,
        r2 == r1,
{
}

/// A reveal succeeds exactly when the hash of `address|value|salt` equals
/// the stored commitment; a mismatched reveal fails and stores nothing.
pub proof fn lemma_reveal_matches_commitment(
    pre: ContractState,
    post: ContractState,
    env: Env,
    info: MessageInfo,
    reveal: String,
    salt: String,
    r: Result<Response, ContractError>,
)
    requires
        reveal_post(pre, post, env, info, reveal, salt, r),
        pre.config.vote_state == VoteState::Reveal,
        spec_in_window(env, pre.config.reveal_window),
        pre.commits.spec_get(info.sender@) is Some,
    ensures
        r is Ok <==> commitment_hash(info.sender@, reveal@, salt@)
            == pre.commits.spec_get(info.sender@)->0.commitment@,
        r is Err ==> post == pre,
        r is Ok ==> post.reveals.spec_get(info.sender@) == Some(
            RevealInfo { reveal, salt },
        ),
{
}

} // verus!
