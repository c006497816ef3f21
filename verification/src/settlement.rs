//! The tiered settlement engine. With the phase `Closed`, inside the
//! closed window and unpaused, the owner settles: revealed voters are
//! listed in ascending address order, split into three contiguous tiers by
//! fixed percentages (first 10%, next 50%, remainder; each of the first two
//! at least one voter), and each voter with a non-zero principal is paid
//! 2x, 1x or 0.5x of it. All tier assignments are recorded before any
//! transfer instruction is emitted.
//!
//! A 128-bit group value is also derived for every voter from the block
//! context and its revealed value. It is recomputed identically on a replay
//! with the same inputs, but its unpredictability rests entirely on the
//! entropy available to whoever finalizes; the partition itself is by
//! position in the ordered voter list.

use vstd::prelude::*;
use vstd::arithmetic::power2::{pow2, lemma_pow2_adds, lemma2_to64};
use vstd::string::StringExecFns;
use vstd::utf8::encode_utf8;
use crate::contract::{in_window, is_owner, spec_in_window};
use crate::error::ContractError;
use crate::hashing::{sha256, sha256_of};
use crate::msg::{attr, attr_str, Env, MessageInfo, OutMsg, Response};
use crate::state::{ContractState, VoteState};
use crate::strings::{spec_decimal, u64_to_string};

verus! {

/// The settlement safety ceiling: more voters than this are refused, to
/// bound the cost of the per-voter work.
pub const MAX_VOTERS: usize = 1000;

/// The size of the first tier: 10% of the voters, at least one.
pub open spec fn tier1_count(n: int) -> int {
    if n * 10 / 100 < 1 {
        1
    } else {
        n * 10 / 100
    }
}

/// The nominal size of the second tier: 50% of the voters, at least one.
pub open spec fn tier2_count(n: int) -> int {
    if n * 50 / 100 < 1 {
        1
    } else {
        n * 50 / 100
    }
}

/// The tier of the voter at position `i` of the ordered list of `n`
/// voters: the first `tier1_count` are tier 1, the next `tier2_count` tier
/// 2, the remainder tier 3.
pub open spec fn spec_tier_of_index(i: int, n: int) -> u8 {
    if i < tier1_count(n) {
        1
    } else if i < tier1_count(n) + tier2_count(n) {
        2
    } else {
        3
    }
}

/// The payout for a principal in a tier: 2x, 1x, or 0.5x truncated.
pub open spec fn spec_payout(p: u128, t: u8) -> int {
    if t == 1 {
        p * 2
    } else if t == 2 {
        p as int
    } else {
        p as int / 2
    }
}

/// The voters: the addresses with a reveal record, in ascending order.
pub open spec fn spec_voters(s: ContractState) -> Seq<Seq<char>> {
    s.reveals.key_seq()
}

/// Whether `k` is one of the first `upto` voters and has deposited.
pub open spec fn spec_paid_voter_before(s: ContractState, k: Seq<char>, upto: int) -> bool {
    exists|j: int|
        0 <= j < upto && spec_voters(s)[j] == k && s.spec_principal_of(k) > 0
}

/// The payouts the settlement emits, in voter order, from position `i` on:
/// voters with no principal are skipped, and so is a payout of exactly
/// zero.
pub open spec fn spec_payout_seq(s: ContractState, i: int) -> Seq<(Seq<char>, u128)>
    decreases spec_voters(s).len() - i,
{
    let n = spec_voters(s).len() as int;
    if i < 0 || i >= n {
        Seq::empty()
    } else {
        let k = spec_voters(s)[i];
        let p = s.spec_principal_of(k);
        let rest = spec_payout_seq(s, i + 1);
        if p == 0 {
            rest
        } else {
            let amt = spec_payout(p, spec_tier_of_index(i, n));
            if amt == 0 {
                rest
            } else {
                seq![(k, amt as u128)] + rest
            }
        }
    }
}

/// A big-endian unsigned integer read from a byte sequence.
pub open spec fn spec_be_u128(b: Seq<u8>) -> int
    decreases b.len(),
{
    if b.len() == 0 {
        0
    } else {
        spec_be_u128(b.drop_last()) * 256 + b.last()
    }
}

/// A big-endian read of `l` bytes is below `2^(8l)`.
pub proof fn lemma_be_u128_bound(b: Seq<u8>)
    ensures
        0 <= spec_be_u128(b) < pow2((8 * b.len()) as nat),
    decreases b.len(),
{
    if b.len() == 0 {
        lemma2_to64();
    } else {
        lemma_be_u128_bound(b.drop_last());
        lemma_pow2_adds((8 * (b.len() - 1)) as nat, 8);
        lemma2_to64();
    }
}

/// Reads 16 bytes big-endian.
fn be_u128_at(h: &Vec<u8>, off: usize) -> (r: u128)
    requires
        off + 16 <= h@.len(),
    ensures
        r == spec_be_u128(h@.subrange(off as int, off as int + 16)),
{
    let mut acc: u128 = 0;
    let mut j: usize = 0;
    let hl: usize = h.len();
    assert(h@.subrange(off as int, off as int).len() == 0);
    while j < 16
        invariant
            j <= 16,
            hl == h@.len(),
            off + 16 <= hl,
            acc == spec_be_u128(h@.subrange(off as int, off as int + j)),
        decreases 16 - j,
    {
        proof {
            lemma_be_u128_bound(h@.subrange(off as int, off as int + j));
            lemma_pow2_adds((8 * j) as nat, (128 - 8 * j) as nat);
            lemma_pow2_adds(64, 64);
            lemma2_to64();
            assert(pow2((8 * j) as nat) <= pow2(120)) by {
                if 8 * j < 120 {
                    vstd::arithmetic::power2::lemma_pow2_strictly_increases(
                        (8 * j) as nat,
                        120,
                    );
                }
            }
            assert(pow2(120) * pow2(8) == pow2(128)) by {
                lemma_pow2_adds(120, 8);
            }
        }
        let b: u8 = h[off + j];
        assert(acc < pow2(120));
        assert(acc * 256 + b < pow2(128)) by {
            assert(acc * 256 <= (pow2(120) - 1) * 256) by (nonlinear_arith)
                requires
                    0 <= acc,
                    acc <= pow2(120) - 1,
            ;
            assert(pow2(120) * 256 == pow2(128));
        }
        assert(pow2(128) == 0x100000000000000000000000000000000) by {
            lemma_pow2_adds(64, 64);
            lemma2_to64();
        }
        acc = acc * 256 + (b as u128);
        j = j + 1;
        proof {
            let sub = h@.subrange(off as int, off as int + j);
            assert(sub.drop_last() =~= h@.subrange(off as int, off as int + j - 1));
            assert(sub.last() == h@[off + j - 1]);
        }
    }
    acc
}

/// The seed of the per-voter group values: block height, block time, the
/// contract's own address, and the transaction ordinal (zero if absent),
/// concatenated.
pub open spec fn spec_seed(env: Env) -> Seq<char> {
    spec_decimal(env.block_height as int) + spec_decimal(env.block_time as int)
        + env.contract_address@ + spec_decimal(
        match env.transaction_index {
            Some(i) => i as int,
            None => 0,
        },
    )
}

/// Builds the settlement seed from the block context.
pub fn build_seed(env: &Env) -> (r: String)
    ensures
        r@ == spec_seed(*env),
{
    let mut seed = u64_to_string(env.block_height);
    seed.append(u64_to_string(env.block_time).as_str());
    seed.append(env.contract_address.as_str());
    let ordinal: u64 = match env.transaction_index {
        Some(i) => i as u64,
        None => 0,
    };
    seed.append(u64_to_string(ordinal).as_str());
    assert(seed@ =~= spec_seed(*env));
    seed
}

/// The three 128-bit group values of one voter: three overlapping
/// big-endian reads of `sha256(seed + address + revealed value)`.
pub open spec fn spec_group_values(seed: Seq<char>, addr: Seq<char>, reveal: Seq<char>) -> (
    int,
    int,
    int,
) {
    let digest = sha256_of(encode_utf8(seed + addr + reveal));
    (
        spec_be_u128(digest.subrange(0, 16)),
        spec_be_u128(digest.subrange(8, 24)),
        spec_be_u128(digest.subrange(16, 32)),
    )
}

/// Derives the three deterministic 128-bit group values of one voter. The
/// result depends only on the seed, the address and the revealed value, so
/// a replayed settlement derives the same values.
pub fn derive_group_values(seed: &str, addr: &str, reveal: &str) -> (r: (u128, u128, u128))
    ensures
        r.0 == spec_group_values(seed@, addr@, reveal@).0,
        r.1 == spec_group_values(seed@, addr@, reveal@).1,
        r.2 == spec_group_values(seed@, addr@, reveal@).2,
{
    let mut combined: String = seed.to_owned();
    combined.append(addr);
    combined.append(reveal);
    assert(combined@ =~= seed@ + addr@ + reveal@);
    let digest = sha256(combined.as_str().as_bytes());
    let h0 = be_u128_at(&digest, 0);
    let h1 = be_u128_at(&digest, 8);
    let h2 = be_u128_at(&digest, 16);
    (h0, h1, h2)
}

/// The entry views of the collected payout list.
pub open spec fn payouts_view(p: Seq<(String, u128)>) -> Seq<(Seq<char>, u128)> {
    p.map(|j: int, pr: (String, u128)| (pr.0@, pr.1))
}

/// What settlement does. Owner-only, phase `Closed`, inside the closed
/// window, unpaused. The revealed voters are listed in ascending address
/// order; each with a non-zero principal is assigned its positional tier
/// and owed `spec_payout` of its principal; all assignments are recorded
/// before the transfer instructions are emitted, in voter order, skipping
/// exact-zero payouts. No voters is a successful no-op; more than
/// `MAX_VOTERS` is refused outright.
pub open spec fn finalize_post(
    pre: ContractState,
    post: ContractState,
    env: Env,
    info: MessageInfo,
    r: Result<Response, ContractError>,
) -> bool {
    let n = spec_voters(pre).len() as int;
    if info.sender@ != pre.config.owner@ {
        &&& r == Err::<Response, ContractError>(ContractError::Unauthorized)
        &&& post == pre
    } else if pre.config.paused {
        r == Err::<Response, ContractError>(ContractError::InvalidState) && post == pre
    } else if !spec_in_window(env, pre.config.closed_window) {
        r == Err::<Response, ContractError>(ContractError::InvalidState) && post == pre
    } else if pre.config.vote_state != VoteState::Closed {
        r == Err::<Response, ContractError>(ContractError::InvalidState) && post == pre
    } else if n == 0 {
        &&& r matches Ok(resp) && resp.messages@.len() == 0 && resp.attributes@.len() == 2
            && resp.attributes@[0].key@ == "action"@
            && resp.attributes@[0].value@ == "finalize"@
            && resp.attributes@[1].key@ == "note"@
            && resp.attributes@[1].value@ == "no voters"@
        &&& post == pre
    } else if n > MAX_VOTERS as int {
        &&& r == Err::<Response, ContractError>(ContractError::TooManyVoters {
            count: pre.reveals.spec_len() as usize,
            max: MAX_VOTERS,
        })
        &&& post == pre
    } else {
        &&& r matches Ok(resp) && resp.attributes@.len() == 1
            && resp.attributes@[0].key@ == "action"@
            && resp.attributes@[0].value@ == "finalize"@
            && resp.messages@.len() == spec_payout_seq(pre, 0).len()
            && (forall|q: int|
                0 <= q < spec_payout_seq(pre, 0).len()
                    ==> ((#[trigger] resp.messages@[q]) matches OutMsg::BankSend { to_address, denom, amount }
                        && to_address@ == spec_payout_seq(pre, 0)[q].0
                        && denom@ == pre.config.base.denom@
                        && amount == spec_payout_seq(pre, 0)[q].1))
        &&& post.tiers.wf()
        &&& forall|i: int|
            0 <= i < n && pre.spec_principal_of(spec_voters(pre)[i]) > 0
                ==> post.tiers.spec_get(spec_voters(pre)[i]) == Some(
                spec_tier_of_index(i, n),
            )
        &&& forall|k: Seq<char>|
            !spec_paid_voter_before(pre, k, n) ==> post.tiers.spec_get(k)
                == pre.tiers.spec_get(k)
        &&& post.config == pre.config
        &&& post.tokens == pre.tokens
        &&& post.operators == pre.operators
        &&& post.commits == pre.commits
        &&& post.reveals == pre.reveals
        &&& post.deposits == pre.deposits
    }
}

/// The settlement engine. Assigns every revealed, deposited voter its
/// tier, then emits the transfer instructions; state mutation fully
/// precedes emission.
#[verifier::loop_isolation(false)]
pub fn exec_finalize(s: &mut ContractState, env: &Env, info: &MessageInfo) -> (r: Result<
    Response,
    ContractError,
>)
    requires
        old(s).wf(),
        forall|k: Seq<char>| old(s).spec_principal_of(k) <= u128::MAX / 2,
    ensures
        finalize_post(*old(s), *final(s), *env, *info, r),
        final(s).wf(),
{
    if !is_owner(s, info.sender.as_str()) {
        return Err(ContractError::Unauthorized);
    }
    if s.config.paused {
        return Err(ContractError::InvalidState);
    }
    if !in_window(env, &s.config.closed_window) {
        return Err(ContractError::InvalidState);
    }
    if !(matches!(s.config.vote_state, VoteState::Closed)) {
        return Err(ContractError::InvalidState);
    }
    let n: usize = s.reveals.len();
    if n == 0 {
        let mut resp = Response::new();
        resp.attributes.push(attr_str("action", "finalize"));
        resp.attributes.push(attr_str("note", "no voters"));
        return Ok(resp);
    }
    if n > MAX_VOTERS {
        return Err(ContractError::TooManyVoters { count: n, max: MAX_VOTERS });
    }

    let seed = build_seed(env);
    let t1: usize = {
        let t = n * 10 / 100;
        if t < 1 {
            1
        } else {
            t
        }
    };
    let t12: usize = t1 + {
        let t = n * 50 / 100;
        if t < 1 {
            1
        } else {
            t
        }
    };
    assert(t1 as int == tier1_count(n as int));
    assert(t12 as int == tier1_count(n as int) + tier2_count(n as int));
    proof {
        old(s).reveals.lemma_keys_distinct();
        assert(spec_payout_seq(*old(s), 0) =~= payouts_view(Seq::empty()) + spec_payout_seq(
            *old(s),
            0,
        ));
    }

    let mut group0: Vec<u128> = Vec::new();
    let mut group1: Vec<u128> = Vec::new();
    let mut group2: Vec<u128> = Vec::new();
    let mut payouts: Vec<(String, u128)> = Vec::new();

    let mut i: usize = 0;
    while i < n
        invariant
            i <= n,
            s.config == old(s).config,
            s.tokens == old(s).tokens,
            s.operators == old(s).operators,
            s.commits == old(s).commits,
            s.reveals == old(s).reveals,
            s.deposits == old(s).deposits,
            s.tiers.wf(),
            forall|j: int|
                0 <= j < i && old(s).spec_principal_of(spec_voters(*old(s))[j]) > 0
                    ==> s.tiers.spec_get(spec_voters(*old(s))[j]) == Some(
                    spec_tier_of_index(j, n as int),
                ),
            forall|k: Seq<char>|
                !spec_paid_voter_before(*old(s), k, i as int) ==> s.tiers.spec_get(k)
                    == old(s).tiers.spec_get(k),
            spec_payout_seq(*old(s), 0) =~= payouts_view(payouts@) + spec_payout_seq(
                *old(s),
                i as int,
            ),
        decreases n - i,
    {
        let ghost pre_iter_tiers = s.tiers;
        let ghost pre_payouts = payouts@;
        let voter: String = s.reveals.key_at(i).clone();
        let rv: String = s.reveals.val_at(i).reveal.clone();
        proof {
            assert(voter@ == spec_voters(*old(s))[i as int]);
        }
        // The per-voter group values of the design: derived, not stored; the
        // positional partition below does not consult them.
        let h = derive_group_values(seed.as_str(), voter.as_str(), rv.as_str());
        group0.push(h.0);
        group1.push(h.1);
        group2.push(h.2);
        let p: u128 = match s.deposits.get(voter.as_str()) {
            Some(pay) => pay.principal,
            None => 0,
        };
        proof {
            assert(p == old(s).spec_principal_of(voter@));
        }
        if p > 0 {
            let tier: u8 = if i < t1 {
                1
            } else if i < t12 {
                2
            } else {
                3
            };
            assert(tier == spec_tier_of_index(i as int, n as int));
            s.tiers.insert(voter.as_str(), tier);
            assert(p <= u128::MAX / 2);
            let payout: u128 = if tier == 1 {
                p * 2
            } else if tier == 2 {
                p
            } else {
                p / 2
            };
            assert(payout as int == spec_payout(p, tier));
            if payout > 0 {
                payouts.push((voter, payout));
            }
        }
        i = i + 1;
        proof {
            let pre0 = *old(s);
            let ii = i as int - 1;
            let nn = n as int;
            let k = spec_voters(pre0)[ii];
            assert forall|j: int|
                0 <= j < i && pre0.spec_principal_of(spec_voters(pre0)[j])
                    > 0 implies s.tiers.spec_get(spec_voters(pre0)[j]) == Some(
                spec_tier_of_index(j, nn),
            ) by {
                if j < ii {
                    assert(spec_voters(pre0)[j] != k);
                }
            }
            assert forall|k2: Seq<char>|
                !spec_paid_voter_before(pre0, k2, i as int) implies s.tiers.spec_get(k2)
                == old(s).tiers.spec_get(k2) by {
                if p > 0 && k2 == k {
                    assert(spec_paid_voter_before(pre0, k2, i as int));
                } else {
                    assert(!spec_paid_voter_before(pre0, k2, ii));
                    assert(pre_iter_tiers.spec_get(k2) == old(s).tiers.spec_get(k2));
                }
            }
            if p == 0 {
                assert(payouts_view(payouts@) =~= payouts_view(pre_payouts));
            } else {
                let amt = spec_payout(p, spec_tier_of_index(ii, nn));
                if amt == 0 {
                    assert(payouts_view(payouts@) =~= payouts_view(pre_payouts));
                } else {
                    assert(payouts_view(payouts@) =~= payouts_view(pre_payouts) + seq![
                        (k, amt as u128),
                    ]);
                }
            }
            assert(spec_payout_seq(pre0, 0) =~= payouts_view(payouts@) + spec_payout_seq(
                pre0,
                i as int,
            ));
        }
    }
    proof {
        assert(spec_payout_seq(*old(s), n as int) =~= Seq::empty());
        assert(payouts_view(payouts@) =~= spec_payout_seq(*old(s), 0));
    }

    let ghost s_mid = *s;
    let mut resp = Response::new();
    resp.attributes.push(attr_str("action", "finalize"));
    let m: usize = payouts.len();
    let mut q: usize = 0;
    while q < m
        invariant
            q <= m,
            m == payouts@.len(),
            *s == s_mid,
            resp.attributes@.len() == 1,
            resp.attributes@[0].key@ == "action"@,
            resp.attributes@[0].value@ == "finalize"@,
            resp.messages@.len() == q,
            forall|x: int|
                0 <= x < q ==> ((#[trigger] resp.messages@[x]) matches OutMsg::BankSend {
                    to_address,
                    denom,
                    amount,
                } && to_address@ == payouts@[x].0@ && denom@ == s.config.base.denom@ && amount
                    == payouts@[x].1),
        decreases m - q,
    {
        let to = payouts[q].0.clone();
        let amount = payouts[q].1;
        resp.messages.push(
            OutMsg::BankSend { to_address: to, denom: s.config.base.denom.clone(), amount },
        );
        q = q + 1;
    }
    Ok(resp)
}

/// The tier percentage law: among `n` voters the first tier holds
/// `max(1, floor(0.10 n))` of them, the second the next
/// `max(1, floor(0.50 n))`, and the third the remainder, which with at
/// least two voters never reaches below zero.
pub proof fn lemma_tier_partition_sizes(n: int)
    requires
        2 <= n <= MAX_VOTERS as int,
    ensures
        forall|i: int| 0 <= i < n ==> (spec_tier_of_index(i, n) == 1 <==> i < tier1_count(n)),
        forall|i: int|
            0 <= i < n ==> (spec_tier_of_index(i, n) == 2 <==> tier1_count(n) <= i
                < tier1_count(n) + tier2_count(n)),
        forall|i: int|
            0 <= i < n ==> (spec_tier_of_index(i, n) == 3 <==> tier1_count(n) + tier2_count(n)
                <= i),
        tier1_count(n) == if n * 10 / 100 < 1 { 1int } else { n * 10 / 100 },
        tier2_count(n) == if n * 50 / 100 < 1 { 1int } else { n * 50 / 100 },
        tier1_count(n) + tier2_count(n) <= n,
{
}

/// The payout formula: exactly twice the principal in tier 1, the
/// principal in tier 2, half of it truncated in tier 3.
pub proof fn lemma_payout_amounts(p: u128)
    ensures
        spec_payout(p, 1) == 2 * p,
        spec_payout(p, 2) == p,
        spec_payout(p, 3) == p as int / 2,
{
}

/// Every emitted payout belongs to a voter with a non-zero principal and
/// equals the tier formula applied to that principal: a zero-principal
/// voter never produces a transfer.
pub proof fn lemma_payouts_from_principals(s: ContractState, i: int, q: int)
    requires
        forall|k: Seq<char>| s.spec_principal_of(k) <= u128::MAX / 2,
        0 <= q < spec_payout_seq(s, i).len(),
    ensures
        exists|j: int|
            i <= j < spec_voters(s).len() && spec_payout_seq(s, i)[q].0 == spec_voters(s)[j]
                && s.spec_principal_of(spec_voters(s)[j]) > 0
                && spec_payout_seq(s, i)[q].1 == spec_payout(
                s.spec_principal_of(spec_voters(s)[j]),
                spec_tier_of_index(j, spec_voters(s).len() as int),
            ) && spec_payout_seq(s, i)[q].1 > 0,
    decreases spec_voters(s).len() - i,
{
    let n = spec_voters(s).len() as int;
    let k = spec_voters(s)[i];
    let p = s.spec_principal_of(k);
    let amt = spec_payout(p, spec_tier_of_index(i, n));
    if p == 0 || amt == 0 {
        lemma_payouts_from_principals(s, i + 1, q);
    } else if q == 0 {
        assert(spec_payout_seq(s, i)[0] == (k, amt as u128));
        assert(0 <= amt <= u128::MAX);
        assert(i <= i < spec_voters(s).len() && spec_payout_seq(s, i)[0].0 == spec_voters(s)[i]
            && s.spec_principal_of(spec_voters(s)[i]) > 0 && spec_payout_seq(s, i)[0].1
            == spec_payout(
            s.spec_principal_of(spec_voters(s)[i]),
            spec_tier_of_index(i, spec_voters(s).len() as int),
        ) && spec_payout_seq(s, i)[0].1 > 0);
    } else {
        lemma_payouts_from_principals(s, i + 1, q - 1);
    }
}

/// Settlement is deterministic: two settlements over the same voter list,
/// the same principals, the same configuration and the same block context
/// assign the same tiers and emit the same payouts.
pub proof fn lemma_settlement_deterministic(
    pre1: ContractState,
    post1: ContractState,
    pre2: ContractState,
    post2: ContractState,
    env: Env,
    info: MessageInfo,
    r1: Result<Response, ContractError>,
    r2: Result<Response, ContractError>,
)
    requires
        finalize_post(pre1, post1, env, info, r1),
        finalize_post(pre2, post2, env, info, r2),
        pre1.config == pre2.config,
        spec_voters(pre1) == spec_voters(pre2),
        pre1.reveals.spec_len() == pre2.reveals.spec_len(),
        forall|k: Seq<char>| pre1.spec_principal_of(k) == pre2.spec_principal_of(k),
    ensures
        r1 is Ok <==> r2 is Ok,
        (r1 is Ok && r2 is Ok && spec_voters(pre1).len() > 0) ==> {
            let n = spec_voters(pre1).len() as int;
            &&& forall|i: int|
                0 <= i < n && pre1.spec_principal_of(spec_voters(pre1)[i]) > 0
                    ==> post1.tiers.spec_get(spec_voters(pre1)[i]) == post2.tiers.spec_get(
                    spec_voters(pre2)[i],
                )
            &&& r1->Ok_0.messages@.len() == r2->Ok_0.messages@.len()
            &&& forall|q: int|
                0 <= q < r1->Ok_0.messages@.len()
                    ==> ((#[trigger] r1->Ok_0.messages@[q]) matches OutMsg::BankSend {
                        to_address: t1,
                        denom: d1,
                        amount: a1,
                    } && r2->Ok_0.messages@[q] matches OutMsg::BankSend {
                        to_address: t2,
                        denom: d2,
                        amount: a2,
                    } && t1@ == t2@ && d1@ == d2@ && a1 == a2)
        },
{
    lemma_payout_seq_congruent(pre1, pre2, 0);
    if r1 is Ok && r2 is Ok && spec_voters(pre1).len() > 0 {
        let n = spec_voters(pre1).len() as int;
        let resp1 = r1->Ok_0;
        let resp2 = r2->Ok_0;
        assert forall|i: int|
            0 <= i < n && pre1.spec_principal_of(spec_voters(pre1)[i])
                > 0 implies post1.tiers.spec_get(spec_voters(pre1)[i]) == post2.tiers.spec_get(
            spec_voters(pre2)[i],
        ) by {
            assert(pre2.spec_principal_of(spec_voters(pre2)[i]) > 0);
            assert(post1.tiers.spec_get(spec_voters(pre1)[i]) == Some(spec_tier_of_index(i, n)));
            assert(post2.tiers.spec_get(spec_voters(pre2)[i]) == Some(spec_tier_of_index(i, n)));
        }
        assert(resp1.messages@.len() == spec_payout_seq(pre1, 0).len());
        assert(resp2.messages@.len() == spec_payout_seq(pre2, 0).len());
        assert forall|q: int| 0 <= q < resp1.messages@.len() implies ((
        #[trigger] resp1.messages@[q]) matches OutMsg::BankSend {
            to_address: t1,
            denom: d1,
            amount: a1,
        } && resp2.messages@[q] matches OutMsg::BankSend {
            to_address: t2,
            denom: d2,
            amount: a2,
        } && t1@ == t2@ && d1@ == d2@ && a1 == a2) by {
            assert(0 <= q < spec_payout_seq(pre1, 0).len());
            assert(resp1.messages@[q] matches OutMsg::BankSend { to_address, denom, amount }
                && to_address@ == spec_payout_seq(pre1, 0)[q].0 && denom@
                == pre1.config.base.denom@ && amount == spec_payout_seq(pre1, 0)[q].1);
            assert(resp2.messages@[q] matches OutMsg::BankSend { to_address, denom, amount }
                && to_address@ == spec_payout_seq(pre2, 0)[q].0 && denom@
                == pre2.config.base.denom@ && amount == spec_payout_seq(pre2, 0)[q].1);
        }
    }
}

/// The payout list is a function of the voter list, the principals and the
/// tier formula alone.
proof fn lemma_payout_seq_congruent(s1: ContractState, s2: ContractState, i: int)
    requires
        spec_voters(s1) == spec_voters(s2),
        forall|k: Seq<char>| s1.spec_principal_of(k) == s2.spec_principal_of(k),
    ensures
        spec_payout_seq(s1, i) == spec_payout_seq(s2, i),
    decreases spec_voters(s1).len() - i,
{
    let n = spec_voters(s1).len() as int;
    if 0 <= i < n {
        lemma_payout_seq_congruent(s1, s2, i + 1);
    }
    assert(spec_payout_seq(s1, i) =~= spec_payout_seq(s2, i));
}

} // verus!
