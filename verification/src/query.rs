//! The read-only queries: configuration snapshot, per-address records,
//! per-unit ownership, and the paginated tier-membership listing.

use vstd::prelude::*;
use vstd::string::StringExecFns;
use crate::contract::{is_generic_err, spec_valid_address, validate_address};
use crate::error::ContractError;
use crate::msg::{ApprovalResponse, ConfigResponse, DepositResponse, IsApprovedForAllResponse,
    NftInfoResponse, OwnerOfResponse, QueryAnswer, QueryMsg, TierListResponse, TierResponse};
use crate::state::ContractState;
use crate::strings::{lex_lt, spec_decimal, str_lt, u64_to_string, u128_to_string};

verus! {

/// The page size used when the caller names none.
pub const DEFAULT_PAGE_SIZE: u32 = 50;

/// Whether the record at position `i` of the tier table belongs on the
/// page: it has the wanted tier and lies strictly after the cursor.
pub open spec fn spec_tier_eligible(
    s: ContractState,
    tier: u8,
    after: Option<Seq<char>>,
    i: int,
) -> bool {
    &&& s.tiers.entries@[i].val == tier
    &&& (after matches Some(a) ==> lex_lt(a, s.tiers.entries@[i].key@))
}

/// The addresses of the wanted tier strictly after the cursor, from
/// position `i` of the tier table on, in ascending order.
pub open spec fn spec_tier_members(
    s: ContractState,
    tier: u8,
    after: Option<Seq<char>>,
    i: int,
) -> Seq<Seq<char>>
    decreases s.tiers.entries@.len() - i,
{
    let n = s.tiers.entries@.len() as int;
    if i < 0 || i >= n {
        Seq::empty()
    } else {
        let rest = spec_tier_members(s, tier, after, i + 1);
        if spec_tier_eligible(s, tier, after, i) {
            seq![s.tiers.entries@[i].key@] + rest
        } else {
            rest
        }
    }
}

/// The entry views of a collected address list.
pub open spec fn addr_views(p: Seq<String>) -> Seq<Seq<char>> {
    p.map(|j: int, a: String| a@)
}

/// What the tier listing returns: the first `limit` members (50 when
/// unset) of the wanted tier strictly after the cursor, in ascending
/// address order, and the next member beyond the page, if any.
pub open spec fn tier_list_post(
    s: ContractState,
    tier: u8,
    start_after: Option<String>,
    limit: Option<u32>,
    r: Result<QueryAnswer, ContractError>,
) -> bool {
    let after = match start_after {
        Some(a) => Some(a@),
        None => None,
    };
    let take = match limit {
        Some(l) => l as int,
        None => DEFAULT_PAGE_SIZE as int,
    };
    let members = spec_tier_members(s, tier, after, 0);
    if start_after matches Some(a) && !spec_valid_address(a@) {
        is_generic_err(r, "Invalid address"@)
    } else {
        &&& r matches Ok(QueryAnswer::TierList(page))
        &&& addr_views(page.addresses@) == (if members.len() <= take {
            members
        } else {
            members.subrange(0, take)
        })
        &&& (if members.len() > take {
            page.next_start_after matches Some(nx) && nx@ == members[take]
        } else {
            page.next_start_after is None
        })
    }
}

/// Lists one page of the members of a tier.
fn query_tier_list(
    s: &ContractState,
    tier: u8,
    start_after: Option<String>,
    limit: Option<u32>,
) -> (r: Result<QueryAnswer, ContractError>)
    requires
        s.wf(),
    ensures
        tier_list_post(*s, tier, start_after, limit, r),
{
    let ghost after = match &start_after {
        Some(a) => Some(a@),
        None => None,
    };
    let start: Option<&String> = match &start_after {
        Some(a) => {
            if let Err(e) = validate_address(a.as_str()) {
                return Err(e);
            }
            Some(a)
        },
        None => None,
    };
    let take: usize = match limit {
        Some(l) => l as usize,
        None => DEFAULT_PAGE_SIZE as usize,
    };
    let mut addrs: Vec<String> = Vec::new();
    let mut next: Option<String> = None;
    let n: usize = s.tiers.len();
    let ghost members = spec_tier_members(*s, tier, after, 0);
    let mut i: usize = 0;
    while i < n
        invariant_except_break
            i <= n,
            next is None,
            members =~= addr_views(addrs@) + spec_tier_members(*s, tier, after, i as int),
        invariant
            n == s.tiers.entries@.len(),
            take == (match limit {
                Some(l) => l as int,
                None => DEFAULT_PAGE_SIZE as int,
            }),
            (match (start, start_after) {
                (Some(a), Some(b)) => a == b,
                (None, None) => true,
                _ => false,
            }),
            after == (match start_after {
                Some(a) => Some(a@),
                None => None,
            }),
            members == spec_tier_members(*s, tier, after, 0),
            addrs@.len() <= take,
        ensures
            addr_views(addrs@) == (if members.len() <= take as int {
                members
            } else {
                members.subrange(0, take as int)
            }),
            (if members.len() > take as int {
                next matches Some(nx) && nx@ == members[take as int]
            } else {
                next is None
            }),
        decreases n - i,
    {
        let key = s.tiers.key_at(i);
        let val: u8 = *s.tiers.val_at(i);
        let eligible: bool = val == tier && (match start {
            Some(a) => str_lt(a.as_str(), key.as_str()),
            None => true,
        });
        proof {
            assert(eligible == spec_tier_eligible(*s, tier, after, i as int));
        }
        if eligible {
            if addrs.len() < take {
                let ghost pre_addrs = addrs@;
                addrs.push(key.clone());
                proof {
                    assert(addr_views(addrs@) =~= addr_views(pre_addrs) + seq![key@]);
                }
            } else {
                next = Some(key.clone());
                proof {
                    assert(addrs@.len() == take);
                    assert(spec_tier_members(*s, tier, after, i as int)[0] == key@);
                    assert(members.len() > take as int);
                    assert(members[take as int] == key@);
                    assert(addr_views(addrs@) =~= members.subrange(0, take as int));
                }
                break;
            }
        }
        i = i + 1;
    }
    proof {
        if next is None {
            assert(spec_tier_members(*s, tier, after, n as int) =~= Seq::empty());
        }
    }
    Ok(QueryAnswer::TierList(TierListResponse { addresses: addrs, next_start_after: next }))
}

/// What a query returns for each request, over the state it reads.
pub open spec fn query_post(
    s: ContractState,
    msg: QueryMsg,
    r: Result<QueryAnswer, ContractError>,
) -> bool {
    match msg {
        QueryMsg::Config {} => {
            &&& r matches Ok(QueryAnswer::Config(c))
            &&& c.owner == s.config.owner
            &&& c.total_supply == s.config.total_supply
            &&& c.base == s.config.base
            &&& c.vote_state == s.config.vote_state
            &&& c.scale == s.config.scale
            &&& c.first_prize_count == s.config.first_prize_count
            &&& c.nft_contract == s.config.nft_contract
            &&& c.nft_code_id == s.config.nft_code_id
        },
        QueryMsg::DepositOf { address } => {
            if !spec_valid_address(address@) {
                is_generic_err(r, "Invalid address"@)
            } else {
                r matches Ok(QueryAnswer::Deposit(d)) && d.principal@ == spec_decimal(
                    s.spec_principal_of(address@) as int,
                )
            }
        },
        QueryMsg::TierOf { address } => {
            if !spec_valid_address(address@) {
                is_generic_err(r, "Invalid address"@)
            } else {
                r matches Ok(QueryAnswer::Tier(t)) && t.tier == s.spec_tier_of(address@)
            }
        },
        QueryMsg::OwnerOf { token_id } => {
            if token_id >= s.tokens@.len() {
                is_generic_err(r, "token not found"@)
            } else {
                r matches Ok(QueryAnswer::OwnerOf(o)) && o.owner == s.tokens@[
                    token_id as int
                ].owner
            }
        },
        QueryMsg::TierList { tier, start_after, limit } => tier_list_post(
            s,
            tier,
            start_after,
            limit,
            r,
        ),
        QueryMsg::NftInfo { token_id } => {
            if token_id >= s.tokens@.len() {
                is_generic_err(r, "token not found"@)
            } else {
                r matches Ok(QueryAnswer::NftInfo(ni)) && ni.owner == s.tokens@[
                    token_id as int
                ].owner && ni.approved == s.tokens@[token_id as int].approved
            }
        },
        QueryMsg::Approval { token_id } => {
            if token_id >= s.tokens@.len() {
                is_generic_err(r, "token not found"@)
            } else {
                r matches Ok(QueryAnswer::Approval(a)) && a.spender == s.tokens@[
                    token_id as int
                ].approved
            }
        },
        QueryMsg::IsApprovedForAll { owner, operator } => {
            if !spec_valid_address(owner@) || !spec_valid_address(operator@) {
                is_generic_err(r, "Invalid address"@)
            } else {
                r matches Ok(QueryAnswer::IsApprovedForAll(a)) && a.approved
                    == s.spec_is_operator(owner@, operator@)
            }
        },
        QueryMsg::TokenUri { token_id } => {
            match s.config.nft_contract {
                Some(c) => is_generic_err(
                    r,
                    "Please query NFT contract directly at "@ + c@ + " for token_id "@
                        + spec_decimal(token_id as int),
                ),
                None => is_generic_err(r, "NFT contract not set"@),
            }
        },
        QueryMsg::AllTokens { start_after, limit } => {
            match s.config.nft_contract {
                Some(c) => is_generic_err(
                    r,
                    "Please query NFT contract directly at "@ + c@ + " for all tokens"@,
                ),
                None => is_generic_err(r, "NFT contract not set"@),
            }
        },
        QueryMsg::Tokens { owner, start_after, limit } => {
            match s.config.nft_contract {
                Some(c) => is_generic_err(
                    r,
                    "Please query NFT contract directly at "@ + c@ + " for owner "@ + owner@,
                ),
                None => is_generic_err(r, "NFT contract not set"@),
            }
        },
    }
}

/// Clones an optional address.
fn clone_opt_string(o: &Option<String>) -> (r: Option<String>)
    ensures
        r == *o,
{
    match o {
        Some(a) => Some(a.clone()),
        None => None,
    }
}

/// Answers a read-only query; the state never changes.
pub fn query(s: &ContractState, msg: QueryMsg) -> (r: Result<QueryAnswer, ContractError>)
    requires
        s.wf(),
    ensures
        query_post(*s, msg, r),
{
    match msg {
        QueryMsg::Config {} => Ok(
            QueryAnswer::Config(
                ConfigResponse {
                    owner: s.config.owner.clone(),
                    total_supply: s.config.total_supply,
                    base: s.config.base.duplicate(),
                    vote_state: s.config.vote_state,
                    scale: s.config.scale,
                    first_prize_count: s.config.first_prize_count,
                    nft_contract: clone_opt_string(&s.config.nft_contract),
                    nft_code_id: s.config.nft_code_id,
                },
            ),
        ),
        QueryMsg::DepositOf { address } => {
            if let Err(e) = validate_address(address.as_str()) {
                return Err(e);
            }
            let principal: u128 = match s.deposits.get(address.as_str()) {
                Some(p) => p.principal,
                None => 0,
            };
            Ok(QueryAnswer::Deposit(DepositResponse { principal: u128_to_string(principal) }))
        },
        QueryMsg::TierOf { address } => {
            if let Err(e) = validate_address(address.as_str()) {
                return Err(e);
            }
            let tier: u8 = match s.tiers.get(address.as_str()) {
                Some(t) => *t,
                None => 0,
            };
            Ok(QueryAnswer::Tier(TierResponse { tier }))
        },
        QueryMsg::OwnerOf { token_id } => {
            if token_id >= s.tokens.len() as u64 {
                return Err(ContractError::Generic("token not found".to_owned()));
            }
            Ok(
                QueryAnswer::OwnerOf(
                    OwnerOfResponse { owner: s.tokens[token_id as usize].owner.clone() },
                ),
            )
        },
        QueryMsg::TierList { tier, start_after, limit } => query_tier_list(
            s,
            tier,
            start_after,
            limit,
        ),
        QueryMsg::NftInfo { token_id } => {
            if token_id >= s.tokens.len() as u64 {
                return Err(ContractError::Generic("token not found".to_owned()));
            }
            Ok(
                QueryAnswer::NftInfo(
                    NftInfoResponse {
                        owner: s.tokens[token_id as usize].owner.clone(),
                        approved: clone_opt_string(&s.tokens[token_id as usize].approved),
                    },
                ),
            )
        },
        QueryMsg::Approval { token_id } => {
            if token_id >= s.tokens.len() as u64 {
                return Err(ContractError::Generic("token not found".to_owned()));
            }
            Ok(
                QueryAnswer::Approval(
                    ApprovalResponse {
                        spender: clone_opt_string(&s.tokens[token_id as usize].approved),
                    },
                ),
            )
        },
        QueryMsg::IsApprovedForAll { owner, operator } => {
            if let Err(e) = validate_address(owner.as_str()) {
                return Err(e);
            }
            if let Err(e) = validate_address(operator.as_str()) {
                return Err(e);
            }
            let approved = crate::contract::is_operator(s, owner.as_str(), operator.as_str());
            Ok(QueryAnswer::IsApprovedForAll(IsApprovedForAllResponse { approved }))
        },
        QueryMsg::TokenUri { token_id } => {
            match &s.config.nft_contract {
                Some(c) => {
                    let mut m: String = "Please query NFT contract directly at ".to_owned();
                    m.append(c.as_str());
                    m.append(" for token_id ");
                    m.append(u64_to_string(token_id).as_str());
                    Err(ContractError::Generic(m))
                },
                None => Err(ContractError::Generic("NFT contract not set".to_owned())),
            }
        },
        QueryMsg::AllTokens { start_after: _, limit: _ } => {
            match &s.config.nft_contract {
                Some(c) => {
                    let mut m: String = "Please query NFT contract directly at ".to_owned();
                    m.append(c.as_str());
                    m.append(" for all tokens");
                    Err(ContractError::Generic(m))
                },
                None => Err(ContractError::Generic("NFT contract not set".to_owned())),
            }
        },
        QueryMsg::Tokens { owner, start_after: _, limit: _ } => {
            match &s.config.nft_contract {
                Some(c) => {
                    let mut m: String = "Please query NFT contract directly at ".to_owned();
                    m.append(c.as_str());
                    m.append(" for owner ");
                    m.append(owner.as_str());
                    Err(ContractError::Generic(m))
                },
                None => Err(ContractError::Generic("NFT contract not set".to_owned())),
            }
        },
    }
}

} // verus!
