//! The data model: configuration, phase machine, per-unit ownership records
//! and per-participant records, gathered in one explicitly threaded state
//! value.

use vstd::prelude::*;
use crate::addr_map::AddrMap;

verus! {

/// A native-currency amount of a given denomination.
#[derive(Clone, Debug, PartialEq, Eq)]
pub struct Coin {
    pub denom: String,
    pub amount: u128,
}

impl Coin {
    /// A copy of this coin, field by field.
    pub fn duplicate(&self) -> (r: Coin)
        ensures
            r == *self,
    {
        Coin { denom: self.denom.clone(), amount: self.amount }
    }
}

/// The voting phase machine: commitments, then reveals, then settlement.
#[derive(Clone, Copy, Debug, PartialEq, Eq, Structural)]
pub enum VoteState {
    Commit,
    Reveal,
    Closed,
}

/// The deployment scale. Each tier fixes the total supply; the payload is
/// the number of first-prize winners configured for that deployment.
#[derive(Clone, Copy, Debug, PartialEq, Eq, Structural)]
pub enum Scale {
    Tiny(u32),
    Small(u32),
    Medium(u32),
    Large(u32),
    Huge(u32),
}

impl Scale {
    /// The fixed unit supply of each scale tier.
    pub open spec fn spec_total_supply(self) -> u64 {
        match self {
            Scale::Tiny(_) => 10,
            Scale::Small(_) => 100,
            Scale::Medium(_) => 1_000,
            Scale::Large(_) => 10_000,
            Scale::Huge(_) => 100_000,
        }
    }

    /// The total number of units this scale allows to be issued.
    pub fn total_supply(&self) -> (r: u64)
        ensures
            r == self.spec_total_supply(),
    {
        match self {
            Scale::Tiny(_) => 10,
            Scale::Small(_) => 100,
            Scale::Medium(_) => 1_000,
            Scale::Large(_) => 10_000,
            Scale::Huge(_) => 100_000,
        }
    }

    /// The first-prize winner count carried by this scale value.
    pub open spec fn spec_first_prize_count(self) -> u32 {
        match self {
            Scale::Tiny(count) => count,
            Scale::Small(count) => count,
            Scale::Medium(count) => count,
            Scale::Large(count) => count,
            Scale::Huge(count) => count,
        }
    }

    /// The first-prize winner count carried by this scale value.
    pub fn first_prize_count(&self) -> (r: u32)
        ensures
            r == self.spec_first_prize_count(),
    {
        match self {
            Scale::Tiny(count) => *count,
            Scale::Small(count) => *count,
            Scale::Medium(count) => *count,
            Scale::Large(count) => *count,
            Scale::Huge(count) => *count,
        }
    }

    /// The default first-prize winner count of each scale tier.
    pub open spec fn spec_default_first_prize_count(self) -> u32 {
        match self {
            Scale::Tiny(_) => 1,
            Scale::Small(_) => 3,
            Scale::Medium(_) => 3,
            Scale::Large(_) => 5,
            Scale::Huge(_) => 5,
        }
    }

    /// The default first-prize winner count of each scale tier.
    pub fn default_first_prize_count(&self) -> (r: u32)
        ensures
            r == self.spec_default_first_prize_count(),
    {
        match self {
            Scale::Tiny(_) => 1,
            Scale::Small(_) => 3,
            Scale::Medium(_) => 3,
            Scale::Large(_) => 5,
            Scale::Huge(_) => 5,
        }
    }

    pub fn new_tiny() -> (r: Self)
        ensures
            r == Scale::Tiny(1u32),
    {
        Scale::Tiny(1)
    }

    pub fn new_small() -> (r: Self)
        ensures
            r == Scale::Small(3u32),
    {
        Scale::Small(3)
    }

    pub fn new_medium() -> (r: Self)
        ensures
            r == Scale::Medium(3u32),
    {
        Scale::Medium(3)
    }

    pub fn new_large() -> (r: Self)
        ensures
            r == Scale::Large(5u32),
    {
        Scale::Large(5)
    }

    pub fn new_huge() -> (r: Self)
        ensures
            r == Scale::Huge(5u32),
    {
        Scale::Huge(5)
    }
}

/// An optional closed interval over block height and block time. An unset
/// bound is always satisfied; all set bounds must hold at once.
#[derive(Clone, Copy, Debug, PartialEq, Eq)]
pub struct PhaseWindow {
    pub start_height: Option<u64>,
    pub end_height: Option<u64>,
    pub start_time: Option<u64>,
    pub end_time: Option<u64>,
}

impl PhaseWindow {
    /// A window with no bounds set; it matches every block.
    pub fn unbounded() -> (r: Self)
        ensures
            r == (PhaseWindow {
                start_height: None,
                end_height: None,
                start_time: None,
                end_time: None,
            }),
    {
        PhaseWindow { start_height: None, end_height: None, start_time: None, end_time: None }
    }
}

/// One issued unit: its current owner and at most one active approval.
#[derive(Clone, Debug, PartialEq, Eq)]
pub struct TokenInfo {
    pub owner: String,
    pub approved: Option<String>,
}

/// A stored commitment string, overwritten by a later commit.
#[derive(Clone, Debug, PartialEq, Eq)]
pub struct CommitInfo {
    pub commitment: String,
}

/// A verified reveal: the disclosed value and the salt.
#[derive(Clone, Debug, PartialEq, Eq)]
pub struct RevealInfo {
    pub reveal: String,
    pub salt: String,
}

/// A participant's cumulative deposited principal.
#[derive(Clone, Copy, Debug, PartialEq, Eq)]
pub struct Payout {
    pub principal: u128,
}

/// A blanket transfer grant from an owner to an operator.
#[derive(Clone, Debug, PartialEq, Eq)]
pub struct OperatorGrant {
    pub owner: String,
    pub operator: String,
}

/// The global configuration record.
#[derive(Clone, Debug, PartialEq, Eq)]
pub struct Config {
    pub owner: String,
    pub total_supply: u64,
    pub base: Coin,
    pub vote_state: VoteState,
    pub next_token_id: u64,
    pub scale: Scale,
    pub first_prize_count: u32,
    pub paused: bool,
    pub commit_window: PhaseWindow,
    pub reveal_window: PhaseWindow,
    pub closed_window: PhaseWindow,
    pub nft_contract: Option<String>,
    pub nft_code_id: Option<u64>,
}

/// The whole persistent state of one deployment.
pub struct ContractState {
    pub config: Config,
    /// Unit `i` of the sequential issue is `tokens[i]`.
    pub tokens: Vec<TokenInfo>,
    pub operators: Vec<OperatorGrant>,
    pub commits: AddrMap<CommitInfo>,
    pub reveals: AddrMap<RevealInfo>,
    pub deposits: AddrMap<Payout>,
    pub tiers: AddrMap<u8>,
}

impl ContractState {
    /// Structural well-formedness: the issue cursor counts the issued units,
    /// the address tables are ordered, and operator grants are not repeated.
    pub open spec fn wf(self) -> bool {
        &&& self.tokens@.len() == self.config.next_token_id
        &&& self.commits.wf()
        &&& self.reveals.wf()
        &&& self.deposits.wf()
        &&& self.tiers.wf()
        &&& forall|i: int, j: int|
            0 <= i < j < self.operators@.len() ==> !(self.operators@[i].owner@
                == self.operators@[j].owner@ && self.operators@[i].operator@
                == self.operators@[j].operator@)
    }

    /// The supply bound: the issue cursor never passes the total supply.
    pub open spec fn supply_bounded(self) -> bool {
        self.config.next_token_id <= self.config.total_supply
    }

    /// Whether `operator` holds a blanket grant over `owner`'s units.
    pub open spec fn spec_is_operator(self, owner: Seq<char>, operator: Seq<char>) -> bool {
        exists|i: int|
            0 <= i < self.operators@.len() && self.operators@[i].owner@ == owner
                && self.operators@[i].operator@ == operator
    }

    /// The cumulative principal deposited by an address, zero if none.
    pub open spec fn spec_principal_of(self, addr: Seq<char>) -> u128 {
        match self.deposits.spec_get(addr) {
            Some(p) => p.principal,
            None => 0,
        }
    }

    /// The settled tier of an address, zero while unassigned.
    pub open spec fn spec_tier_of(self, addr: Seq<char>) -> u8 {
        match self.tiers.spec_get(addr) {
            Some(t) => t,
            None => 0,
        }
    }
}

} // verus!
