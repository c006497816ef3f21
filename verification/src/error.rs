//! The error taxonomy. Every failing operation returns one of these and
//! leaves the state exactly as it was.

use vstd::prelude::*;
use crate::state::VoteState;

verus! {

/// Why an invocation was rejected.
#[derive(Clone, Debug, PartialEq, Eq)]
pub enum ContractError {
    /// A wrapped store/validation error for malformed input, carrying its
    /// message.
    Generic(String),
    /// The caller is not allowed to perform this operation.
    Unauthorized,
    /// The supply is exhausted: no unit can be issued.
    NoNftsAvailable,
    /// The operation is not legal in the current phase, window or pause
    /// state.
    InvalidState,
    /// A reveal was attempted outside the `Reveal` phase.
    RevealNotActive,
    /// A commit was attempted outside the `Commit` phase.
    CommitNotActive,
    /// A reveal was attempted without a stored commitment.
    NothingToReveal,
    /// The requested phase edge is not in the transition table.
    InvalidStateTransition { from: VoteState, to: VoteState },
    /// The block is outside the configured time window.
    OutsideWindow { current: u64, start: u64, end: u64 },
    /// Settlement refused: the voter count passed the safety ceiling.
    TooManyVoters { count: usize, max: usize },
}

} // verus!
