//! A phase-gated "blind box" sale ledger with a commitment-reveal lottery.
//!
//! The library models the whole contract as an explicit state value that is
//! threaded through every operation: a bounded sequential minting allocator,
//! an internal ownership ledger with single-unit approvals and per-owner
//! operators, a commitment-reveal voting protocol verified against
//! `sha256(address|value|salt)` in lowercase hex, and a deterministic tiered
//! settlement engine that splits revealed voters 10% / 50% / remainder and
//! pays 2x / 1x / 0.5x of each voter's cumulative principal.
//!
//! Every operation is a pure function of the state, the block context and the
//! caller; failures leave the state unchanged.

pub mod addr_map;
pub mod contract;
pub mod error;
pub mod hashing;
pub mod msg;
pub mod query;
pub mod settlement;
pub mod state;
pub mod strings;
pub mod voting;
