//! Economics and cross-chain transfer core of a fixed-supply token.
//!
//! The crate models one chain-agnostic core: a ledger of per-account
//! balances with a transfer tax, linear vesting grants with cliffs, a
//! staking pool with time-accrued rewards, and a burn-and-mint bridge
//! with replay protection.  Every operation is a pure state transition
//! from current state and plain inputs to new state and a result; a thin
//! per-chain adapter authenticates callers, supplies the clock, persists
//! the state, and relays bridge messages.

pub mod bridge;
pub mod errors;
pub mod ledger;
pub mod math;
pub mod staking;
pub mod token;
pub mod vesting;
