use vstd::prelude::*;

verus! {

/// Why an operation was refused.  Every failure is reported through this
/// type; no operation truncates silently or panics on an allowed input.
#[derive(Clone, Copy, Debug, PartialEq, Eq, Structural)]
pub enum Error {
    /// Transfers are globally paused.
    Paused,
    /// The amount was zero where a positive amount is required.
    ZeroAmount,
    /// The amount exceeds the configured per-transfer cap.
    ExceedsMaximum,
    /// The debited account holds less than the requested amount.
    InsufficientBalance,
    /// The staked amount is below the configured minimum.
    BelowMinimum,
    /// Nothing is claimable: no vested amount is outstanding, or no
    /// staking rewards have accrued.
    NoRewards,
    /// The bridge message's identifier was already consumed.
    ReplayDetected,
    /// The bridge proof was not verified by the adapter.
    ProofNotVerified,
}

} // verus!
