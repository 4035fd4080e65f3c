//! Typed errors of the engine. Every failure is a pre-commit validation
//! failure: the operation returns one of these and leaves the state untouched.

use vstd::prelude::*;

verus! {

/// Errors of the ledger core and of the provenance-gated utilities.
#[derive(Clone, Copy, Debug, PartialEq, Eq, Structural)]
pub enum PiCoinError {
    /// The caller's authorization proof is missing.
    Unauthorized,
    /// An `Invalid` issuance source was used where a valid one is required,
    /// or the acting account has no valid provenance record.
    InvalidSource,
    /// The mint would push the total supply above the locked collateral.
    InsufficientCollateral,
    /// The transfer exceeds the sender's balance.
    InsufficientBalance,
}

/// Errors of the governance engine.
#[derive(Clone, Copy, Debug, PartialEq, Eq, Structural)]
pub enum GovernanceError {
    /// The caller's authorization proof is missing.
    Unauthorized,
    /// The referenced proposal id was never assigned.
    ProposalNotFound,
    /// The voter's stake is below the minimum required to vote.
    InsufficientStake,
    /// Finalize was called on a proposal that is no longer active.
    AlreadyFinalized,
}

/// Errors of the peg oracle.
#[derive(Clone, Copy, Debug, PartialEq, Eq, Structural)]
pub enum OracleError {
    /// The peg may only be computed for a valid issuance source.
    InvalidSource,
}

/// Errors of batch provenance validation.
#[derive(Clone, Copy, Debug, PartialEq, Eq, Structural)]
pub enum RegistryError {
    /// The batch inputs have unequal lengths.
    LengthMismatch,
}

} // verus!
