//! Ledger-and-governance engine for a provenance-gated, pegged token.
//!
//! The engine is a single serialized state machine: every operation takes the
//! authoritative state explicitly, validates its inputs, and either commits a
//! whole effect or fails with a typed error and leaves the state untouched.

pub mod assoc;
pub mod errors;
pub mod governance;
pub mod ledger;
pub mod oracle;
pub mod registry;
pub mod utils;

use vstd::prelude::*;

verus! {

/// Issuance sources that may back an account. `Invalid` is a sentinel that
/// never grants ledger or governance access.
#[derive(Clone, Copy, Debug, PartialEq, Eq, Structural)]
pub enum PiCoinSource {
    Mining,
    Rewards,
    P2P,
    Invalid,
}

} // verus!
