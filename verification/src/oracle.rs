//! The peg oracle: a deterministic function of the peg reference value and
//! the supplied logical time, gated on a valid issuance source.
//!
//! The clock value is an input parameter, never ambient time, so repeated
//! calls at the same logical time return the same value.

use vstd::prelude::*;
use crate::PiCoinSource;
use crate::errors::OracleError;

verus! {

/// The fixed peg reference: 314159 dollars in micro-units.
pub const PEG_BASE_VALUE: u64 = 314_159_000_000;

/// An approximation of pi, scaled by ten to the ninth.
pub const PI_SCALED: u64 = 3_141_590_000;

/// The fixed peg adjustment derived from the pi approximation.
pub const PI_PEG_ADJUSTMENT: u64 = PI_SCALED / 1000;

/// The largest value the time-derived trend term can take.
pub const MAX_TREND_TERM: u64 = 9_000;

/// The largest base value for which the peg computation cannot overflow.
pub const MAX_PEG_INPUT: u64 = u64::MAX - PI_PEG_ADJUSTMENT - MAX_TREND_TERM;

/// The bounded trend term derived from the logical time.
pub open spec fn trend_term(time: u64) -> int {
    ((time % 100) / 10) * 1000
}

/// The peg value: the base value plus the fixed pi adjustment plus the
/// time-derived trend term.
pub open spec fn peg_value(base_value: u64, time: u64) -> int {
    base_value + PI_PEG_ADJUSTMENT + trend_term(time)
}

/// Computes and verifies peg values for the ledger.
pub struct PegOracle;

impl PegOracle {
    /// The peg for `base_value` at logical `time`: a deterministic, bounded
    /// adjustment of the base value, refused for the `Invalid` source.
    pub fn compute(base_value: u64, source: PiCoinSource, time: u64) -> (r: Result<
        u64,
        OracleError,
    >)
        requires
            base_value <= MAX_PEG_INPUT,
        ensures
            source == PiCoinSource::Invalid ==> r == Err::<u64, OracleError>(
                OracleError::InvalidSource,
            ),
            source != PiCoinSource::Invalid ==> r == Ok::<u64, OracleError>(
                peg_value(base_value, time) as u64,
            ),
            source != PiCoinSource::Invalid ==> peg_value(base_value, time) <= u64::MAX,
    {
        if matches!(source, PiCoinSource::Invalid) {
            return Err(OracleError::InvalidSource);
        }
        let trend: u64 = ((time % 100) / 10) * 1000;
        assert(trend == trend_term(time));
        Ok(base_value + PI_PEG_ADJUSTMENT + trend)
    }
}

} // verus!
