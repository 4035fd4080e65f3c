//! Provenance-gated utilities: the pi-based peg adjustment, stability
//! prediction, digest-based provenance verification, batch source
//! validation, and key generation through the host hash function.

use vstd::prelude::*;
use crate::PiCoinSource;
use crate::errors::{PiCoinError, RegistryError};
use crate::oracle::{MAX_TREND_TERM, PI_PEG_ADJUSTMENT, trend_term};

verus! {

/// The digest the host hash function returns for the given bytes: a fixed
/// 32-byte value determined by the input alone.
pub uninterp spec fn digest_of(data: Seq<u8>) -> Seq<u8>;

/// The big-endian bytes of a 64-bit account identifier.
pub open spec fn u64_be_bytes(x: u64) -> Seq<u8> {
    seq![
        ((x >> 56) & 0xff) as u8,
        ((x >> 48) & 0xff) as u8,
        ((x >> 40) & 0xff) as u8,
        ((x >> 32) & 0xff) as u8,
        ((x >> 24) & 0xff) as u8,
        ((x >> 16) & 0xff) as u8,
        ((x >> 8) & 0xff) as u8,
        (x & 0xff) as u8,
    ]
}

/// Stateless utilities of the token ecosystem.
pub struct PiCoinUtils;

impl PiCoinUtils {
    /// Derives a unique key from `seed`.
    ///
    /// Relies on soroban_sdk's `Crypto::sha256`: the returned 32-byte digest
    /// is the SHA-256 hash of the input and depends on the input bytes
    /// alone. The host environment is created per call with snapshot capture
    /// off and its metering budget lifted; the host's bytes object still
    /// caps the input length at `u32::MAX`, hence the bound on the seed.
    #[verifier::external_body]
    pub fn generate_quantum_key(seed: &Vec<u8>) -> (r: Vec<u8>)
        requires
            seed@.len() <= u32::MAX,
        ensures
            r@ == digest_of(seed@),
            r@.len() == 32,
    {
        let env = soroban_sdk::Env::new_with_config(soroban_sdk::testutils::EnvTestConfig {
            capture_snapshot_at_drop: false,
        });
        env.cost_estimate().budget().reset_unlimited();
        let data = soroban_sdk::Bytes::from_slice(&env, seed.as_slice());
        env.crypto().sha256(&data).to_array().to_vec()
    }

    /// The pi-based peg adjustment of `base_value`, refused for the
    /// `Invalid` source.
    pub fn calculate_pi_peg(base_value: u64, source: PiCoinSource) -> (r: Result<u64, PiCoinError>)
        requires
            base_value <= u64::MAX - PI_PEG_ADJUSTMENT,
        ensures
            source == PiCoinSource::Invalid ==> r == Err::<u64, PiCoinError>(
                PiCoinError::InvalidSource,
            ),
            source != PiCoinSource::Invalid ==> r == Ok::<u64, PiCoinError>(
                (base_value + PI_PEG_ADJUSTMENT) as u64,
            ),
    {
        if matches!(source, PiCoinSource::Invalid) {
            return Err(PiCoinError::InvalidSource);
        }
        Ok(base_value + PI_PEG_ADJUSTMENT)
    }

    /// Predicts a stable price: the current price plus the bounded trend
    /// term of the supplied logical time; refused for the `Invalid` source.
    pub fn ai_predict_stability(current_price: u64, source: PiCoinSource, time: u64) -> (r: Result<
        u64,
        PiCoinError,
    >)
        requires
            current_price <= u64::MAX - MAX_TREND_TERM,
        ensures
            source == PiCoinSource::Invalid ==> r == Err::<u64, PiCoinError>(
                PiCoinError::InvalidSource,
            ),
            source != PiCoinSource::Invalid ==> r == Ok::<u64, PiCoinError>(
                (current_price + trend_term(time)) as u64,
            ),
    {
        if matches!(source, PiCoinSource::Invalid) {
            return Err(PiCoinError::InvalidSource);
        }
        let trend: u64 = ((time % 100) / 10) * 1000;
        Ok(current_price + trend)
    }

    /// Validates a bridge of `amount` towards `target_chain`: only a valid
    /// issuance source may reach the bridge; the bridge itself is a
    /// notification event outside the core.
    pub fn simulate_dex_bridge(amount: u64, target_chain: &str, source: PiCoinSource) -> (r:
        Result<(), PiCoinError>)
        ensures
            source == PiCoinSource::Invalid ==> r == Err::<(), PiCoinError>(
                PiCoinError::InvalidSource,
            ),
            source != PiCoinSource::Invalid ==> r == Ok::<(), PiCoinError>(()),
    {
        if matches!(source, PiCoinSource::Invalid) {
            return Err(PiCoinError::InvalidSource);
        }
        let _ = amount;
        let _ = target_chain;
        Ok(())
    }

    /// Per-index eligibility of each proposed source: pure validation of the
    /// proposed sources against the `Invalid` sentinel, no registry state
    /// involved; the inputs must have equal lengths.
    pub fn batch_verify_sources(holders: &Vec<u64>, sources: &Vec<PiCoinSource>) -> (r: Result<
        Vec<bool>,
        RegistryError,
    >)
        ensures
            holders@.len() != sources@.len() ==> r == Err::<Vec<bool>, RegistryError>(
                RegistryError::LengthMismatch,
            ),
            holders@.len() == sources@.len() ==> (r matches Ok(v) && v@.len() == sources@.len()
                && forall|i: int|
                0 <= i < sources@.len() ==> v@[i] == (sources@[i] != PiCoinSource::Invalid)),
    {
        if holders.len() != sources.len() {
            return Err(RegistryError::LengthMismatch);
        }
        let mut results: Vec<bool> = Vec::new();
        let mut i: usize = 0;
        while i < sources.len()
            invariant
                i <= sources@.len(),
                results@.len() == i,
                forall|j: int| 0 <= j < i ==> results@[j] == (sources@[j] != PiCoinSource::Invalid),
            decreases sources@.len() - i,
        {
            results.push(!matches!(sources[i], PiCoinSource::Invalid));
            i = i + 1;
        }
        Ok(results)
    }

    /// Verifies that `expected_hash` is the digest of the holder's identity
    /// bytes; refused for the `Invalid` source.
    pub fn verify_provenance_hash(
        holder: u64,
        expected_hash: &Vec<u8>,
        source: PiCoinSource,
    ) -> (r: Result<bool, PiCoinError>)
        ensures
            source == PiCoinSource::Invalid ==> r == Err::<bool, PiCoinError>(
                PiCoinError::InvalidSource,
            ),
            source != PiCoinSource::Invalid ==> r == Ok::<bool, PiCoinError>(
                digest_of(u64_be_bytes(holder)) == expected_hash@,
            ),
    {
        if matches!(source, PiCoinSource::Invalid) {
            return Err(PiCoinError::InvalidSource);
        }
        let bytes = u64_to_be_bytes(holder);
        let digest = Self::generate_quantum_key(&bytes);
        Ok(bytes_equal(&digest, expected_hash))
    }
}

/// The identity bytes of an account: its 64-bit id in big-endian order.
fn u64_to_be_bytes(x: u64) -> (r: Vec<u8>)
    ensures
        r@ == u64_be_bytes(x),
{
    let mut r: Vec<u8> = Vec::new();
    r.push(((x >> 56) & 0xff) as u8);
    r.push(((x >> 48) & 0xff) as u8);
    r.push(((x >> 40) & 0xff) as u8);
    r.push(((x >> 32) & 0xff) as u8);
    r.push(((x >> 24) & 0xff) as u8);
    r.push(((x >> 16) & 0xff) as u8);
    r.push(((x >> 8) & 0xff) as u8);
    r.push((x & 0xff) as u8);
    proof {
        assert(r@ =~= u64_be_bytes(x));
    }
    r
}

/// Byte-for-byte equality of two byte vectors.
fn bytes_equal(a: &Vec<u8>, b: &Vec<u8>) -> (r: bool)
    ensures
        r == (a@ == b@),
{
    if a.len() != b.len() {
        return false;
    }
    let mut i: usize = 0;
    while i < a.len()
        invariant
            a@.len() == b@.len(),
            i <= a@.len(),
            forall|j: int| 0 <= j < i ==> a@[j] == b@[j],
        decreases a@.len() - i,
    {
        if a[i] != b[i] {
            return false;
        }
        i = i + 1;
    }
    proof {
        assert(a@ =~= b@);
    }
    true
}

} // verus!
