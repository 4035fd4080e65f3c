use pi_coin::PiCoinSource;
use pi_coin::errors::{PiCoinError, RegistryError};
use pi_coin::utils::PiCoinUtils;

#[test]
fn calculate_pi_peg_adds_fixed_adjustment() {
    let r = PiCoinUtils::calculate_pi_peg(314_159_000_000, PiCoinSource::Mining);
    assert_eq!(r, Ok(314_162_141_590));
    let r = PiCoinUtils::calculate_pi_peg(0, PiCoinSource::P2P);
    assert_eq!(r, Ok(3_141_590));
}

#[test]
fn calculate_pi_peg_rejects_invalid_source() {
    let r = PiCoinUtils::calculate_pi_peg(314_159_000_000, PiCoinSource::Invalid);
    assert_eq!(r, Err(PiCoinError::InvalidSource));
}

#[test]
fn ai_predict_stability_adds_trend_term() {
    // time 55: ((55 % 100) / 10) * 1000 == 5000
    let r = PiCoinUtils::ai_predict_stability(1_000, PiCoinSource::Rewards, 55);
    assert_eq!(r, Ok(6_000));
    // time 204: ((204 % 100) / 10) * 1000 == 0
    let r = PiCoinUtils::ai_predict_stability(1_000, PiCoinSource::Rewards, 204);
    assert_eq!(r, Ok(1_000));
    let r = PiCoinUtils::ai_predict_stability(1_000, PiCoinSource::Invalid, 55);
    assert_eq!(r, Err(PiCoinError::InvalidSource));
}

#[test]
fn simulate_dex_bridge_gates_on_source() {
    assert_eq!(
        PiCoinUtils::simulate_dex_bridge(1_000_000, "StellarDEX", PiCoinSource::Mining),
        Ok(())
    );
    assert_eq!(
        PiCoinUtils::simulate_dex_bridge(1_000_000, "StellarDEX", PiCoinSource::Invalid),
        Err(PiCoinError::InvalidSource)
    );
}

#[test]
fn batch_verify_sources_reports_per_index_eligibility() {
    let holders: Vec<u64> = vec![1, 2, 3, 4];
    let sources = vec![
        PiCoinSource::Mining,
        PiCoinSource::Invalid,
        PiCoinSource::Rewards,
        PiCoinSource::P2P,
    ];
    let r = PiCoinUtils::batch_verify_sources(&holders, &sources);
    assert_eq!(r, Ok(vec![true, false, true, true]));
}

#[test]
fn batch_verify_sources_rejects_length_mismatch() {
    let holders: Vec<u64> = vec![1, 2];
    let sources = vec![PiCoinSource::Mining];
    let r = PiCoinUtils::batch_verify_sources(&holders, &sources);
    assert_eq!(r, Err(RegistryError::LengthMismatch));
}

#[test]
fn generate_quantum_key_is_the_sha256_digest() {
    let key = PiCoinUtils::generate_quantum_key(&b"PiCoin-Deploy-Key".to_vec());
    assert_eq!(
        key,
        vec![
            100, 247, 165, 171, 126, 63, 172, 16, 184, 116, 12, 2, 177, 167, 236, 122, 56, 62,
            161, 110, 70, 203, 128, 176, 219, 239, 53, 195, 56, 131, 157, 8
        ]
    );
    // determinism: the same seed gives the same key
    let again = PiCoinUtils::generate_quantum_key(&b"PiCoin-Deploy-Key".to_vec());
    assert_eq!(key, again);
}

#[test]
fn generate_quantum_key_handles_large_seeds() {
    // well past the host's default metering budget for hashing
    let seed: Vec<u8> = vec![7; 4_000_000];
    let key = PiCoinUtils::generate_quantum_key(&seed);
    assert_eq!(
        key,
        vec![
            129, 96, 210, 16, 162, 139, 183, 115, 6, 167, 121, 169, 77, 160, 8, 15, 1, 140, 174,
            81, 65, 37, 252, 199, 119, 99, 185, 62, 178, 128, 112, 160
        ]
    );
}

#[test]
fn verify_provenance_hash_matches_holder_digest() {
    // sha256 of the 8 big-endian identity bytes of holder 42
    let expected: Vec<u8> = vec![
        166, 187, 19, 60, 177, 227, 99, 138, 215, 184, 163, 255, 5, 57, 102, 142, 158, 86, 249,
        184, 80, 239, 27, 42, 129, 15, 84, 34, 234, 166, 195, 35,
    ];
    let r = PiCoinUtils::verify_provenance_hash(42, &expected, PiCoinSource::Rewards);
    assert_eq!(r, Ok(true));

    let mut wrong = expected.clone();
    wrong[0] = wrong[0].wrapping_add(1);
    let r = PiCoinUtils::verify_provenance_hash(42, &wrong, PiCoinSource::Rewards);
    assert_eq!(r, Ok(false));

    let r = PiCoinUtils::verify_provenance_hash(42, &expected, PiCoinSource::Invalid);
    assert_eq!(r, Err(PiCoinError::InvalidSource));
}
