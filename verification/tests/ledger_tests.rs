use pi_coin::PiCoinSource;
use pi_coin::errors::PiCoinError;
use pi_coin::ledger::PiCoinContract;
use pi_coin::registry::ProvenanceRegistry;
use pi_coin::utils::PiCoinUtils;

const COLLATERAL: u64 = 100_000_000_000;

#[test]
fn test_initialize_hyper_tech() {
    let data = PiCoinContract::initialize(COLLATERAL);
    assert_eq!(data.total_supply, 0);
    assert_eq!(data.collateral_locked, 100_000_000_000);
    assert_eq!(data.peg_base_value, 314_159_000_000);
    let anti_fraud_hash =
        PiCoinUtils::generate_quantum_key(&b"PiCoin-Ultimate-Hyper-Tech-Unique".to_vec());
    assert_eq!(
        anti_fraud_hash,
        vec![
            88, 17, 89, 222, 116, 184, 32, 115, 131, 211, 20, 45, 128, 3, 36, 33, 231, 95, 163,
            229, 191, 215, 255, 156, 10, 254, 202, 223, 130, 242, 62, 77
        ]
    );
}

#[test]
fn test_mint_with_collateral_backing() {
    let mut data = PiCoinContract::initialize(COLLATERAL);
    let mut registry = ProvenanceRegistry::new();
    let to: u64 = 7;
    let amount: u64 = 1_000_000;
    let source = PiCoinSource::Mining;
    let result = PiCoinContract::mint(&mut data, &mut registry, to, amount, source, true);
    assert!(result.is_ok());
    assert_eq!(registry.lookup(to), Some(PiCoinSource::Mining));
}

#[test]
fn test_transfer_with_anti_fraud_zkp() {
    let mut data = PiCoinContract::initialize(COLLATERAL);
    let mut registry = ProvenanceRegistry::new();
    let from: u64 = 1;
    let to: u64 = 2;
    let source = PiCoinSource::Rewards;
    PiCoinContract::mint(&mut data, &mut registry, from, 500_000, source, true).unwrap();

    let zkp_base = PiCoinUtils::generate_quantum_key(&vec![42, 0]);
    assert_eq!(zkp_base.len(), 32);

    let amount: u64 = 500_000;
    let result = PiCoinContract::transfer(&mut data, &registry, from, to, amount, true);
    assert!(result.is_ok());
    assert_eq!(PiCoinContract::balance_of_account(&data, from), 0);
    assert_eq!(PiCoinContract::balance_of_account(&data, to), 500_000);
}

#[test]
fn test_verify_peg_with_ai_oracle() {
    let mut data = PiCoinContract::initialize(COLLATERAL);
    let mut registry = ProvenanceRegistry::new();
    let holder: u64 = 3;
    let source = PiCoinSource::P2P;
    PiCoinContract::mint(&mut data, &mut registry, holder, 1_000_000, source, true).unwrap();

    let result = PiCoinContract::verify_peg(&data, &registry, holder, 0);
    assert!(result.is_ok());

    let result_dev = PiCoinContract::verify_peg(&data, &registry, holder, 1_000_000);
    assert!(result_dev.is_ok());
}

#[test]
fn test_error_insufficient_collateral() {
    let mut data = PiCoinContract::initialize(COLLATERAL);
    let mut registry = ProvenanceRegistry::new();
    let to: u64 = 4;
    let amount: u64 = 200_000_000_000;
    let source = PiCoinSource::Rewards;
    let result = PiCoinContract::mint(&mut data, &mut registry, to, amount, source, true);
    assert!(matches!(result, Err(PiCoinError::InsufficientCollateral)));
    assert_eq!(data.total_supply, 0);
    assert_eq!(PiCoinContract::balance_of_account(&data, to), 0);
    assert_eq!(registry.lookup(to), None);
}

#[test]
fn test_global_payment_simulation() {
    let mut data = PiCoinContract::initialize(COLLATERAL);
    let mut registry = ProvenanceRegistry::new();
    let to: u64 = 5;
    let amount: u64 = 10_000_000;
    let source = PiCoinSource::P2P;
    PiCoinContract::mint(&mut data, &mut registry, to, amount, source, true).unwrap();
    let bridged = PiCoinUtils::simulate_dex_bridge(amount, "StellarDEX", source);
    assert!(bridged.is_ok());
    assert_eq!(PiCoinContract::balance_of_account(&data, to), 10_000_000);
}

#[test]
fn test_mint_invalid_source_rejected() {
    let mut data = PiCoinContract::initialize(COLLATERAL);
    let mut registry = ProvenanceRegistry::new();
    let to: u64 = 6;
    let amount: u64 = 1_000_000;
    let invalid_source = PiCoinSource::Invalid;
    let result = PiCoinContract::mint(&mut data, &mut registry, to, amount, invalid_source, true);
    assert!(matches!(result, Err(PiCoinError::InvalidSource)));
    assert_eq!(data.total_supply, 0);
    assert_eq!(registry.lookup(to), None);
}

#[test]
fn test_transfer_invalid_provenance() {
    let mut data = PiCoinContract::initialize(COLLATERAL);
    let registry = ProvenanceRegistry::new();
    let from: u64 = 8;
    let to: u64 = 9;
    let zkp_base = PiCoinUtils::generate_quantum_key(&vec![42, 0]);
    assert_eq!(zkp_base.len(), 32);
    let amount: u64 = 500_000;
    let result = PiCoinContract::transfer(&mut data, &registry, from, to, amount, true);
    assert!(matches!(result, Err(PiCoinError::InvalidSource)));
}

#[test]
fn test_verify_ecosystem_entry() {
    let mut data = PiCoinContract::initialize(COLLATERAL);
    let mut registry = ProvenanceRegistry::new();
    let valid_holder: u64 = 10;
    let invalid_holder: u64 = 11;
    let source = PiCoinSource::Rewards;
    PiCoinContract::mint(&mut data, &mut registry, valid_holder, 1_000_000, source, true).unwrap();

    assert!(PiCoinContract::verify_ecosystem_entry(&registry, valid_holder));
    assert!(!PiCoinContract::verify_ecosystem_entry(&registry, invalid_holder));
}

#[test]
fn mint_records_balance_supply_and_provenance() {
    let mut data = PiCoinContract::initialize(100_000_000_000);
    let mut registry = ProvenanceRegistry::new();
    let a: u64 = 20;
    let r = PiCoinContract::mint(&mut data, &mut registry, a, 1_000_000, PiCoinSource::Mining, true);
    assert_eq!(r, Ok(()));
    assert_eq!(PiCoinContract::balance_of_account(&data, a), 1_000_000);
    assert_eq!(data.total_supply, 1_000_000);
    assert_eq!(registry.lookup(a), Some(PiCoinSource::Mining));
}

#[test]
fn transfer_conserves_supply() {
    let mut data = PiCoinContract::initialize(COLLATERAL);
    let mut registry = ProvenanceRegistry::new();
    let a: u64 = 21;
    let b: u64 = 22;
    PiCoinContract::mint(&mut data, &mut registry, a, 1_000_000, PiCoinSource::Mining, true)
        .unwrap();
    PiCoinContract::transfer(&mut data, &registry, a, b, 500_000, true).unwrap();
    assert_eq!(PiCoinContract::balance_of_account(&data, a), 500_000);
    assert_eq!(PiCoinContract::balance_of_account(&data, b), 500_000);
    assert_eq!(data.total_supply, 1_000_000);
}

#[test]
fn transfer_insufficient_balance_leaves_state() {
    let mut data = PiCoinContract::initialize(COLLATERAL);
    let mut registry = ProvenanceRegistry::new();
    let a: u64 = 23;
    let b: u64 = 24;
    PiCoinContract::mint(&mut data, &mut registry, a, 1_000, PiCoinSource::P2P, true).unwrap();
    let r = PiCoinContract::transfer(&mut data, &registry, a, b, 2_000, true);
    assert_eq!(r, Err(PiCoinError::InsufficientBalance));
    assert_eq!(PiCoinContract::balance_of_account(&data, a), 1_000);
    assert_eq!(PiCoinContract::balance_of_account(&data, b), 0);
    assert_eq!(data.total_supply, 1_000);
}

#[test]
fn unauthorized_mint_and_transfer_rejected() {
    let mut data = PiCoinContract::initialize(COLLATERAL);
    let mut registry = ProvenanceRegistry::new();
    let a: u64 = 25;
    let r = PiCoinContract::mint(&mut data, &mut registry, a, 1_000, PiCoinSource::Mining, false);
    assert_eq!(r, Err(PiCoinError::Unauthorized));
    assert_eq!(data.total_supply, 0);
    let r = PiCoinContract::transfer(&mut data, &registry, a, 26, 1_000, false);
    assert_eq!(r, Err(PiCoinError::Unauthorized));
}

#[test]
fn provenance_sticks_to_first_mint_source() {
    let mut data = PiCoinContract::initialize(COLLATERAL);
    let mut registry = ProvenanceRegistry::new();
    let a: u64 = 27;
    PiCoinContract::mint(&mut data, &mut registry, a, 1_000, PiCoinSource::Mining, true).unwrap();
    PiCoinContract::mint(&mut data, &mut registry, a, 1_000, PiCoinSource::Rewards, true).unwrap();
    assert_eq!(registry.lookup(a), Some(PiCoinSource::Mining));
    assert_eq!(PiCoinContract::balance_of_account(&data, a), 2_000);
    assert_eq!(data.total_supply, 2_000);
}

#[test]
fn verify_peg_is_idempotent_at_same_time() {
    let mut data = PiCoinContract::initialize(COLLATERAL);
    let mut registry = ProvenanceRegistry::new();
    let holder: u64 = 28;
    PiCoinContract::mint(&mut data, &mut registry, holder, 1_000, PiCoinSource::Mining, true)
        .unwrap();
    let first = PiCoinContract::verify_peg(&data, &registry, holder, 12_345);
    let second = PiCoinContract::verify_peg(&data, &registry, holder, 12_345);
    assert_eq!(first, second);
    // 314_159_000_000 + 3_141_590 + ((12_345 % 100) / 10) * 1000
    assert_eq!(first, Ok(314_162_145_590));
}

#[test]
fn verify_peg_without_provenance_rejected() {
    let data = PiCoinContract::initialize(COLLATERAL);
    let registry = ProvenanceRegistry::new();
    let r = PiCoinContract::verify_peg(&data, &registry, 29, 0);
    assert_eq!(r, Err(PiCoinError::InvalidSource));
}
