use prover::config::{default_tiers, select_circuit_config, CircuitConfig};
use prover::error::ProofError;

#[test]
fn ordinary_block_takes_the_small_tier() {
    let tiers = default_tiers();
    let config = select_circuit_config(50000, &tiers).expect("a tier covers this block");
    assert_eq!(config.block_gas_limit, 63000);
    assert_eq!(config.min_k, 19);
}

#[test]
fn selection_is_inclusive_at_the_ceiling() {
    let tiers = default_tiers();
    assert_eq!(select_circuit_config(63000, &tiers).unwrap().block_gas_limit, 63000);
    assert_eq!(select_circuit_config(63001, &tiers).unwrap().block_gas_limit, 300000);
    assert_eq!(select_circuit_config(300000, &tiers).unwrap().block_gas_limit, 300000);
    assert_eq!(select_circuit_config(0, &tiers).unwrap().block_gas_limit, 63000);
}

#[test]
fn gas_beyond_every_ceiling_fails() {
    let tiers = default_tiers();
    let err = select_circuit_config(1000000, &tiers).unwrap_err();
    assert_eq!(err, ProofError::CapacityExhausted);
    assert_eq!(err.message(), "no circuit parameters found");
    // Capacity exhaustion is fatal: the retry flag never brings it back.
    assert!(!err.should_retry(true));
}

#[test]
fn empty_table_covers_nothing() {
    let tiers: Vec<CircuitConfig> = Vec::new();
    assert_eq!(select_circuit_config(0, &tiers).unwrap_err(), ProofError::CapacityExhausted);
}

#[test]
fn selected_ceiling_grows_with_gas() {
    let tiers = default_tiers();
    let mut last = 0usize;
    for gas in [0u64, 1, 62999, 63000, 63001, 150000, 300000] {
        let ceiling = select_circuit_config(gas, &tiers).unwrap().block_gas_limit;
        assert!(ceiling >= last);
        last = ceiling;
    }
}
