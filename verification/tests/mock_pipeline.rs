use prover::circuits::{build_witness, mock_verify, ConstraintViolation, TraceSummary};
use prover::config::default_tiers;
use prover::error::ProofError;
use prover::instance::{ProtocolInstance, RequestExtraInstance, RequestMetaData};
use prover::pipeline::{
    assemble_task_result, check_randomness, next_stage, process_mock_request, run_mock_pipeline,
    stage_error, Stage,
};
use prover::proofs::ProofResult;
use prover::request::{ProofRequest, ProofRequestOptions};

fn valid_instance() -> RequestExtraInstance {
    RequestExtraInstance {
        l1_signal_service: "10".repeat(20),
        l2_signal_service: "11".repeat(20),
        l2_contract: "12".repeat(20),
        meta_data: RequestMetaData {
            id: 7,
            timestamp: 1700000001,
            l1_height: 900,
            l1_hash: "aa".repeat(32),
            l1_mix_hash: "bb".repeat(32),
            deposits_processed: "cc".repeat(32),
            tx_list_hash: "dd".repeat(32),
            tx_list_byte_start: 0,
            tx_list_byte_end: 1000,
            gas_limit: 60000,
            beneficiary: "13".repeat(20),
            treasury: "14".repeat(20),
        },
        block_hash: "ee".repeat(32),
        parent_hash: "ff".repeat(32),
        signal_root: "ab".repeat(32),
        graffiti: "cd".repeat(32),
        prover: "15".repeat(20),
        gas_used: 50000,
        parent_gas_used: 40000,
        block_max_gas_limit: 6000000,
        max_transactions_per_block: 79,
        max_bytes_per_tx_list: 120000,
        anchor_gas_limit: 250000,
    }
}

fn mock_options() -> ProofRequestOptions {
    ProofRequestOptions {
        circuit: "super".to_string(),
        block: 7,
        rpc: "http://localhost:8545".to_string(),
        protocol_instance: valid_instance(),
        retry: false,
        param: None,
        mock: true,
        aggregate: false,
        mock_feedback: false,
        verify_proof: false,
    }
}

fn small_trace(gas_used: u64) -> TraceSummary {
    TraceSummary {
        txs: 2,
        calldata_bytes: 400,
        bytecode_bytes: 2000,
        rw_rows: 9000,
        copy_rows: 100,
        exp_steps: 4,
        keccak_rows: 800,
        gas_used,
    }
}

#[test]
fn mock_run_succeeds_without_proof_bytes() {
    let options = mock_options();
    let tiers = default_tiers();
    let trace = small_trace(50000);
    let proofs = run_mock_pipeline(&options, &trace, &tiers).expect("mock run must succeed");

    // The 50,000-gas block lands on the 63,000 tier.
    assert_eq!(proofs.config.block_gas_limit, 63000);
    assert_eq!(proofs.gas, 50000);

    // Mock mode never produces proof bytes or randomness.
    assert!(proofs.circuit.proof.is_empty());
    assert!(proofs.circuit.randomness.is_empty());

    // Aggregation was not requested: its slot keeps the default value.
    assert!(proofs.aggregation.proof.is_empty());
    assert!(proofs.aggregation.instance.is_empty());
    assert_eq!(proofs.aggregation.k, 0);
    assert!(proofs.aggregation.label.is_empty());

    assert_eq!(proofs.circuit.k, 19);
    assert_eq!(proofs.circuit.label, "super-63000");
    let expected: Vec<String> =
        vec!["7".to_string(), "1700000001".to_string(), "900".to_string(), "60000".to_string(), "50000".to_string()];
    assert_eq!(proofs.circuit.instance, expected);
}

#[test]
fn malformed_hash_fails_before_any_circuit() {
    let mut options = mock_options();
    options.protocol_instance.meta_data.tx_list_hash = "zz".to_string();
    let tiers = default_tiers();
    let trace = small_trace(50000);

    let mut req = ProofRequest::new(options);
    process_mock_request(&mut req, &trace, &tiers);
    assert_eq!(req.edition, 1);
    match req.result {
        Some(Err(message)) => assert_eq!(message, "invalid request input"),
        other => panic!("binding must fail, got {:?}", other.is_some()),
    }
}

#[test]
fn capacity_exhaustion_is_fatal_even_with_retry() {
    let mut options = mock_options();
    options.retry = true;
    let tiers = default_tiers();
    let trace = small_trace(1000000);

    let err = run_mock_pipeline(&options, &trace, &tiers).unwrap_err();
    assert_eq!(err, ProofError::CapacityExhausted);
    assert_eq!(err.message(), "no circuit parameters found");
    assert!(!err.should_retry(options.retry));

    let mut req = ProofRequest::new(options);
    process_mock_request(&mut req, &trace, &tiers);
    assert_eq!(req.edition, 1);
    match req.result {
        Some(Err(message)) => assert_eq!(message, "no circuit parameters found"),
        _ => panic!("capacity exhaustion must fail the task"),
    }
}

#[test]
fn unsupported_circuit_kind_is_invalid_input() {
    let mut options = mock_options();
    options.circuit = "keccak256".to_string();
    let tiers = default_tiers();
    let trace = small_trace(50000);
    let err = run_mock_pipeline(&options, &trace, &tiers).unwrap_err();
    assert_eq!(err, ProofError::InvalidInput);
}

#[test]
fn corrupted_witness_is_flagged() {
    let tiers = default_tiers();
    let config = prover::config::select_circuit_config(50000, &tiers).unwrap();
    let instance = ProtocolInstance::from_request(&valid_instance()).unwrap();

    // Corrupt the trace: more transactions than the tier accommodates.
    let mut trace = small_trace(50000);
    trace.txs = 1000;

    let witness = build_witness(&trace, instance, &config);
    let violations = mock_verify(&witness).unwrap_err();
    assert_eq!(violations, vec![ConstraintViolation::TxCount]);

    let options = mock_options();
    let err = run_mock_pipeline(&options, &trace, &tiers).unwrap_err();
    assert_eq!(err, ProofError::Engine);
}

#[test]
fn intact_witness_passes_the_constraint_check() {
    let tiers = default_tiers();
    let config = prover::config::select_circuit_config(50000, &tiers).unwrap();
    let instance = ProtocolInstance::from_request(&valid_instance()).unwrap();
    let trace = small_trace(50000);
    let witness = build_witness(&trace, instance, &config);
    assert!(mock_verify(&witness).is_ok());
    assert_eq!(witness.padded_rw_rows, 476052);
    assert_eq!(witness.padded_keccak_rows, 336000);
}

#[test]
fn every_overflow_is_reported() {
    let tiers = default_tiers();
    let config = prover::config::select_circuit_config(50000, &tiers).unwrap();
    let instance = ProtocolInstance::from_request(&valid_instance()).unwrap();
    let trace = TraceSummary {
        txs: u64::MAX,
        calldata_bytes: u64::MAX,
        bytecode_bytes: u64::MAX,
        rw_rows: u64::MAX,
        copy_rows: u64::MAX,
        exp_steps: u64::MAX,
        keccak_rows: u64::MAX,
        gas_used: 50000,
    };
    let witness = build_witness(&trace, instance, &config);
    let violations = mock_verify(&witness).unwrap_err();
    assert_eq!(
        violations,
        vec![
            ConstraintViolation::TxCount,
            ConstraintViolation::CallData,
            ConstraintViolation::Bytecode,
            ConstraintViolation::RwRows,
            ConstraintViolation::CopyRows,
            ConstraintViolation::ExpSteps,
            ConstraintViolation::KeccakRows,
        ],
    );
}

#[test]
fn aggregated_task_is_one_unit() {
    let tiers = default_tiers();
    let config = prover::config::select_circuit_config(50000, &tiers).unwrap();
    let base = ProofResult::default();

    // Aggregation requested but the outer proof is missing: the base proof
    // must not stand as a success on its own.
    let err = assemble_task_result(true, config, 50000, base.clone(), None).unwrap_err();
    assert_eq!(err, ProofError::Aggregation);
    assert_eq!(err.message(), "aggregation failed");

    // With the outer proof present the task is whole.
    let mut outer = ProofResult::default();
    outer.label = "super-63000-agg".to_string();
    let proofs = assemble_task_result(true, config, 50000, base.clone(), Some(outer)).unwrap();
    assert_eq!(proofs.aggregation.label, "super-63000-agg");

    // Without aggregation the outer slot keeps its default.
    let proofs = assemble_task_result(false, config, 50000, base, None).unwrap();
    assert!(proofs.aggregation.label.is_empty());
    assert!(proofs.aggregation.proof.is_empty());
}

#[test]
fn reused_randomness_is_a_configuration_error() {
    let previous = vec![1u8, 2, 3, 4];
    let fresh = vec![9u8, 9, 9, 9];

    // Fresh randomness passes; reuse outside mock mode does not.
    assert!(check_randomness(false, &previous, &fresh).is_ok());
    let err = check_randomness(false, &previous, &previous.clone()).unwrap_err();
    assert_eq!(err, ProofError::InvalidInput);

    // Mock mode creates no proof, so no freshness is demanded.
    assert!(check_randomness(true, &previous, &previous.clone()).is_ok());

    // Nothing was drawn before the first proof.
    assert!(check_randomness(false, &Vec::new(), &fresh).is_ok());
}

#[test]
fn failing_stages_surface_their_class() {
    assert_eq!(stage_error(Stage::Setup), ProofError::Infrastructure);
    assert_eq!(stage_error(Stage::KeygenVk), ProofError::Engine);
    assert_eq!(stage_error(Stage::KeygenPk), ProofError::Engine);
    assert_eq!(stage_error(Stage::Prove), ProofError::Engine);
    assert_eq!(stage_error(Stage::SelfVerify), ProofError::SelfVerification);
    assert_eq!(stage_error(Stage::AggSetup), ProofError::Aggregation);
    assert_eq!(stage_error(Stage::AggProve), ProofError::Aggregation);
}

#[test]
fn stage_order_follows_the_flags() {
    let mut options = mock_options();
    options.mock = false;

    // The plain path: setup, keys, proof, done.
    assert_eq!(next_stage(&options, Stage::Setup, true), Stage::KeygenVk);
    assert_eq!(next_stage(&options, Stage::KeygenVk, true), Stage::KeygenPk);
    assert_eq!(next_stage(&options, Stage::KeygenPk, true), Stage::Prove);
    assert_eq!(next_stage(&options, Stage::Prove, true), Stage::Complete);

    // Self-verification slots in after proving when asked.
    options.verify_proof = true;
    assert_eq!(next_stage(&options, Stage::Prove, true), Stage::SelfVerify);
    assert_eq!(next_stage(&options, Stage::SelfVerify, true), Stage::Complete);

    // Aggregation follows a verified proof when asked.
    options.aggregate = true;
    assert_eq!(next_stage(&options, Stage::SelfVerify, true), Stage::AggSetup);
    assert_eq!(next_stage(&options, Stage::AggSetup, true), Stage::AggKeygenVk);
    assert_eq!(next_stage(&options, Stage::AggKeygenVk, true), Stage::AggKeygenPk);
    assert_eq!(next_stage(&options, Stage::AggKeygenPk, true), Stage::AggProve);
    assert_eq!(next_stage(&options, Stage::AggProve, true), Stage::Complete);
}

#[test]
fn failures_short_circuit_the_stages() {
    let mut options = mock_options();
    options.mock = false;

    assert_eq!(next_stage(&options, Stage::Setup, false), Stage::Failed);
    assert_eq!(next_stage(&options, Stage::Prove, false), Stage::Failed);

    // With diagnostics on, a proving failure runs the constraint check
    // first, then still fails.
    options.mock_feedback = true;
    assert_eq!(next_stage(&options, Stage::Prove, false), Stage::MockDiagnostic);
    assert_eq!(next_stage(&options, Stage::MockDiagnostic, true), Stage::Failed);
    assert_eq!(next_stage(&options, Stage::MockDiagnostic, false), Stage::Failed);

    // A failed aggregation discards the task: no partial success.
    options.aggregate = true;
    assert_eq!(next_stage(&options, Stage::AggProve, false), Stage::Failed);

    // Terminal stages absorb.
    assert_eq!(next_stage(&options, Stage::Complete, false), Stage::Complete);
    assert_eq!(next_stage(&options, Stage::Failed, true), Stage::Failed);
}
