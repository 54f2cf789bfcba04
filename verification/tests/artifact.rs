use prover::artifact::{build_verifier_artifact, verifier_address};
use prover::circuits::{
    build_aggregation_circuit, build_circuit, build_witness, num_instance, CircuitKind,
};
use prover::config::default_tiers;
use prover::instance::{ProtocolInstance, RequestExtraInstance, RequestMetaData};
use prover::proofs::ProofResult;

fn valid_instance() -> RequestExtraInstance {
    RequestExtraInstance {
        l1_signal_service: "10".repeat(20),
        l2_signal_service: "11".repeat(20),
        l2_contract: "12".repeat(20),
        meta_data: RequestMetaData {
            id: 7,
            timestamp: 1700000001,
            l1_height: 900,
            l1_hash: "aa".repeat(32),
            l1_mix_hash: "bb".repeat(32),
            deposits_processed: "cc".repeat(32),
            tx_list_hash: "dd".repeat(32),
            tx_list_byte_start: 0,
            tx_list_byte_end: 1000,
            gas_limit: 60000,
            beneficiary: "13".repeat(20),
            treasury: "14".repeat(20),
        },
        block_hash: "ee".repeat(32),
        parent_hash: "ff".repeat(32),
        signal_root: "ab".repeat(32),
        graffiti: "cd".repeat(32),
        prover: "15".repeat(20),
        gas_used: 50000,
        parent_gas_used: 40000,
        block_max_gas_limit: 6000000,
        max_transactions_per_block: 79,
        max_bytes_per_tx_list: 120000,
        anchor_gas_limit: 250000,
    }
}

#[test]
fn base_artifact_is_addressed_by_its_label() {
    let tiers = default_tiers();
    let config = prover::config::select_circuit_config(50000, &tiers).unwrap();
    let artifact =
        build_verifier_artifact(CircuitKind::Super, &config, false, vec![0x60, 0x80]).unwrap();
    assert_eq!(artifact.label, "super-63000");
    assert_eq!(artifact.bytecode, vec![0x60, 0x80]);

    let mut expected = b"super-63000".to_vec();
    expected.resize(20, 0);
    assert_eq!(artifact.address, expected);
}

#[test]
fn aggregation_artifact_carries_the_suffix() {
    let tiers = default_tiers();
    let config = prover::config::select_circuit_config(100000, &tiers).unwrap();
    let artifact =
        build_verifier_artifact(CircuitKind::Super, &config, true, Vec::new()).unwrap();
    assert_eq!(artifact.label, "super-300000-agg");
    let mut expected = b"super-300000-agg".to_vec();
    expected.resize(20, 0);
    assert_eq!(artifact.address, expected);
}

#[test]
fn long_labels_truncate_into_the_address_width() {
    let addr = verifier_address("bytecode-300000-extra-long-label");
    assert_eq!(addr.len(), 20);
    assert_eq!(addr, b"bytecode-300000-extr".to_vec());
}

#[test]
fn instance_shapes_follow_the_kind() {
    assert_eq!(num_instance(CircuitKind::Super), vec![5]);
    assert_eq!(num_instance(CircuitKind::Pi), vec![5]);
    assert_eq!(num_instance(CircuitKind::Evm), Vec::<usize>::new());
    assert_eq!(num_instance(CircuitKind::Keccak), Vec::<usize>::new());
}

#[test]
fn built_circuit_exposes_its_shape() {
    let tiers = default_tiers();
    let config = prover::config::select_circuit_config(50000, &tiers).unwrap();
    let instance = ProtocolInstance::from_request(&valid_instance()).unwrap();
    let trace = prover::circuits::TraceSummary {
        txs: 2,
        calldata_bytes: 400,
        bytecode_bytes: 2000,
        rw_rows: 9000,
        copy_rows: 100,
        exp_steps: 4,
        keccak_rows: 800,
        gas_used: 50000,
    };
    let witness = build_witness(&trace, instance, &config);
    let built = build_circuit(CircuitKind::Pi, witness);
    assert_eq!(built.label, "pi-63000");
    assert_eq!(built.k, 19);
    assert_eq!(built.instances().len(), 1);
    assert_eq!(built.instances()[0], vec![7, 1700000001, 900, 60000, 50000]);

    assert_eq!(built.subcircuits, vec![CircuitKind::Pi]);

    let composite = build_circuit(CircuitKind::Super, built.witness.clone());
    assert_eq!(
        composite.subcircuits,
        vec![
            CircuitKind::Evm,
            CircuitKind::State,
            CircuitKind::Tx,
            CircuitKind::Pi,
            CircuitKind::Bytecode,
            CircuitKind::MemCopy,
            CircuitKind::Exp,
            CircuitKind::Keccak,
        ],
    );
    assert_eq!(composite.label, "super-63000");

    let no_inputs = build_circuit(CircuitKind::State, built.witness.clone());
    assert!(no_inputs.instances().is_empty());
    assert_eq!(no_inputs.label, "state-63000");
}

#[test]
fn aggregation_circuit_is_sized_by_its_own_exponent() {
    let tiers = default_tiers();
    let config = prover::config::select_circuit_config(50000, &tiers).unwrap();
    let inner = ProofResult::default();
    let outer = build_aggregation_circuit(CircuitKind::Super, inner, &config);
    assert_eq!(outer.k, 26);
    assert_eq!(outer.label, "super-63000-agg");
    assert!(outer.inner.proof.is_empty());
}

#[test]
fn circuit_selectors_resolve_each_kind() {
    for (name, kind) in [
        ("super", CircuitKind::Super),
        ("pi", CircuitKind::Pi),
        ("evm", CircuitKind::Evm),
        ("state", CircuitKind::State),
        ("tx", CircuitKind::Tx),
        ("bytecode", CircuitKind::Bytecode),
        ("copy", CircuitKind::MemCopy),
        ("exp", CircuitKind::Exp),
        ("keccak", CircuitKind::Keccak),
    ] {
        let parsed = CircuitKind::parse(&name.to_string());
        assert_eq!(parsed, Some(kind));
        assert_eq!(kind.name(), name);
    }
    assert_eq!(CircuitKind::parse(&"plonk".to_string()), None);
    assert_eq!(CircuitKind::parse(&"".to_string()), None);
}
