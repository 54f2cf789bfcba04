use prover::instance::{RequestExtraInstance, RequestMetaData};
use prover::proofs::Proofs;
use prover::request::{default_bool, find_task, obtain_task, ProofRequest, ProofRequestOptions};

fn sample_instance() -> RequestExtraInstance {
    RequestExtraInstance {
        l1_signal_service: "10".repeat(20),
        l2_signal_service: "11".repeat(20),
        l2_contract: "12".repeat(20),
        meta_data: RequestMetaData {
            id: 42,
            timestamp: 1700000000,
            l1_height: 900,
            l1_hash: "aa".repeat(32),
            l1_mix_hash: "bb".repeat(32),
            deposits_processed: "cc".repeat(32),
            tx_list_hash: "dd".repeat(32),
            tx_list_byte_start: 0,
            tx_list_byte_end: 1000,
            gas_limit: 60000,
            beneficiary: "13".repeat(20),
            treasury: "14".repeat(20),
        },
        block_hash: "ee".repeat(32),
        parent_hash: "ff".repeat(32),
        signal_root: "ab".repeat(32),
        graffiti: "cd".repeat(32),
        prover: "15".repeat(20),
        gas_used: 50000,
        parent_gas_used: 40000,
        block_max_gas_limit: 6000000,
        max_transactions_per_block: 79,
        max_bytes_per_tx_list: 120000,
        anchor_gas_limit: 250000,
    }
}

fn sample_options() -> ProofRequestOptions {
    ProofRequestOptions {
        circuit: "super".to_string(),
        block: 42,
        rpc: "http://localhost:8545".to_string(),
        protocol_instance: sample_instance(),
        retry: false,
        param: Some("params/k19".to_string()),
        mock: true,
        aggregate: false,
        mock_feedback: false,
        verify_proof: false,
    }
}

#[test]
fn mode_flags_do_not_affect_identity() {
    let a = sample_options();
    let mut b = sample_options();
    b.retry = true;
    b.mock_feedback = true;
    b.verify_proof = true;
    assert!(a == b);
}

#[test]
fn identity_fields_all_matter() {
    let a = sample_options();

    let mut b = sample_options();
    b.block = 43;
    assert!(a != b);

    let mut b = sample_options();
    b.circuit = "pi".to_string();
    assert!(a != b);

    let mut b = sample_options();
    b.rpc = "http://localhost:9545".to_string();
    assert!(a != b);

    let mut b = sample_options();
    b.param = None;
    assert!(a != b);

    let mut b = sample_options();
    b.mock = false;
    assert!(a != b);

    let mut b = sample_options();
    b.aggregate = true;
    assert!(a != b);

    let mut b = sample_options();
    b.protocol_instance.gas_used = 50001;
    assert!(a != b);

    let mut b = sample_options();
    b.protocol_instance.meta_data.id = 43;
    assert!(a != b);
}

#[test]
fn anchor_gas_limit_is_outside_identity() {
    let a = sample_options();
    let mut b = sample_options();
    b.protocol_instance.anchor_gas_limit = 1;
    assert!(a == b);
}

#[test]
fn instance_equality_follows_the_curated_fields() {
    let a = sample_instance();
    let mut b = sample_instance();
    assert!(a == b);
    b.anchor_gas_limit = 0;
    assert!(a == b);
    b.signal_root = "00".repeat(32);
    assert!(a != b);
}

#[test]
fn meta_data_equality_is_field_by_field() {
    let a = sample_instance().meta_data;
    let mut b = sample_instance().meta_data;
    assert!(a == b);
    b.treasury = "00".repeat(20);
    assert!(a != b);
}

#[test]
fn edition_counts_every_result_transition() {
    let mut req = ProofRequest::new(sample_options());
    assert_eq!(req.edition, 0);
    assert!(req.result.is_none());

    req.set_result(Ok(Proofs::default()));
    assert_eq!(req.edition, 1);
    assert!(matches!(req.result, Some(Ok(_))));

    req.set_result(Err("proof computation failed".to_string()));
    assert_eq!(req.edition, 2);

    // A retry that fails again is still a transition.
    req.set_result(Err("proof computation failed".to_string()));
    assert_eq!(req.edition, 3);
    assert!(matches!(req.result, Some(Err(_))));
}

#[test]
fn equal_tasks_share_one_entry() {
    let mut tasks: Vec<ProofRequest> = Vec::new();
    assert!(find_task(&tasks, &sample_options()).is_none());

    let first = obtain_task(&mut tasks, sample_options());
    assert_eq!(first, 0);
    assert_eq!(tasks.len(), 1);
    assert_eq!(tasks[0].edition, 0);
    assert!(tasks[0].result.is_none());

    // The same work under different diagnostic flags reuses the entry.
    let mut again = sample_options();
    again.retry = true;
    again.verify_proof = true;
    assert_eq!(obtain_task(&mut tasks, again), 0);
    assert_eq!(tasks.len(), 1);

    // A different block is new work.
    let mut other = sample_options();
    other.block = 43;
    assert_eq!(obtain_task(&mut tasks, other.clone()), 1);
    assert_eq!(tasks.len(), 2);
    assert_eq!(find_task(&tasks, &other), Some(1));
}

#[test]
fn omitted_mode_flags_default_off() {
    assert!(!default_bool());
}
