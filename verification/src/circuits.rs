use vstd::prelude::*;
use vstd::string::StringExecFns;
use crate::codec::{decimal_chars, u64_to_decimal};
use crate::config::CircuitConfig;
use crate::instance::ProtocolInstance;
use crate::proofs::ProofResult;

verus! {

/// The closed set of circuit variants: one constraint system per
/// sub-domain, plus the composite circuit combining all of them.
#[derive(Clone, Copy, Debug, PartialEq, Eq, Structural)]
pub enum CircuitKind {
    /// The composite circuit combining every sub-circuit.
    Super,
    /// The public-input circuit.
    Pi,
    /// The execution-trace circuit.
    Evm,
    /// The world-state circuit.
    State,
    /// The transaction circuit.
    Tx,
    /// The bytecode circuit.
    Bytecode,
    /// The memory-copy circuit.
    MemCopy,
    /// The exponentiation circuit.
    Exp,
    /// The hashing circuit.
    Keccak,
}

/// The selector under which a request names each circuit kind.
pub open spec fn spec_kind_name(kind: CircuitKind) -> Seq<char> {
    match kind {
        CircuitKind::Super => "super"@,
        CircuitKind::Pi => "pi"@,
        CircuitKind::Evm => "evm"@,
        CircuitKind::State => "state"@,
        CircuitKind::Tx => "tx"@,
        CircuitKind::Bytecode => "bytecode"@,
        CircuitKind::MemCopy => "copy"@,
        CircuitKind::Exp => "exp"@,
        CircuitKind::Keccak => "keccak"@,
    }
}

/// The kind a circuit selector denotes, if any.
pub open spec fn spec_parse_kind(s: Seq<char>) -> Option<CircuitKind> {
    if s == "super"@ {
        Some(CircuitKind::Super)
    } else if s == "pi"@ {
        Some(CircuitKind::Pi)
    } else if s == "evm"@ {
        Some(CircuitKind::Evm)
    } else if s == "state"@ {
        Some(CircuitKind::State)
    } else if s == "tx"@ {
        Some(CircuitKind::Tx)
    } else if s == "bytecode"@ {
        Some(CircuitKind::Bytecode)
    } else if s == "copy"@ {
        Some(CircuitKind::MemCopy)
    } else if s == "exp"@ {
        Some(CircuitKind::Exp)
    } else if s == "keccak"@ {
        Some(CircuitKind::Keccak)
    } else {
        None
    }
}

impl CircuitKind {
    /// Resolves a request's circuit selector. An unknown selector is an
    /// invalid-input condition for the caller; no default kind is
    /// substituted.
    pub fn parse(s: &String) -> (r: Option<CircuitKind>)
        ensures
            r == spec_parse_kind(s@),
    {
        if *s == String::from_str("super") {
            Some(CircuitKind::Super)
        } else if *s == String::from_str("pi") {
            Some(CircuitKind::Pi)
        } else if *s == String::from_str("evm") {
            Some(CircuitKind::Evm)
        } else if *s == String::from_str("state") {
            Some(CircuitKind::State)
        } else if *s == String::from_str("tx") {
            Some(CircuitKind::Tx)
        } else if *s == String::from_str("bytecode") {
            Some(CircuitKind::Bytecode)
        } else if *s == String::from_str("copy") {
            Some(CircuitKind::MemCopy)
        } else if *s == String::from_str("exp") {
            Some(CircuitKind::Exp)
        } else if *s == String::from_str("keccak") {
            Some(CircuitKind::Keccak)
        } else {
            None
        }
    }

    /// The selector naming this kind.
    pub fn name(&self) -> (r: &'static str)
        ensures
            r@ == spec_kind_name(*self),
    {
        match self {
            CircuitKind::Super => "super",
            CircuitKind::Pi => "pi",
            CircuitKind::Evm => "evm",
            CircuitKind::State => "state",
            CircuitKind::Tx => "tx",
            CircuitKind::Bytecode => "bytecode",
            CircuitKind::MemCopy => "copy",
            CircuitKind::Exp => "exp",
            CircuitKind::Keccak => "keccak",
        }
    }
}

/// Expected shape of a kind's public-input vectors: one entry per vector,
/// giving its length. Downstream aggregation and verifier-artifact
/// generation size their transcripts from this.
pub open spec fn spec_num_instance(kind: CircuitKind) -> Seq<usize> {
    match kind {
        CircuitKind::Super => seq![5usize],
        CircuitKind::Pi => seq![5usize],
        _ => Seq::<usize>::empty(),
    }
}

/// Expected public-input shape of a circuit kind.
pub fn num_instance(kind: CircuitKind) -> (r: Vec<usize>)
    ensures
        r@ == spec_num_instance(kind),
{
    let mut v: Vec<usize> = Vec::new();
    match kind {
        CircuitKind::Super => {
            v.push(5);
        },
        CircuitKind::Pi => {
            v.push(5);
        },
        _ => {},
    }
    proof {
        assert(v@ =~= spec_num_instance(kind));
    }
    v
}

/// The resource usage an execution trace asks of the circuits: the raw
/// counts a witness is built from.
#[derive(Clone, Copy, Debug, PartialEq, Eq, Structural)]
pub struct TraceSummary {
    /// Number of transactions in the block.
    pub txs: u64,
    /// Total call-data bytes.
    pub calldata_bytes: u64,
    /// Total bytecode bytes.
    pub bytecode_bytes: u64,
    /// Read/write-set rows.
    pub rw_rows: u64,
    /// Copy rows.
    pub copy_rows: u64,
    /// Exponentiation steps.
    pub exp_steps: u64,
    /// Hashing rows.
    pub keccak_rows: u64,
    /// Gas used by the block; drives tier selection.
    pub gas_used: u64,
}

/// A circuit witness: the trace's resource counts, the bound public-input
/// structure, the capacity tier it was padded to, and the padded row
/// counts. A pure function of trace, instance and tier, so identical inputs
/// always yield an identical witness.
#[derive(Clone, Debug)]
pub struct CircuitWitness {
    /// Raw resource counts of the trace.
    pub trace: TraceSummary,
    /// The bound public inputs.
    pub instance: ProtocolInstance,
    /// The tier whose capacity constants pad this witness.
    pub config: CircuitConfig,
    /// Read/write rows after padding to the tier's target.
    pub padded_rw_rows: u64,
    /// Hashing rows after padding to the tier's target.
    pub padded_keccak_rows: u64,
}

/// Largest of two values, used for padding row counts up to a tier target.
pub open spec fn spec_max_u64(a: u64, b: u64) -> u64 {
    if a >= b {
        a
    } else {
        b
    }
}

/// Builds the padded witness for a trace under a tier.
///
/// Deterministic: the result is a function of the three arguments alone, so
/// identical trace, instance and tier always yield a bit-identical witness.
pub fn build_witness(trace: &TraceSummary, instance: ProtocolInstance, config: &CircuitConfig) -> (
    r: CircuitWitness)
    requires
        config.pad_to <= u64::MAX,
        config.keccak_padding <= u64::MAX,
    ensures
        r.trace == *trace,
        r.instance == instance,
        r.config == *config,
        r.padded_rw_rows == spec_max_u64(trace.rw_rows, config.pad_to as u64),
        r.padded_keccak_rows == spec_max_u64(trace.keccak_rows, config.keccak_padding as u64),
{
    let pad_to = config.pad_to as u64;
    let keccak_padding = config.keccak_padding as u64;
    let padded_rw_rows = if trace.rw_rows >= pad_to {
        trace.rw_rows
    } else {
        pad_to
    };
    let padded_keccak_rows = if trace.keccak_rows >= keccak_padding {
        trace.keccak_rows
    } else {
        keccak_padding
    };
    CircuitWitness {
        trace: *trace,
        instance,
        config: *config,
        padded_rw_rows,
        padded_keccak_rows,
    }
}

/// One capacity constraint a witness can violate, as the exhaustive
/// constraint check reports it.
#[derive(Clone, Copy, Debug, PartialEq, Eq, Structural)]
pub enum ConstraintViolation {
    /// More transactions than the tier accommodates.
    TxCount,
    /// More call-data bytes than the tier accommodates.
    CallData,
    /// More bytecode bytes than the tier accommodates.
    Bytecode,
    /// More read/write rows than the tier accommodates.
    RwRows,
    /// More copy rows than the tier accommodates.
    CopyRows,
    /// More exponentiation steps than the tier accommodates.
    ExpSteps,
    /// More hashing rows than the tier's padding target.
    KeccakRows,
    /// More gas than the tier's ceiling.
    GasUsage,
}

/// A trace fits a tier when every resource count is within the tier's
/// capacity constants.
pub open spec fn witness_fits(trace: TraceSummary, config: CircuitConfig) -> bool {
    &&& trace.txs as int <= config.max_txs as int
    &&& trace.calldata_bytes as int <= config.max_calldata as int
    &&& trace.bytecode_bytes as int <= config.max_bytecode as int
    &&& trace.rw_rows as int <= config.max_rws as int
    &&& trace.copy_rows as int <= config.max_copy_rows as int
    &&& trace.exp_steps as int <= config.max_exp_steps as int
    &&& trace.keccak_rows as int <= config.keccak_padding as int
    &&& trace.gas_used as int <= config.block_gas_limit as int
}

/// A report segment: one violation when its condition holds, else nothing.
pub open spec fn violation_when(cond: bool, c: ConstraintViolation) -> Seq<ConstraintViolation> {
    if cond {
        seq![c]
    } else {
        Seq::<ConstraintViolation>::empty()
    }
}

/// The violations the exhaustive check reports for a witness, in a fixed
/// order.
pub open spec fn spec_violations(trace: TraceSummary, config: CircuitConfig) -> Seq<
    ConstraintViolation,
> {
    violation_when(trace.txs as int > config.max_txs as int, ConstraintViolation::TxCount)
        + violation_when(
        trace.calldata_bytes as int > config.max_calldata as int,
        ConstraintViolation::CallData,
    ) + violation_when(
        trace.bytecode_bytes as int > config.max_bytecode as int,
        ConstraintViolation::Bytecode,
    ) + violation_when(trace.rw_rows as int > config.max_rws as int, ConstraintViolation::RwRows)
        + violation_when(
        trace.copy_rows as int > config.max_copy_rows as int,
        ConstraintViolation::CopyRows,
    ) + violation_when(
        trace.exp_steps as int > config.max_exp_steps as int,
        ConstraintViolation::ExpSteps,
    ) + violation_when(
        trace.keccak_rows as int > config.keccak_padding as int,
        ConstraintViolation::KeccakRows,
    ) + violation_when(
        trace.gas_used as int > config.block_gas_limit as int,
        ConstraintViolation::GasUsage,
    )
}

/// Runs the exhaustive constraint-satisfaction check of mock mode over a
/// witness.
///
/// Succeeds exactly when the witness fits its tier; otherwise it reports
/// every violated capacity constraint, so a deliberately corrupted witness
/// is always flagged.
#[verifier::rlimit(100)]
pub fn mock_verify(w: &CircuitWitness) -> (r: Result<(), Vec<ConstraintViolation>>)
    ensures
        r is Ok <==> witness_fits(w.trace, w.config),
        r matches Err(v) ==> v@ == spec_violations(w.trace, w.config) && v@.len() > 0,
{
    let t = w.trace;
    let c = w.config;
    let ghost s1 = violation_when(t.txs as int > c.max_txs as int, ConstraintViolation::TxCount);
    let ghost s2 = s1 + violation_when(
        t.calldata_bytes as int > c.max_calldata as int,
        ConstraintViolation::CallData,
    );
    let ghost s3 = s2 + violation_when(
        t.bytecode_bytes as int > c.max_bytecode as int,
        ConstraintViolation::Bytecode,
    );
    let ghost s4 = s3 + violation_when(
        t.rw_rows as int > c.max_rws as int,
        ConstraintViolation::RwRows,
    );
    let ghost s5 = s4 + violation_when(
        t.copy_rows as int > c.max_copy_rows as int,
        ConstraintViolation::CopyRows,
    );
    let ghost s6 = s5 + violation_when(
        t.exp_steps as int > c.max_exp_steps as int,
        ConstraintViolation::ExpSteps,
    );
    let ghost s7 = s6 + violation_when(
        t.keccak_rows as int > c.keccak_padding as int,
        ConstraintViolation::KeccakRows,
    );
    let ghost s8 = s7 + violation_when(
        t.gas_used as int > c.block_gas_limit as int,
        ConstraintViolation::GasUsage,
    );
    let mut v: Vec<ConstraintViolation> = Vec::new();
    if t.txs > c.max_txs as u64 {
        v.push(ConstraintViolation::TxCount);
    }
    proof {
        assert(v@ =~= s1);
    }
    if t.calldata_bytes > c.max_calldata as u64 {
        v.push(ConstraintViolation::CallData);
    }
    proof {
        assert(v@ =~= s2);
    }
    if t.bytecode_bytes > c.max_bytecode as u64 {
        v.push(ConstraintViolation::Bytecode);
    }
    proof {
        assert(v@ =~= s3);
    }
    if t.rw_rows > c.max_rws as u64 {
        v.push(ConstraintViolation::RwRows);
    }
    proof {
        assert(v@ =~= s4);
    }
    if t.copy_rows > c.max_copy_rows as u64 {
        v.push(ConstraintViolation::CopyRows);
    }
    proof {
        assert(v@ =~= s5);
    }
    if t.exp_steps > c.max_exp_steps as u64 {
        v.push(ConstraintViolation::ExpSteps);
    }
    proof {
        assert(v@ =~= s6);
    }
    if t.keccak_rows > c.keccak_padding as u64 {
        v.push(ConstraintViolation::KeccakRows);
    }
    proof {
        assert(v@ =~= s7);
    }
    if t.gas_used > c.block_gas_limit as u64 {
        v.push(ConstraintViolation::GasUsage);
    }
    proof {
        assert(v@ =~= s8);
        assert(spec_violations(t, c) == s8);
        assert(witness_fits(t, c) ==> v@.len() == 0);
        assert(v@.len() == 0 ==> witness_fits(t, c));
    }
    if v.len() == 0 {
        Ok(())
    } else {
        Err(v)
    }
}

/// The scalar projection of the public inputs a built circuit exposes, for
/// the kinds that expose any: block number, timestamp, anchor height, gas
/// limit, and the block's gas usage.
pub open spec fn spec_instance_scalars(w: CircuitWitness) -> Seq<u64> {
    seq![
        w.instance.block_evidence.block_metadata.id,
        w.instance.block_evidence.block_metadata.timestamp,
        w.instance.block_evidence.block_metadata.l1_height,
        w.instance.block_evidence.block_metadata.gas_limit as u64,
        w.trace.gas_used,
    ]
}

/// The circuit size exponent a tier asks for, clamped to the width of the
/// result's `k` field.
pub open spec fn spec_k(config: CircuitConfig) -> u8 {
    if config.min_k as int > u8::MAX as int {
        u8::MAX
    } else {
        config.min_k as u8
    }
}

/// The label of a built circuit: its kind's selector and the tier's gas
/// ceiling.
pub open spec fn spec_label(kind: CircuitKind, config: CircuitConfig) -> Seq<char> {
    spec_kind_name(kind) + "-"@ + decimal_chars(config.block_gas_limit as u64 as nat)
}

/// Renders the label of a circuit kind under a tier.
pub fn make_label(kind: CircuitKind, config: &CircuitConfig) -> (r: String)
    ensures
        r@ == spec_label(kind, *config),
{
    let mut label = String::from_str(kind.name());
    label.append("-");
    let ceiling = u64_to_decimal(config.block_gas_limit as u64);
    label.append(ceiling.as_str());
    proof {
        assert(label@ =~= spec_label(kind, *config));
    }
    label
}

/// A built circuit: the variant, the witness it was instantiated from, its
/// size exponent, its public-input vectors, and its label.
#[derive(Clone, Debug)]
pub struct BuiltCircuit {
    /// Which variant was built.
    pub kind: CircuitKind,
    /// The sub-circuits instantiated from the witness: all of them for the
    /// composite kind, the kind itself otherwise.
    pub subcircuits: Vec<CircuitKind>,
    /// The witness the circuit was instantiated from.
    pub witness: CircuitWitness,
    /// Circuit size exponent.
    pub k: u8,
    /// Public-input vectors, field elements as scalars.
    pub instances: Vec<Vec<u64>>,
    /// Label naming kind and tier.
    pub label: String,
}

impl BuiltCircuit {
    /// The public-input vectors this circuit exposes.
    pub fn instances(&self) -> (r: &Vec<Vec<u64>>)
        ensures
            r == &self.instances,
    {
        &self.instances
    }

    /// A built circuit's instances match the expected shape of its kind.
    pub open spec fn instances_well_shaped(self) -> bool {
        &&& self.instances@.len() == spec_num_instance(self.kind).len()
        &&& forall|i: int|
            0 <= i < self.instances@.len() ==> (#[trigger] self.instances@[i])@.len()
                == spec_num_instance(self.kind)[i]
    }
}

/// The sub-circuits the composite circuit instantiates, each from the same
/// witness, in construction order. A single-purpose kind builds itself
/// alone.
pub open spec fn spec_subcircuits(kind: CircuitKind) -> Seq<CircuitKind> {
    match kind {
        CircuitKind::Super => seq![
            CircuitKind::Evm,
            CircuitKind::State,
            CircuitKind::Tx,
            CircuitKind::Pi,
            CircuitKind::Bytecode,
            CircuitKind::MemCopy,
            CircuitKind::Exp,
            CircuitKind::Keccak,
        ],
        _ => seq![kind],
    }
}

/// The size exponent of the outer aggregation circuit under a tier,
/// clamped to the width of the result's `k` field. It is at least the
/// tier's aggregation minimum, independent of the inner circuit's size.
pub open spec fn spec_aggregation_k(config: CircuitConfig) -> u8 {
    if config.min_k_aggregation as int > u8::MAX as int {
        u8::MAX
    } else {
        config.min_k_aggregation as u8
    }
}

/// The outer circuit that compresses an inner proof: its witness is the
/// inner proof and the inner public inputs, and its size comes from the
/// tier's separate aggregation exponent — never from the inner circuit —
/// which is what keeps the outer proof's size and verification cost
/// independent of the inner circuit's complexity.
#[derive(Clone, Debug)]
pub struct AggregationCircuit {
    /// The inner result being compressed; proof and instances are the
    /// outer circuit's witness.
    pub inner: ProofResult,
    /// Size exponent of the outer circuit.
    pub k: u8,
    /// Label naming the aggregated kind and tier.
    pub label: String,
}

/// Builds the outer aggregation circuit over an inner result.
pub fn build_aggregation_circuit(
    kind: CircuitKind,
    inner: ProofResult,
    config: &CircuitConfig,
) -> (r: AggregationCircuit)
    ensures
        r.inner == inner,
        r.k == spec_aggregation_k(*config),
        r.label@ == spec_label(kind, *config) + "-agg"@,
{
    let k = if config.min_k_aggregation > 255 {
        255u8
    } else {
        config.min_k_aggregation as u8
    };
    let mut label = make_label(kind, config);
    label.append("-agg");
    AggregationCircuit { inner, k, label }
}

/// Instantiates one circuit variant from a witness.
///
/// Building is a deterministic pure function of the variant, the witness
/// and its tier: no clock and no ambient randomness is read. Every variant
/// exposes public-input vectors of exactly the shape `num_instance`
/// announces for it, and the kinds that expose one carry the witness's
/// scalar projection.
pub fn build_circuit(kind: CircuitKind, w: CircuitWitness) -> (r: BuiltCircuit)
    ensures
        r.kind == kind,
        r.subcircuits@ == spec_subcircuits(kind),
        r.witness == w,
        r.k == spec_k(w.config),
        r.label@ == spec_label(kind, w.config),
        r.instances_well_shaped(),
        spec_num_instance(kind).len() == 1 ==> r.instances@[0]@ == spec_instance_scalars(w),
{
    let k = if w.config.min_k > 255 {
        255u8
    } else {
        w.config.min_k as u8
    };
    let label = make_label(kind, &w.config);
    let mut subcircuits: Vec<CircuitKind> = Vec::new();
    match kind {
        CircuitKind::Super => {
            subcircuits.push(CircuitKind::Evm);
            subcircuits.push(CircuitKind::State);
            subcircuits.push(CircuitKind::Tx);
            subcircuits.push(CircuitKind::Pi);
            subcircuits.push(CircuitKind::Bytecode);
            subcircuits.push(CircuitKind::MemCopy);
            subcircuits.push(CircuitKind::Exp);
            subcircuits.push(CircuitKind::Keccak);
        },
        _ => {
            subcircuits.push(kind);
        },
    }
    proof {
        assert(subcircuits@ =~= spec_subcircuits(kind));
    }
    let mut instances: Vec<Vec<u64>> = Vec::new();
    match kind {
        CircuitKind::Super | CircuitKind::Pi => {
            let mut scalars: Vec<u64> = Vec::new();
            scalars.push(w.instance.block_evidence.block_metadata.id);
            scalars.push(w.instance.block_evidence.block_metadata.timestamp);
            scalars.push(w.instance.block_evidence.block_metadata.l1_height);
            scalars.push(w.instance.block_evidence.block_metadata.gas_limit as u64);
            scalars.push(w.trace.gas_used);
            proof {
                assert(scalars@ =~= spec_instance_scalars(w));
            }
            instances.push(scalars);
        },
        _ => {},
    }
    let r = BuiltCircuit { kind, subcircuits, witness: w, k, instances, label };
    proof {
        assert(r.instances_well_shaped());
    }
    r
}

} // verus!
