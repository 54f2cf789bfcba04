use vstd::prelude::*;
use crate::circuits::{
    build_circuit, build_witness, mock_verify, spec_instance_scalars, spec_k, spec_label,
    spec_parse_kind, witness_fits, CircuitKind, TraceSummary,
};
use crate::codec::{decimal_chars, u64_to_decimal};
use crate::config::{select_circuit_config, spec_select_config, CircuitConfig};
use crate::error::ProofError;
use crate::instance::{request_decodes, ProtocolInstance};
use crate::proofs::{ProofResult, ProofResultInstrumentation, Proofs};
use crate::request::{ProofRequest, ProofRequestOptions};

verus! {

/// The stages of the real proving path, in their only legal order: setup,
/// the two key generations, proof creation, then — as the request's flags
/// ask — self-verification, the diagnostic constraint check, and the
/// aggregation stages, which repeat setup, key generation and proving
/// against the outer circuit.
///
/// The stages themselves run outside this library, against the proving
/// engine; the transition function below is the part that decides which
/// stage may run next, and it is total over stage and outcome.
#[derive(Clone, Copy, Debug, PartialEq, Eq, Structural)]
pub enum Stage {
    /// Obtain (or load) parameters sized to the circuit's exponent.
    Setup,
    /// Generate the verification key.
    KeygenVk,
    /// Generate the proving key.
    KeygenPk,
    /// Create the proof.
    Prove,
    /// Verify the freshly created proof against its own inputs.
    SelfVerify,
    /// Re-run the exhaustive constraint check to diagnose a failure.
    MockDiagnostic,
    /// Obtain parameters for the aggregation circuit.
    AggSetup,
    /// Generate the aggregation verification key.
    AggKeygenVk,
    /// Generate the aggregation proving key.
    AggKeygenPk,
    /// Create the aggregation proof.
    AggProve,
    /// The task succeeded as one unit.
    Complete,
    /// The task failed; its result is an error.
    Failed,
}

/// The stage that runs after `s` finished with outcome `ok`, under the
/// request's execution-mode flags.
pub open spec fn spec_next_stage(opts: ProofRequestOptions, s: Stage, ok: bool) -> Stage {
    match s {
        Stage::Setup => if ok {
            Stage::KeygenVk
        } else {
            Stage::Failed
        },
        Stage::KeygenVk => if ok {
            Stage::KeygenPk
        } else {
            Stage::Failed
        },
        Stage::KeygenPk => if ok {
            Stage::Prove
        } else {
            Stage::Failed
        },
        Stage::Prove => if ok {
            if opts.verify_proof {
                Stage::SelfVerify
            } else if opts.aggregate {
                Stage::AggSetup
            } else {
                Stage::Complete
            }
        } else if opts.mock_feedback {
            Stage::MockDiagnostic
        } else {
            Stage::Failed
        },
        Stage::SelfVerify => if ok {
            if opts.aggregate {
                Stage::AggSetup
            } else {
                Stage::Complete
            }
        } else if opts.mock_feedback {
            Stage::MockDiagnostic
        } else {
            Stage::Failed
        },
        Stage::MockDiagnostic => Stage::Failed,
        Stage::AggSetup => if ok {
            Stage::AggKeygenVk
        } else {
            Stage::Failed
        },
        Stage::AggKeygenVk => if ok {
            Stage::AggKeygenPk
        } else {
            Stage::Failed
        },
        Stage::AggKeygenPk => if ok {
            Stage::AggProve
        } else {
            Stage::Failed
        },
        Stage::AggProve => if ok {
            Stage::Complete
        } else {
            Stage::Failed
        },
        Stage::Complete => Stage::Complete,
        Stage::Failed => Stage::Failed,
    }
}

/// Decides the stage that runs next, from the finished stage and its
/// outcome alone. A driver performs each stage against the proving engine
/// and feeds the outcome back here; it never chooses an order itself.
pub fn next_stage(opts: &ProofRequestOptions, s: Stage, ok: bool) -> (r: Stage)
    ensures
        r == spec_next_stage(*opts, s, ok),
{
    match s {
        Stage::Setup => if ok {
            Stage::KeygenVk
        } else {
            Stage::Failed
        },
        Stage::KeygenVk => if ok {
            Stage::KeygenPk
        } else {
            Stage::Failed
        },
        Stage::KeygenPk => if ok {
            Stage::Prove
        } else {
            Stage::Failed
        },
        Stage::Prove => if ok {
            if opts.verify_proof {
                Stage::SelfVerify
            } else if opts.aggregate {
                Stage::AggSetup
            } else {
                Stage::Complete
            }
        } else if opts.mock_feedback {
            Stage::MockDiagnostic
        } else {
            Stage::Failed
        },
        Stage::SelfVerify => if ok {
            if opts.aggregate {
                Stage::AggSetup
            } else {
                Stage::Complete
            }
        } else if opts.mock_feedback {
            Stage::MockDiagnostic
        } else {
            Stage::Failed
        },
        Stage::MockDiagnostic => Stage::Failed,
        Stage::AggSetup => if ok {
            Stage::AggKeygenVk
        } else {
            Stage::Failed
        },
        Stage::AggKeygenVk => if ok {
            Stage::AggKeygenPk
        } else {
            Stage::Failed
        },
        Stage::AggKeygenPk => if ok {
            Stage::AggProve
        } else {
            Stage::Failed
        },
        Stage::AggProve => if ok {
            Stage::Complete
        } else {
            Stage::Failed
        },
        Stage::Complete => Stage::Complete,
        Stage::Failed => Stage::Failed,
    }
}

/// A failed stage short-circuits the pipeline: nothing runs after it except
/// — when the request asked for diagnostics after proof creation or
/// self-verification — the constraint check, which then still surfaces the
/// failure. In particular a failed aggregation sub-stage never completes the
/// task: the result is one unit, not a partial success.
pub proof fn lemma_failure_short_circuits(opts: ProofRequestOptions, s: Stage)
    requires
        !(s is Complete),
    ensures
        spec_next_stage(opts, s, false) is Failed || (spec_next_stage(opts, s, false)
            is MockDiagnostic && opts.mock_feedback && (s is Prove || s is SelfVerify)),
        spec_next_stage(opts, Stage::MockDiagnostic, true) is Failed,
        spec_next_stage(opts, Stage::MockDiagnostic, false) is Failed,
{
}

/// The aggregation path is entered only when the request asked for it, and
/// only from a successful proof creation or self-verification.
pub proof fn lemma_aggregation_only_when_requested(opts: ProofRequestOptions, s: Stage, ok: bool)
    requires
        !(s is AggSetup),
        spec_next_stage(opts, s, ok) is AggSetup,
    ensures
        opts.aggregate,
        ok,
        s is Prove || s is SelfVerify,
{
}

/// The terminal stages absorb every outcome: a finished task never moves
/// again.
pub proof fn lemma_terminal_stages_absorb(opts: ProofRequestOptions, ok: bool)
    ensures
        spec_next_stage(opts, Stage::Complete, ok) is Complete,
        spec_next_stage(opts, Stage::Failed, ok) is Failed,
{
}

/// The error class a failure at a proving stage surfaces: parameter setup
/// is an infrastructure failure, key generation and proof creation are
/// engine failures, a failed self-verification is its own class — it means
/// a builder or witness inconsistency, not an input problem — and any
/// aggregation sub-stage failure discards the whole task under the
/// aggregation class.
pub open spec fn spec_stage_error(s: Stage) -> ProofError {
    match s {
        Stage::Setup => ProofError::Infrastructure,
        Stage::KeygenVk => ProofError::Engine,
        Stage::KeygenPk => ProofError::Engine,
        Stage::Prove => ProofError::Engine,
        Stage::SelfVerify => ProofError::SelfVerification,
        Stage::AggSetup => ProofError::Aggregation,
        Stage::AggKeygenVk => ProofError::Aggregation,
        Stage::AggKeygenPk => ProofError::Aggregation,
        Stage::AggProve => ProofError::Aggregation,
        _ => ProofError::Engine,
    }
}

/// Classifies a stage's failure. The diagnostic stage is excluded: it never
/// contributes a class of its own, the originally failing stage's error is
/// what the task surfaces.
pub fn stage_error(s: Stage) -> (r: ProofError)
    requires
        !(s is MockDiagnostic),
        !(s is Complete),
        !(s is Failed),
    ensures
        r == spec_stage_error(s),
{
    match s {
        Stage::Setup => ProofError::Infrastructure,
        Stage::KeygenVk => ProofError::Engine,
        Stage::KeygenPk => ProofError::Engine,
        Stage::Prove => ProofError::Engine,
        Stage::SelfVerify => ProofError::SelfVerification,
        Stage::AggSetup => ProofError::Aggregation,
        Stage::AggKeygenVk => ProofError::Aggregation,
        Stage::AggKeygenPk => ProofError::Aggregation,
        Stage::AggProve => ProofError::Aggregation,
        _ => ProofError::Engine,
    }
}

/// Byte-for-byte equality of two opaque byte strings.
fn bytes_equal(a: &Vec<u8>, b: &Vec<u8>) -> (r: bool)
    ensures
        r == (a@ == b@),
{
    if a.len() != b.len() {
        return false;
    }
    let n = a.len();
    let mut i: usize = 0;
    while i < n
        invariant
            n == a@.len(),
            n == b@.len(),
            i <= n,
            forall|j: int| 0 <= j < i ==> a@[j] == b@[j],
        decreases n - i,
    {
        if a[i] != b[i] {
            return false;
        }
        i += 1;
    }
    proof {
        assert(a@ =~= b@);
    }
    true
}

/// Guards the freshness of proof randomness: outside mock mode, reusing the
/// previous proof's randomness for a new proof is a soundness and privacy
/// violation, treated as a configuration error before proving starts. An
/// empty previous value means no proof was created yet, so there is nothing
/// to reuse.
pub fn check_randomness(mock: bool, previous: &Vec<u8>, fresh: &Vec<u8>) -> (r: Result<
    (),
    ProofError,
>)
    ensures
        r is Ok <==> (mock || previous@.len() == 0 || fresh@ != previous@),
        r matches Err(e) ==> e == ProofError::InvalidInput,
{
    if mock {
        return Ok(());
    }
    if previous.len() == 0 {
        return Ok(());
    }
    if bytes_equal(previous, fresh) {
        Err(ProofError::InvalidInput)
    } else {
        Ok(())
    }
}

/// Whether a mock-mode run of the pipeline succeeds: the circuit selector
/// resolves, a tier covers the gas usage, the request's evidence decodes,
/// and the witness satisfies the tier's constraints.
pub open spec fn spec_mock_ok(
    options: ProofRequestOptions,
    trace: TraceSummary,
    tiers: Seq<CircuitConfig>,
) -> bool {
    &&& spec_parse_kind(options.circuit@) is Some
    &&& spec_select_config(tiers, trace.gas_used) is Some
    &&& request_decodes(options.protocol_instance)
    &&& witness_fits(trace, spec_select_config(tiers, trace.gas_used)->Some_0)
}

/// The error class of a failed mock-mode run: the stages run in order —
/// dispatch, capacity planning, binding, constraint check — and the first
/// failing stage decides the class.
pub open spec fn spec_mock_error(
    options: ProofRequestOptions,
    trace: TraceSummary,
    tiers: Seq<CircuitConfig>,
) -> ProofError {
    if spec_parse_kind(options.circuit@) is None {
        ProofError::InvalidInput
    } else if spec_select_config(tiers, trace.gas_used) is None {
        ProofError::CapacityExhausted
    } else if !request_decodes(options.protocol_instance) {
        ProofError::InvalidInput
    } else {
        ProofError::Engine
    }
}

/// The scalars whose decimal renderings a successful mock run reports as
/// public inputs, for the kinds that expose a public-input vector.
pub open spec fn spec_mock_scalars(options: ProofRequestOptions, trace: TraceSummary) -> Seq<u64> {
    seq![
        options.protocol_instance.meta_data.id,
        options.protocol_instance.meta_data.timestamp,
        options.protocol_instance.meta_data.l1_height,
        options.protocol_instance.meta_data.gas_limit as u64,
        trace.gas_used,
    ]
}

/// How many public-input strings a successful run reports for a kind.
pub open spec fn spec_instance_string_count(kind: CircuitKind) -> nat {
    match kind {
        CircuitKind::Super => 5,
        CircuitKind::Pi => 5,
        _ => 0,
    }
}

/// What a successful mock run's `Proofs` value holds: the selected tier,
/// the gas usage that selected it, an empty aggregation result, and a
/// base-circuit result with no proof bytes, no randomness, the tier's size
/// exponent, the kind-and-tier label, and the decimal public-input strings.
pub open spec fn spec_mock_proofs(
    p: Proofs,
    options: ProofRequestOptions,
    trace: TraceSummary,
    tiers: Seq<CircuitConfig>,
) -> bool {
    let kind = spec_parse_kind(options.circuit@)->Some_0;
    &&& p.config == spec_select_config(tiers, trace.gas_used)->Some_0
    &&& p.gas == trace.gas_used
    &&& p.aggregation.is_empty()
    &&& p.circuit.proof@.len() == 0
    &&& p.circuit.randomness@.len() == 0
    &&& p.circuit.k == spec_k(p.config)
    &&& p.circuit.label@ == spec_label(kind, p.config)
    &&& p.circuit.aux == ProofResultInstrumentation::spec_default()
    &&& p.circuit.instance@.len() == spec_instance_string_count(kind)
    &&& forall|i: int|
        0 <= i < p.circuit.instance@.len() ==> (#[trigger] p.circuit.instance@[i])@
            == decimal_chars(spec_mock_scalars(options, trace)[i] as nat)
}

/// Runs the whole pipeline in mock-only mode: dispatch, capacity planning,
/// public-input binding, witness construction, circuit construction, and
/// the exhaustive constraint check in place of proof creation.
///
/// No proof bytes and no randomness are ever produced; the aggregation
/// result stays empty whatever the request's flags say. The stages run in
/// the pipeline's order and the first failure decides the error class, so a
/// malformed request fails at binding before any circuit is built.
pub fn run_mock_pipeline(
    options: &ProofRequestOptions,
    trace: &TraceSummary,
    tiers: &Vec<CircuitConfig>,
) -> (r: Result<Proofs, ProofError>)
    requires
        options.mock,
    ensures
        r is Ok <==> spec_mock_ok(*options, *trace, tiers@),
        r matches Err(e) ==> e == spec_mock_error(*options, *trace, tiers@),
        r matches Ok(p) ==> spec_mock_proofs(p, *options, *trace, tiers@),
{
    let kind = match CircuitKind::parse(&options.circuit) {
        Some(k) => k,
        None => { return Err(ProofError::InvalidInput); },
    };
    let config = match select_circuit_config(trace.gas_used, tiers) {
        Ok(c) => c,
        Err(e) => { return Err(e); },
    };
    let instance = match ProtocolInstance::from_request(&options.protocol_instance) {
        Ok(p) => p,
        Err(e) => { return Err(e); },
    };
    let witness = build_witness(trace, instance, &config);
    let built = build_circuit(kind, witness);
    match mock_verify(&built.witness) {
        Ok(_) => {
            let mut strings: Vec<String> = Vec::new();
            if built.instances.len() == 1 {
                let n = built.instances[0].len();
                let mut j: usize = 0;
                while j < n
                    invariant
                        n == built.instances@[0]@.len(),
                        built.instances@.len() == 1,
                        j <= n,
                        strings@.len() == j,
                        forall|t: int|
                            0 <= t < j ==> (#[trigger] strings@[t])@ == decimal_chars(
                                built.instances@[0]@[t] as nat,
                            ),
                    decreases n - j,
                {
                    let s = u64_to_decimal(built.instances[0][j]);
                    strings.push(s);
                    j += 1;
                }
            }
            let circuit = ProofResult {
                proof: Vec::new(),
                instance: strings,
                k: built.k,
                randomness: Vec::new(),
                label: built.label,
                aux: ProofResultInstrumentation::default(),
            };
            let p = Proofs {
                config,
                circuit,
                aggregation: ProofResult::default(),
                gas: trace.gas_used,
            };
            proof {
                assert(spec_instance_scalars(built.witness) =~= spec_mock_scalars(
                    *options,
                    *trace,
                ));
                assert(spec_mock_proofs(p, *options, *trace, tiers@));
            }
            Ok(p)
        },
        Err(_) => Err(ProofError::Engine),
    }
}

/// Assembles a task's outcome as one unit.
///
/// When the request asked for aggregation, a missing outer proof makes the
/// whole task an aggregation failure: the base-circuit result is never
/// reported as a standalone success. Without aggregation the outer slot
/// keeps its empty default.
pub fn assemble_task_result(
    aggregate: bool,
    config: CircuitConfig,
    gas: u64,
    base: ProofResult,
    aggregation: Option<ProofResult>,
) -> (r: Result<Proofs, ProofError>)
    ensures
        r is Ok <==> (aggregate ==> aggregation is Some),
        r matches Err(e) ==> e == ProofError::Aggregation,
        r matches Ok(p) ==> {
            &&& p.config == config
            &&& p.gas == gas
            &&& p.circuit == base
            &&& aggregate ==> p.aggregation == aggregation->Some_0
            &&& !aggregate ==> p.aggregation.is_empty()
        },
{
    if aggregate {
        match aggregation {
            Some(outer) => Ok(Proofs { config, circuit: base, aggregation: outer, gas }),
            None => Err(ProofError::Aggregation),
        }
    } else {
        Ok(Proofs { config, circuit: base, aggregation: ProofResult::default(), gas })
    }
}

/// Computes a mock-mode task and attaches the outcome to the request: the
/// `Proofs` value on success, the failing class's message otherwise, with
/// the edition moved up by exactly one either way.
pub fn process_mock_request(
    req: &mut ProofRequest,
    trace: &TraceSummary,
    tiers: &Vec<CircuitConfig>,
)
    requires
        old(req).options.mock,
        old(req).edition < u64::MAX,
    ensures
        final(req).options == old(req).options,
        final(req).edition == old(req).edition + 1,
        final(req).result is Some,
        final(req).result->Some_0 is Ok <==> spec_mock_ok(old(req).options, *trace, tiers@),
        final(req).result->Some_0 matches Ok(p) ==> spec_mock_proofs(
            p,
            old(req).options,
            *trace,
            tiers@,
        ),
        final(req).result->Some_0 matches Err(m) ==> m@ == spec_mock_error(
            old(req).options,
            *trace,
            tiers@,
        ).spec_message(),
{
    let outcome = run_mock_pipeline(&req.options, trace, tiers);
    match outcome {
        Ok(p) => {
            req.set_result(Ok(p));
        },
        Err(e) => {
            req.set_error(e);
        },
    }
}

} // verus!
