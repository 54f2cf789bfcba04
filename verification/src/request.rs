use vstd::prelude::*;
use crate::error::ProofError;
use crate::instance::{extra_instance_eq, RequestExtraInstance};
use crate::proofs::Proofs;

verus! {

/// The identity and execution mode of a proving task.
///
/// Task identity is the curated subset of fields compared by equality:
/// circuit kind, block number, data-source endpoint, protocol-instance
/// evidence, parameter location, and the mock and aggregate flags. The
/// diagnostic flags — `mock_feedback`, `verify_proof` — and the `retry` flag
/// never affect identity: two requests differing only there are the same
/// underlying work.
#[derive(Clone, Debug)]
pub struct ProofRequestOptions {
    /// Which circuit kind to prove.
    pub circuit: String,
    /// The block number to prove.
    pub block: u64,
    /// The data-source endpoint the witness is fetched from.
    pub rpc: String,
    /// The untrusted block evidence to bind into public inputs.
    pub protocol_instance: RequestExtraInstance,
    /// Retry the computation on a transient error.
    pub retry: bool,
    /// Externally supplied parameter location; fresh setup when absent.
    pub param: Option<String>,
    /// Run only the exhaustive constraint check, creating no proof.
    pub mock: bool,
    /// Additionally compress the proof through the aggregation circuit.
    pub aggregate: bool,
    /// On a proving failure, run the constraint check for diagnostics.
    pub mock_feedback: bool,
    /// Verify the proof right after creating it.
    pub verify_proof: bool,
}

/// Equality of the optional parameter location.
pub open spec fn param_eq(a: Option<String>, b: Option<String>) -> bool {
    match (a, b) {
        (Option::None, Option::None) => true,
        (Option::Some(x), Option::Some(y)) => x@ == y@,
        _ => false,
    }
}

/// Task identity: the equality relation under which two requests are the
/// same unit of proving work for caching and deduplication.
pub open spec fn task_identity_eq(a: ProofRequestOptions, b: ProofRequestOptions) -> bool {
    &&& a.block == b.block
    &&& extra_instance_eq(a.protocol_instance, b.protocol_instance)
    &&& a.rpc@ == b.rpc@
    &&& param_eq(a.param, b.param)
    &&& a.circuit@ == b.circuit@
    &&& a.mock == b.mock
    &&& a.aggregate == b.aggregate
}

impl PartialEq for ProofRequestOptions {
    fn eq(&self, other: &Self) -> (r: bool) {
        let p = match (&self.param, &other.param) {
            (Option::None, Option::None) => true,
            (Option::Some(x), Option::Some(y)) => *x == *y,
            _ => false,
        };
        self.block == other.block && self.protocol_instance == other.protocol_instance && self.rpc
            == other.rpc && p && self.circuit == other.circuit && self.mock == other.mock
            && self.aggregate == other.aggregate
    }
}

impl vstd::std_specs::cmp::PartialEqSpecImpl for ProofRequestOptions {
    open spec fn obeys_eq_spec() -> bool {
        true
    }

    open spec fn eq_spec(&self, other: &Self) -> bool {
        task_identity_eq(*self, *other)
    }
}

/// Two requests whose task-identity fields agree are equal, whatever their
/// `mock_feedback`, `verify_proof` and `retry` flags say.
pub proof fn lemma_identity_ignores_mode_flags(a: ProofRequestOptions, b: ProofRequestOptions)
    requires
        a.block == b.block,
        extra_instance_eq(a.protocol_instance, b.protocol_instance),
        a.rpc@ == b.rpc@,
        param_eq(a.param, b.param),
        a.circuit@ == b.circuit@,
        a.mock == b.mock,
        a.aggregate == b.aggregate,
    ensures
        task_identity_eq(a, b),
{
}

/// Equal tasks agree on every task-identity field: changing any of them
/// breaks equality.
pub proof fn lemma_identity_determines_fields(a: ProofRequestOptions, b: ProofRequestOptions)
    requires
        task_identity_eq(a, b),
    ensures
        a.block == b.block,
        extra_instance_eq(a.protocol_instance, b.protocol_instance),
        a.rpc@ == b.rpc@,
        param_eq(a.param, b.param),
        a.circuit@ == b.circuit@,
        a.mock == b.mock,
        a.aggregate == b.aggregate,
{
}

/// A proof task: its options, its result — absent while pending, then
/// `Ok(Proofs)` or a descriptive error message — and a monotonically
/// increasing edition counter.
///
/// The edition exists purely so a polling consumer can detect a fresh
/// result without comparing full payloads: it moves up by exactly one on
/// every transition of `result`, a retried failure included.
#[derive(Clone, Debug)]
pub struct ProofRequest {
    /// The task's identity and execution mode.
    pub options: ProofRequestOptions,
    /// The task's outcome, once one was computed.
    pub result: Option<Result<Proofs, String>>,
    /// Counter of `result` transitions.
    pub edition: u64,
}

impl ProofRequest {
    /// A freshly submitted task: no result yet, edition zero.
    pub fn new(options: ProofRequestOptions) -> (r: ProofRequest)
        ensures
            r.options == options,
            r.result is None,
            r.edition == 0,
    {
        ProofRequest { options, result: None, edition: 0 }
    }

    /// Attaches a computed outcome, moving the edition up by exactly one.
    ///
    /// Every call is one transition of `result`; a failure replacing an
    /// earlier failure counts like any other.
    pub fn set_result(&mut self, result: Result<Proofs, String>)
        requires
            old(self).edition < u64::MAX,
        ensures
            final(self).options == old(self).options,
            final(self).result == Some(result),
            final(self).edition == old(self).edition + 1,
    {
        self.result = Some(result);
        self.edition = self.edition + 1;
    }

    /// Attaches a failure under the library's error taxonomy, carrying the
    /// class's message.
    pub fn set_error(&mut self, err: ProofError)
        requires
            old(self).edition < u64::MAX,
        ensures
            final(self).options == old(self).options,
            final(self).edition == old(self).edition + 1,
            final(self).result matches Some(r) && r matches Err(m) && m@ == err.spec_message(),
    {
        let message = err.message();
        self.set_result(Err(message));
    }
}

/// A task list holds at most one task per identity: no two of its entries
/// are the same unit of work.
pub open spec fn tasks_deduped(tasks: Seq<ProofRequest>) -> bool {
    forall|i: int, j: int|
        0 <= i < j < tasks.len() ==> !task_identity_eq(
            (#[trigger] tasks[i]).options,
            (#[trigger] tasks[j]).options,
        )
}

/// Looks a task up by identity: the first entry equal to the given options,
/// if any.
pub fn find_task(tasks: &Vec<ProofRequest>, options: &ProofRequestOptions) -> (r: Option<usize>)
    ensures
        r matches Some(i) ==> i < tasks@.len() && task_identity_eq(
            tasks@[i as int].options,
            *options,
        ) && (forall|j: int|
            0 <= j < i ==> !task_identity_eq((#[trigger] tasks@[j]).options, *options)),
        r is None ==> forall|i: int|
            0 <= i < tasks@.len() ==> !task_identity_eq((#[trigger] tasks@[i]).options, *options),
{
    let n = tasks.len();
    let mut i: usize = 0;
    while i < n
        invariant
            n == tasks@.len(),
            i <= n,
            forall|j: int| 0 <= j < i ==> !task_identity_eq((#[trigger] tasks@[j]).options, *options),
        decreases n - i,
    {
        if tasks[i].options == *options {
            return Some(i);
        }
        i += 1;
    }
    None
}

/// Hands out the task for the given options: the existing entry when an
/// identity-equal task is already held — so equal requests share one
/// computation and observe the same eventual result — or a fresh pending
/// task appended at edition zero. A deduplicated list stays deduplicated.
pub fn obtain_task(tasks: &mut Vec<ProofRequest>, options: ProofRequestOptions) -> (r: usize)
    requires
        old(tasks)@.len() < usize::MAX,
    ensures
        r < final(tasks)@.len(),
        task_identity_eq(final(tasks)@[r as int].options, options),
        (exists|i: int|
            0 <= i < old(tasks)@.len() && task_identity_eq(
                (#[trigger] old(tasks)@[i]).options,
                options,
            )) ==> final(tasks)@ == old(tasks)@ && r < old(tasks)@.len(),
        (forall|i: int|
            0 <= i < old(tasks)@.len() ==> !task_identity_eq(
                (#[trigger] old(tasks)@[i]).options,
                options,
            )) ==> {
            &&& final(tasks)@.len() == old(tasks)@.len() + 1
            &&& final(tasks)@.take(old(tasks)@.len() as int) == old(tasks)@
            &&& final(tasks)@[old(tasks)@.len() as int].options == options
            &&& final(tasks)@[old(tasks)@.len() as int].result is None
            &&& final(tasks)@[old(tasks)@.len() as int].edition == 0
            &&& r == old(tasks)@.len()
        },
        tasks_deduped(old(tasks)@) ==> tasks_deduped(final(tasks)@),
{
    match find_task(tasks, &options) {
        Some(i) => i,
        None => {
            let ghost prior = tasks@;
            let index = tasks.len();
            tasks.push(ProofRequest::new(options));
            proof {
                assert(tasks@.take(prior.len() as int) =~= prior);
                assert forall|i: int, j: int| 0 <= i < j < tasks@.len() && tasks_deduped(
                    prior,
                ) implies !task_identity_eq(
                    (#[trigger] tasks@[i]).options,
                    (#[trigger] tasks@[j]).options,
                ) by {
                    if j < prior.len() {
                    } else {
                        assert(tasks@[i] == prior[i]);
                    }
                }
            }
            index
        },
    }
}

/// The value an execution-mode flag takes when a request omits it: every
/// optional mode is off unless asked for.
pub fn default_bool() -> (r: bool)
    ensures
        r == false,
{
    false
}

/// The coordinator-visible state of one worker: its identity and the tasks
/// it holds.
#[derive(Clone, Debug)]
pub struct NodeInformation {
    /// Worker identity.
    pub id: String,
    /// The tasks the worker holds.
    pub tasks: Vec<ProofRequest>,
}

/// A worker's heartbeat: the single task it wants or works on, and whether
/// work has started.
#[derive(Clone, Debug)]
pub struct NodeStatus {
    /// Worker identity.
    pub id: String,
    /// The task this worker wants to obtain or is working on.
    pub task: Option<ProofRequestOptions>,
    /// True once the worker started working on `task`.
    pub obtained: bool,
}

} // verus!
