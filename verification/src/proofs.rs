use vstd::prelude::*;
use crate::config::CircuitConfig;

verus! {

/// Timing instrumentation of one proving run, in milliseconds. Timings are
/// meaningful only up to the first failing stage.
#[derive(Clone, Copy, Debug, PartialEq, Eq, Structural)]
pub struct ProofResultInstrumentation {
    /// Verification-key generation.
    pub vk: u32,
    /// Proving-key generation.
    pub pk: u32,
    /// Proof creation.
    pub proof: u32,
    /// Proof verification.
    pub verify: u32,
    /// Exhaustive constraint checking.
    pub mock: u32,
    /// Circuit construction.
    pub circuit: u32,
    /// Protocol compilation.
    pub protocol: u32,
}

impl Default for ProofResultInstrumentation {
    /// No stage has run yet: every timing is zero.
    fn default() -> (r: ProofResultInstrumentation)
        ensures
            r == ProofResultInstrumentation::spec_default(),
    {
        ProofResultInstrumentation { vk: 0, pk: 0, proof: 0, verify: 0, mock: 0, circuit: 0, protocol: 0 }
    }
}

impl ProofResultInstrumentation {
    /// The all-zero instrumentation.
    pub open spec fn spec_default() -> ProofResultInstrumentation {
        ProofResultInstrumentation { vk: 0, pk: 0, proof: 0, verify: 0, mock: 0, circuit: 0, protocol: 0 }
    }
}

/// One proving stage's output: the proof bytes (empty in mock mode), the
/// public inputs rendered as base-10 field-element strings for cross-system
/// portability, the circuit size exponent, the randomness used, a label
/// identifying circuit kind and tier, and per-stage timings.
#[derive(Clone, Debug)]
pub struct ProofResult {
    /// Opaque proof transcript; empty when no proof was created.
    pub proof: Vec<u8>,
    /// Public inputs, one decimal string per field element.
    pub instance: Vec<String>,
    /// Circuit size exponent the parameters were sized to.
    pub k: u8,
    /// Randomness the proof was created with; empty in mock mode.
    pub randomness: Vec<u8>,
    /// Label naming circuit kind and capacity tier.
    pub label: String,
    /// Per-stage timings.
    pub aux: ProofResultInstrumentation,
}

impl ProofResult {
    /// An untouched result: no proof, no inputs, no label, no timings.
    pub open spec fn is_empty(self) -> bool {
        &&& self.proof@.len() == 0
        &&& self.instance@.len() == 0
        &&& self.k == 0
        &&& self.randomness@.len() == 0
        &&& self.label@.len() == 0
        &&& self.aux == ProofResultInstrumentation::spec_default()
    }
}

impl Default for ProofResult {
    /// The empty result.
    fn default() -> (r: ProofResult)
        ensures
            r.is_empty(),
    {
        ProofResult {
            proof: Vec::new(),
            instance: Vec::new(),
            k: 0,
            randomness: Vec::new(),
            label: String::new(),
            aux: ProofResultInstrumentation::default(),
        }
    }
}

/// The aggregate outcome of one proving task: the tier it ran under, the
/// base-circuit result, the aggregation result (left empty when aggregation
/// was not requested), and the block's gas usage, retained for audit.
#[derive(Clone, Debug)]
pub struct Proofs {
    /// Capacity tier the task ran under.
    pub config: CircuitConfig,
    /// Result of the base circuit.
    pub circuit: ProofResult,
    /// Result of the aggregation circuit; empty when aggregation was not
    /// requested.
    pub aggregation: ProofResult,
    /// Gas used by the block; drives tier selection.
    pub gas: u64,
}

impl Default for Proofs {
    /// An empty task outcome under the empty tier.
    fn default() -> (r: Proofs)
        ensures
            r.config == CircuitConfig::spec_default(),
            r.circuit.is_empty(),
            r.aggregation.is_empty(),
            r.gas == 0,
    {
        Proofs {
            config: CircuitConfig::default(),
            circuit: ProofResult::default(),
            aggregation: ProofResult::default(),
            gas: 0,
        }
    }
}

} // verus!
