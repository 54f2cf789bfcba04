use vstd::prelude::*;
use vstd::string::StringExecFns;

verus! {

/// Failure taxonomy of the proving workflow.
///
/// Every stage returns one of these; the pipeline stops at the first failure
/// and the task's result carries the matching message. Whether a failed task
/// may be retried depends on the class alone, never on the stage that raised
/// it.
#[derive(Clone, Copy, Debug, PartialEq, Eq, Structural)]
pub enum ProofError {
    /// Malformed request text (hexadecimal fields, addresses) or an
    /// unsupported circuit kind. The request itself must be corrected.
    InvalidInput,
    /// No configured capacity tier covers the block's gas usage; proving is
    /// impossible until a larger tier is provisioned.
    CapacityExhausted,
    /// The witness failed constraint checking, or proof creation failed.
    Engine,
    /// A freshly created proof failed verification against its own public
    /// inputs: a builder or witness inconsistency, not an input problem.
    SelfVerification,
    /// An aggregation sub-stage failed; the whole task's result is discarded.
    Aggregation,
    /// A transient resource failure (trace source, parameter store).
    Infrastructure,
}

impl ProofError {
    /// Message attached to a failed task's result.
    pub open spec fn spec_message(self) -> Seq<char> {
        match self {
            ProofError::InvalidInput => "invalid request input"@,
            ProofError::CapacityExhausted => "no circuit parameters found"@,
            ProofError::Engine => "proof computation failed"@,
            ProofError::SelfVerification => "proof self-verification failed"@,
            ProofError::Aggregation => "aggregation failed"@,
            ProofError::Infrastructure => "resource failure"@,
        }
    }

    /// Human-readable description of the failure class.
    pub fn message(&self) -> (r: String)
        ensures
            r@ == self.spec_message(),
    {
        match self {
            ProofError::InvalidInput => String::from_str("invalid request input"),
            ProofError::CapacityExhausted => String::from_str("no circuit parameters found"),
            ProofError::Engine => String::from_str("proof computation failed"),
            ProofError::SelfVerification => String::from_str("proof self-verification failed"),
            ProofError::Aggregation => String::from_str("aggregation failed"),
            ProofError::Infrastructure => String::from_str("resource failure"),
        }
    }

    /// Only engine and infrastructure failures are transient; invalid input,
    /// capacity exhaustion, self-verification and aggregation failures are
    /// fatal whatever the request asked for.
    pub open spec fn spec_should_retry(self, retry: bool) -> bool {
        retry && (self is Engine || self is Infrastructure)
    }

    /// Whether a task that failed with this error may be attempted again,
    /// given the request's retry flag.
    pub fn should_retry(&self, retry: bool) -> (r: bool)
        ensures
            r == self.spec_should_retry(retry),
    {
        match self {
            ProofError::Engine => retry,
            ProofError::Infrastructure => retry,
            _ => false,
        }
    }
}

} // verus!
