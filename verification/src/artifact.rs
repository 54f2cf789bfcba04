use vstd::prelude::*;
use vstd::string::{StringExecFns, StrSliceExecFns, StringExecFnsIsAscii};
use vstd::utf8::is_ascii_chars;
use crate::circuits::{make_label, spec_label, CircuitKind};
use crate::config::CircuitConfig;

verus! {

/// The address a deployed verifier is referred to by: the label's bytes,
/// right-padded with zeros into the 20-byte address width (a label longer
/// than the width keeps its first 20 bytes).
pub open spec fn spec_verifier_address(label: Seq<char>) -> Seq<u8> {
    Seq::new(
        20,
        |i: int|
            if i < label.len() {
                label[i] as u8
            } else {
                0u8
            },
    )
}

/// The label a tier's verifier artifact is addressed by: the circuit kind
/// and tier label, with a suffix when the artifact verifies the aggregation
/// circuit.
pub open spec fn spec_artifact_label(
    kind: CircuitKind,
    config: CircuitConfig,
    aggregated: bool,
) -> Seq<char> {
    if aggregated {
        spec_label(kind, config) + "-agg"@
    } else {
        spec_label(kind, config)
    }
}

/// A named, deployable verifier bundle: its label, the capacity tier it
/// verifies, the verifier bytecode, and the address derived from the label.
///
/// When aggregation is requested a tier gets two of these — one for the
/// base circuit, one for the aggregation circuit — and both are retained,
/// since either proof may need standalone verification.
#[derive(Clone, Debug)]
pub struct VerifierArtifact {
    /// Label combining circuit kind, gas tier and aggregation suffix.
    pub label: String,
    /// The capacity tier the verified circuit was padded to.
    pub config: CircuitConfig,
    /// Verifier bytecode, compiled by external tooling and carried opaque.
    pub bytecode: Vec<u8>,
    /// The 20-byte address derived from the label.
    pub address: Vec<u8>,
}

/// Derives a verifier's fixed-width address from its label's bytes.
pub fn verifier_address(label: &str) -> (r: Vec<u8>)
    requires
        vstd::string::is_ascii(label),
    ensures
        r@ == spec_verifier_address(label@),
{
    let n = label.unicode_len();
    let mut out: Vec<u8> = Vec::new();
    let mut i: usize = 0;
    while i < 20
        invariant
            vstd::string::is_ascii(label),
            n == label@.len(),
            i <= 20,
            out@.len() == i,
            forall|t: int|
                0 <= t < i ==> out@[t] == (if t < label@.len() {
                    label@[t] as u8
                } else {
                    0u8
                }),
        decreases 20 - i,
    {
        if i < n {
            out.push(label.get_ascii(i));
        } else {
            out.push(0);
        }
        i += 1;
    }
    proof {
        assert(out@ =~= spec_verifier_address(label@));
    }
    out
}

/// Bundles compiled verifier bytecode into its deployable artifact.
///
/// The bytecode itself comes from external compilation tooling and is
/// carried unread; label and address are derived deterministically from
/// the circuit kind, the tier and the aggregation suffix, so the same
/// circuit always deploys under the same name and address.
pub fn build_verifier_artifact(
    kind: CircuitKind,
    config: &CircuitConfig,
    aggregated: bool,
    bytecode: Vec<u8>,
) -> (r: Option<VerifierArtifact>)
    ensures
        r matches Some(a) ==> {
            &&& a.label@ == spec_artifact_label(kind, *config, aggregated)
            &&& a.config == *config
            &&& a.bytecode == bytecode
            &&& a.address@ == spec_verifier_address(a.label@)
        },
        r is Some <==> is_ascii_chars(spec_artifact_label(kind, *config, aggregated)),
{
    let mut label = make_label(kind, config);
    if aggregated {
        label.append("-agg");
    }
    proof {
        assert(label@ =~= spec_artifact_label(kind, *config, aggregated));
    }
    if !label.is_ascii() {
        return None;
    }
    let address = verifier_address(label.as_str());
    Some(VerifierArtifact { label, config: *config, bytecode, address })
}

} // verus!
