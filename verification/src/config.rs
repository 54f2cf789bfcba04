use vstd::prelude::*;
use crate::error::ProofError;

verus! {

/// A capacity tier: the fixed set of circuit size constants a block's
/// circuits are padded to. Chosen once per request by the planner and never
/// mutated; every padding and allocation decision downstream reads it.
#[derive(Clone, Copy, Debug, PartialEq, Eq, Structural)]
pub struct CircuitConfig {
    /// Gas ceiling of the tier; the planner picks the smallest ceiling that
    /// covers a block's gas usage.
    pub block_gas_limit: usize,
    /// Largest number of transactions the circuits accommodate.
    pub max_txs: usize,
    /// Largest total call-data size in bytes.
    pub max_calldata: usize,
    /// Largest total bytecode size in bytes.
    pub max_bytecode: usize,
    /// Largest number of read/write-set rows.
    pub max_rws: usize,
    /// Largest number of copy rows.
    pub max_copy_rows: usize,
    /// Largest number of exponentiation steps.
    pub max_exp_steps: usize,
    /// Minimum circuit size exponent for the base circuit.
    pub min_k: usize,
    /// Row count the witness is padded to.
    pub pad_to: usize,
    /// Minimum circuit size exponent for the aggregation circuit.
    pub min_k_aggregation: usize,
    /// Padding target for the hashing circuit.
    pub keccak_padding: usize,
}

impl CircuitConfig {
    /// The empty tier, covering nothing.
    pub open spec fn spec_default() -> CircuitConfig {
        CircuitConfig {
            block_gas_limit: 0,
            max_txs: 0,
            max_calldata: 0,
            max_bytecode: 0,
            max_rws: 0,
            max_copy_rows: 0,
            max_exp_steps: 0,
            min_k: 0,
            pad_to: 0,
            min_k_aggregation: 0,
            keccak_padding: 0,
        }
    }
}

impl Default for CircuitConfig {
    /// The empty tier, covering nothing.
    fn default() -> (r: CircuitConfig)
        ensures
            r == CircuitConfig::spec_default(),
    {
        CircuitConfig {
            block_gas_limit: 0,
            max_txs: 0,
            max_calldata: 0,
            max_bytecode: 0,
            max_rws: 0,
            max_copy_rows: 0,
            max_exp_steps: 0,
            min_k: 0,
            pad_to: 0,
            min_k_aggregation: 0,
            keccak_padding: 0,
        }
    }
}

impl CircuitConfig {
    /// Whether this tier's gas ceiling accommodates a block's gas usage.
    pub open spec fn covers(self, gas: u64) -> bool {
        gas as int <= self.block_gas_limit as int
    }
}

/// The tier table is ordered by ascending gas ceiling.
pub open spec fn tiers_ascending(tiers: Seq<CircuitConfig>) -> bool {
    forall|i: int, j: int|
        0 <= i < j < tiers.len() ==> #[trigger] tiers[i].block_gas_limit
            <= #[trigger] tiers[j].block_gas_limit
}

/// The tier the planner picks: the first one, in table order, whose gas
/// ceiling covers the block's gas usage.
pub open spec fn spec_select_config(tiers: Seq<CircuitConfig>, gas: u64) -> Option<CircuitConfig>
    decreases tiers.len(),
{
    if tiers.len() == 0 {
        None
    } else if tiers[0].covers(gas) {
        Some(tiers[0])
    } else {
        spec_select_config(tiers.drop_first(), gas)
    }
}

/// Selects the capacity tier for a block.
///
/// Returns the first tier of the table that covers the block's gas usage;
/// when no tier does, the block is unprovable under the current
/// configuration and the error is the fatal "no circuit parameters found"
/// class.
pub fn select_circuit_config(gas: u64, tiers: &Vec<CircuitConfig>) -> (r: Result<
    CircuitConfig,
    ProofError,
>)
    ensures
        r is Ok <==> spec_select_config(tiers@, gas) is Some,
        r matches Ok(c) ==> spec_select_config(tiers@, gas) == Some(c),
        r matches Err(e) ==> e == ProofError::CapacityExhausted,
{
    let n = tiers.len();
    let mut i: usize = 0;
    while i < n
        invariant
            n == tiers@.len(),
            i <= n,
            forall|j: int| 0 <= j < i ==> !(#[trigger] tiers@[j]).covers(gas),
        decreases n - i,
    {
        if gas <= tiers[i].block_gas_limit as u64 {
            proof {
                lemma_select_skip(tiers@, gas, i as int);
                assert(tiers@.skip(i as int)[0] == tiers@[i as int]);
            }
            return Ok(tiers[i]);
        }
        i += 1;
    }
    proof {
        lemma_select_skip(tiers@, gas, n as int);
        assert(tiers@.skip(n as int).len() == 0);
    }
    Err(ProofError::CapacityExhausted)
}

/// Selection ignores tiers that do not cover the gas usage: dropping a
/// non-covering prefix leaves the selected tier unchanged.
proof fn lemma_select_skip(tiers: Seq<CircuitConfig>, gas: u64, i: int)
    requires
        0 <= i <= tiers.len(),
        forall|j: int| 0 <= j < i ==> !(#[trigger] tiers[j]).covers(gas),
    ensures
        spec_select_config(tiers, gas) == spec_select_config(tiers.skip(i), gas),
    decreases i,
{
    if i > 0 {
        assert(!tiers[0].covers(gas));
        lemma_select_skip(tiers.drop_first(), gas, i - 1);
        assert(tiers.drop_first().skip(i - 1) =~= tiers.skip(i));
    } else {
        assert(tiers.skip(0) =~= tiers);
    }
}

/// A selected tier is one of the table's tiers and covers the gas usage.
pub proof fn lemma_selected_is_covering_tier(tiers: Seq<CircuitConfig>, gas: u64)
    requires
        spec_select_config(tiers, gas) is Some,
    ensures
        exists|i: int|
            0 <= i < tiers.len() && spec_select_config(tiers, gas) == Some(#[trigger] tiers[i])
                && tiers[i].covers(gas),
    decreases tiers.len(),
{
    if tiers[0].covers(gas) {
        assert(spec_select_config(tiers, gas) == Some(tiers[0]));
    } else {
        lemma_selected_is_covering_tier(tiers.drop_first(), gas);
        let i = choose|i: int|
            0 <= i < tiers.drop_first().len() && spec_select_config(tiers.drop_first(), gas)
                == Some(#[trigger] tiers.drop_first()[i]) && tiers.drop_first()[i].covers(gas);
        assert(tiers.drop_first()[i] == tiers[i + 1]);
    }
}

/// Selection is total and exact: a tier is selected exactly when some tier
/// of the table covers the gas usage — in particular whenever the gas usage
/// is at or below the largest configured ceiling — and selection fails
/// exactly when the gas usage exceeds every ceiling.
pub proof fn lemma_planner_total(tiers: Seq<CircuitConfig>, gas: u64)
    ensures
        spec_select_config(tiers, gas) is Some <==> exists|i: int|
            0 <= i < tiers.len() && (#[trigger] tiers[i]).covers(gas),
    decreases tiers.len(),
{
    if tiers.len() > 0 {
        lemma_planner_total(tiers.drop_first(), gas);
        if tiers[0].covers(gas) {
        } else {
            if spec_select_config(tiers, gas) is Some {
                let i = choose|i: int|
                    0 <= i < tiers.drop_first().len() && (#[trigger] tiers.drop_first()[i]).covers(
                        gas,
                    );
                assert(tiers[i + 1].covers(gas));
            }
            if exists|i: int| 0 <= i < tiers.len() && (#[trigger] tiers[i]).covers(gas) {
                let i = choose|i: int| 0 <= i < tiers.len() && (#[trigger] tiers[i]).covers(gas);
                assert(tiers.drop_first()[i - 1].covers(gas));
            }
        }
    }
}

/// On an ascending table the selected tier is minimal: its ceiling is at or
/// below the ceiling of every tier that covers the gas usage, so exactly one
/// minimal covering ceiling exists and selection returns it.
pub proof fn lemma_planner_minimal(tiers: Seq<CircuitConfig>, gas: u64)
    requires
        tiers_ascending(tiers),
        spec_select_config(tiers, gas) is Some,
    ensures
        spec_select_config(tiers, gas)->Some_0.covers(gas),
        forall|i: int|
            0 <= i < tiers.len() && (#[trigger] tiers[i]).covers(gas) ==> spec_select_config(
                tiers,
                gas,
            )->Some_0.block_gas_limit <= tiers[i].block_gas_limit,
    decreases tiers.len(),
{
    lemma_selected_is_covering_tier(tiers, gas);
    if tiers[0].covers(gas) {
        assert forall|i: int|
            0 <= i < tiers.len() && (#[trigger] tiers[i]).covers(gas) implies spec_select_config(
            tiers,
            gas,
        )->Some_0.block_gas_limit <= tiers[i].block_gas_limit by {}
    } else {
        assert(tiers_ascending(tiers.drop_first())) by {
            assert forall|i: int, j: int|
                0 <= i < j < tiers.drop_first().len() implies #[trigger] tiers.drop_first()[i].block_gas_limit
                <= #[trigger] tiers.drop_first()[j].block_gas_limit by {
                assert(tiers.drop_first()[i] == tiers[i + 1]);
                assert(tiers.drop_first()[j] == tiers[j + 1]);
            }
        }
        lemma_planner_minimal(tiers.drop_first(), gas);
        assert forall|i: int|
            0 <= i < tiers.len() && (#[trigger] tiers[i]).covers(gas) implies spec_select_config(
            tiers,
            gas,
        )->Some_0.block_gas_limit <= tiers[i].block_gas_limit by {
            assert(i >= 1);
            assert(tiers.drop_first()[i - 1] == tiers[i]);
        }
    }
}

/// Selection is monotonic in the gas usage: when a larger usage still finds
/// a tier, a smaller usage finds one too, with a ceiling at or below it.
pub proof fn lemma_planner_monotonic(tiers: Seq<CircuitConfig>, lo: u64, hi: u64)
    requires
        tiers_ascending(tiers),
        lo <= hi,
        spec_select_config(tiers, hi) is Some,
    ensures
        spec_select_config(tiers, lo) is Some,
        spec_select_config(tiers, lo)->Some_0.block_gas_limit <= spec_select_config(
            tiers,
            hi,
        )->Some_0.block_gas_limit,
{
    lemma_planner_total(tiers, hi);
    let i = choose|i: int| 0 <= i < tiers.len() && (#[trigger] tiers[i]).covers(hi);
    assert(tiers[i].covers(lo));
    lemma_planner_total(tiers, lo);
    lemma_planner_minimal(tiers, lo);
    lemma_planner_minimal(tiers, hi);
    lemma_selected_is_covering_tier(tiers, hi);
    let j = choose|j: int|
        0 <= j < tiers.len() && spec_select_config(tiers, hi) == Some(#[trigger] tiers[j])
            && tiers[j].covers(hi);
    assert(tiers[j].covers(lo));
}

/// The tier table used by default: two tiers, a small one for ordinary
/// blocks and a larger one for heavy blocks.
pub fn default_tiers() -> (r: Vec<CircuitConfig>)
    ensures
        r@.len() == 2,
        tiers_ascending(r@),
        r@[0].block_gas_limit == 63000,
        r@[1].block_gas_limit == 300000,
        forall|i: int| 0 <= i < r@.len() ==> (#[trigger] r@[i]).min_k >= 1,
{
    let small = CircuitConfig {
        block_gas_limit: 63000,
        max_txs: 3,
        max_calldata: 10500,
        max_bytecode: 24634,
        max_rws: 476052,
        max_copy_rows: 524288,
        max_exp_steps: 1000,
        min_k: 19,
        pad_to: 476052,
        min_k_aggregation: 26,
        keccak_padding: 336000,
    };
    let large = CircuitConfig {
        block_gas_limit: 300000,
        max_txs: 14,
        max_calldata: 69750,
        max_bytecode: 139500,
        max_rws: 3161966,
        max_copy_rows: 3145728,
        max_exp_steps: 10000,
        min_k: 21,
        pad_to: 3161966,
        min_k_aggregation: 26,
        keccak_padding: 1600000,
    };
    let mut tiers: Vec<CircuitConfig> = Vec::new();
    tiers.push(small);
    tiers.push(large);
    tiers
}

} // verus!
