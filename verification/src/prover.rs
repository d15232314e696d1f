//! The prover side of the VDF: building the execution trace, deriving the
//! public inputs from it, and carrying the proof-system parameters.

use vstd::prelude::*;
use crate::air::VdfInputs;
use crate::field::{felt_exp, felt_sub, FORTY_TWO, INV_ALPHA, MODULUS};
use crate::vdf::{is_vdf_trace, lemma_evaluate_matches_trace, trace_val, vdf};

verus! {

/// Hash function a proof is built with.
#[derive(Clone, Copy, Debug, PartialEq, Eq, Structural)]
pub enum HashKind {
    Blake3_256,
    Blake3_192,
    Sha3_256,
}

/// Field extension the constraint evaluation domain lives in.
#[derive(Clone, Copy, Debug, PartialEq, Eq, Structural)]
pub enum ExtensionKind {
    Base,
    Quadratic,
    Cubic,
}

/// Parameters of the STARK protocol, as plain values: query count, blowup
/// factor, grinding factor, hash function, field extension, and the FRI
/// folding factor and maximum remainder size.
#[derive(Clone, Copy, Debug, PartialEq, Eq, Structural)]
pub struct ProofParams {
    pub num_queries: usize,
    pub blowup_factor: usize,
    pub grinding_factor: u32,
    pub hash_kind: HashKind,
    pub extension_kind: ExtensionKind,
    pub fri_folding_factor: usize,
    pub fri_max_remainder_size: usize,
}

/// The prover for one VDF run: owns the proof-system parameters and builds
/// the execution trace the proof is generated from.
pub struct VdfProver {
    pub options: ProofParams,
}

impl VdfProver {
    /// A prover that will generate proofs under the given parameters.
    pub fn new(options: ProofParams) -> (r: Self)
        ensures
            r.options == options,
    {
        VdfProver { options }
    }

    /// Builds the execution trace: `n` rows of the single trace column,
    /// the seed first and every later row one transition further.
    pub fn build_trace(seed: u128, n: usize) -> (trace: Vec<u128>)
        requires
            seed < MODULUS,
            n >= 1,
        ensures
            trace@.len() == n,
            forall|i: int|
                0 <= i < n ==> #[trigger] trace@[i] < MODULUS && trace@[i] as int == trace_val(
                    seed as int,
                    i as nat,
                ),
            is_vdf_trace(trace@, seed, n as nat),
    {
        let mut trace: Vec<u128> = Vec::with_capacity(n);
        let mut state: u128 = seed;
        trace.push(state);
        let mut i: usize = 1;
        while i < n
            invariant
                seed < MODULUS,
                1 <= i <= n,
                state < MODULUS,
                trace@.len() == i,
                state as int == trace_val(seed as int, (i - 1) as nat),
                forall|j: int|
                    0 <= j < i ==> #[trigger] trace@[j] < MODULUS && trace@[j] as int == trace_val(
                        seed as int,
                        j as nat,
                    ),
            decreases n - i,
        {
            state = felt_exp(felt_sub(state, FORTY_TWO), INV_ALPHA);
            trace.push(state);
            i = i + 1;
        }
        proof {
            assert forall|i: int| 1 <= i < n implies (#[trigger] trace@[i]) as int
                == crate::vdf::transition_spec(trace@[i - 1] as int) by {
                assert(trace@[i] as int == trace_val(seed as int, i as nat));
                assert(trace@[i - 1] as int == trace_val(seed as int, (i - 1) as nat));
            }
        }
        trace
    }

    /// Derives the public inputs of a proof from a trace: its first and
    /// last rows.
    pub fn get_pub_inputs(&self, trace: &Vec<u128>) -> (r: VdfInputs)
        requires
            trace@.len() >= 1,
        ensures
            r.seed == trace@[0],
            r.result == trace@[trace@.len() - 1],
    {
        let last_step = trace.len() - 1;
        VdfInputs { seed: trace[0], result: trace[last_step] }
    }

    /// The proof-system parameters this prover was built with.
    pub fn options(&self) -> (r: &ProofParams)
        ensures
            *r == self.options,
    {
        &self.options
    }
}

/// The independent cross-check of the evaluator against the trace builder:
/// runs both and compares the evaluator's result with the trace's last row.
/// The comparison is proved to come out true on every valid input, so a
/// mismatch at run time is impossible.
pub fn evaluate_matches_trace(seed: u128, n: usize) -> (ok: bool)
    requires
        seed < MODULUS,
        n >= 1,
    ensures
        ok,
{
    let result = vdf(seed, n);
    let trace = VdfProver::build_trace(seed, n);
    proof {
        lemma_evaluate_matches_trace(seed as int, (n - 1) as nat);
    }
    result == trace[n - 1]
}

} // verus!
