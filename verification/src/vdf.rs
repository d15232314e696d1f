//! The sequential VDF evaluator and the shape of a valid execution trace.

use vstd::prelude::*;
use crate::field::{felt_exp, felt_sub, fsub, pow_mod, FORTY_TWO, INV_ALPHA, MODULUS};

verus! {

/// One sequential step of the VDF: `(x - 42)` raised to the `INV_ALPHA`-th
/// power in the field.
pub open spec fn transition_spec(x: int) -> int {
    pow_mod(fsub(x, FORTY_TWO as int), INV_ALPHA as nat)
}

/// The state after `steps` applications of the transition, unfolding from
/// the front: first step first.
pub open spec fn vdf_result(seed: int, steps: nat) -> int
    decreases steps,
{
    if steps == 0 {
        seed
    } else {
        vdf_result(transition_spec(seed), (steps - 1) as nat)
    }
}

/// Row `i` of the execution trace, unfolding from the back: the last step
/// last. Kept deliberately distinct from `vdf_result` so that the agreement
/// of the evaluator and the trace builder is a proved fact, not a tautology.
pub open spec fn trace_val(seed: int, i: nat) -> int
    decreases i,
{
    if i == 0 {
        seed
    } else {
        transition_spec(trace_val(seed, (i - 1) as nat))
    }
}

/// What it means for a sequence to be a valid VDF trace: `n` rows, the seed
/// in row zero, and every consecutive pair related by the transition.
pub open spec fn is_vdf_trace(t: Seq<u128>, seed: u128, n: nat) -> bool {
    &&& t.len() == n
    &&& n >= 1
    &&& t[0] == seed
    &&& forall|i: int| 1 <= i < n ==> (#[trigger] t[i]) as int == transition_spec(t[i - 1] as int)
}

/// One sequential step of the VDF, executable.
pub fn transition(state: u128) -> (r: u128)
    requires
        state < MODULUS,
    ensures
        r < MODULUS,
        r as int == transition_spec(state as int),
{
    felt_exp(felt_sub(state, FORTY_TWO), INV_ALPHA)
}

/// The VDF evaluator: the field element reached after `n - 1` sequential
/// applications of the transition to `seed`.
pub fn vdf(seed: u128, n: usize) -> (r: u128)
    requires
        seed < MODULUS,
        n >= 1,
    ensures
        r < MODULUS,
        r as int == vdf_result(seed as int, (n - 1) as nat),
{
    let mut state: u128 = seed;
    let mut i: usize = 0;
    while i < n - 1
        invariant
            n >= 1,
            i <= n - 1,
            state < MODULUS,
            vdf_result(state as int, ((n - 1) - i) as nat) == vdf_result(
                seed as int,
                (n - 1) as nat,
            ),
        decreases n - 1 - i,
    {
        let next = felt_exp(felt_sub(state, FORTY_TWO), INV_ALPHA);
        proof {
            assert(next as int == transition_spec(state as int));
            assert(vdf_result(state as int, ((n - 1) - i) as nat) == vdf_result(
                next as int,
                ((n - 1) - i - 1) as nat,
            ));
        }
        state = next;
        i = i + 1;
    }
    state
}

/// Shifting the seed by one transition shifts every trace row by one.
proof fn lemma_trace_val_shift(seed: int, k: nat)
    ensures
        trace_val(transition_spec(seed), k) == trace_val(seed, k + 1),
    decreases k,
{
    if k == 0 {
        assert(trace_val(transition_spec(seed), 0) == transition_spec(seed));
        assert(trace_val(seed, 1) == transition_spec(trace_val(seed, 0)));
    } else {
        lemma_trace_val_shift(seed, (k - 1) as nat);
        assert(trace_val(transition_spec(seed), k) == transition_spec(
            trace_val(transition_spec(seed), (k - 1) as nat),
        ));
        assert(trace_val(seed, k + 1) == transition_spec(trace_val(seed, k)));
    }
}

/// The evaluator and the trace agree: the state after `steps` forward
/// applications is row `steps` of the trace, for every seed and count.
pub proof fn lemma_evaluate_matches_trace(seed: int, steps: nat)
    ensures
        vdf_result(seed, steps) == trace_val(seed, steps),
    decreases steps,
{
    if steps > 0 {
        lemma_evaluate_matches_trace(transition_spec(seed), (steps - 1) as nat);
        lemma_trace_val_shift(seed, (steps - 1) as nat);
    }
}

/// Every row of a valid trace is pinned down: row `i` equals `trace_val`.
pub proof fn lemma_trace_rows_determined(t: Seq<u128>, seed: u128, n: nat, i: int)
    requires
        is_vdf_trace(t, seed, n),
        0 <= i < n,
    ensures
        t[i] as int == trace_val(seed as int, i as nat),
    decreases i,
{
    if i > 0 {
        lemma_trace_rows_determined(t, seed, n, i - 1);
    }
}

/// Two valid traces for the same seed and length are equal: the trace
/// builder's output is determined by its inputs.
pub proof fn lemma_trace_deterministic(t1: Seq<u128>, t2: Seq<u128>, seed: u128, n: nat)
    requires
        is_vdf_trace(t1, seed, n),
        is_vdf_trace(t2, seed, n),
    ensures
        t1 == t2,
{
    assert forall|i: int| 0 <= i < n implies t1[i] == t2[i] by {
        lemma_trace_rows_determined(t1, seed, n, i);
        lemma_trace_rows_determined(t2, seed, n, i);
    }
    assert(t1 =~= t2);
}

} // verus!
