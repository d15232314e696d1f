//! Arithmetization of the VDF: the transition constraint and the boundary
//! assertions that encode "this trace is a valid VDF run" for a STARK
//! engine.

use vstd::prelude::*;
use crate::field::{
    felt_add, felt_exp, felt_sub, fadd, fmul, fsub, pow_mod, ALPHA, FORTY_TWO, MODULUS,
};

verus! {

/// Polynomial degree of the transition constraint, declared to the proving
/// engine; `lemma_constraint_cubic` shows it matches the constraint itself.
pub const TRANSITION_CONSTRAINT_DEGREE: usize = 3;

/// The public inputs of a proof: the seed and the claimed result. The only
/// values the verifier sees besides the proof itself.
#[derive(Clone, Copy, Debug, PartialEq, Eq, Structural)]
pub struct VdfInputs {
    pub seed: u128,
    pub result: u128,
}

/// Byte `i` of the little-endian encoding of a field element.
pub open spec fn le_byte(v: u128, i: int) -> u8 {
    ((v >> ((8 * i) as u128)) % 256) as u8
}

/// The fixed-width encoding of a field element: its sixteen bytes, least
/// significant first.
pub open spec fn u128_le_bytes(v: u128) -> Seq<u8> {
    Seq::new(16, |i: int| le_byte(v, i))
}

impl VdfInputs {
    /// The deterministic serialization of the public inputs the verifier's
    /// binding digest is computed over: the seed's sixteen little-endian
    /// bytes, then the result's.
    pub fn to_bytes(&self) -> (r: Vec<u8>)
        ensures
            r@.len() == 32,
            r@ == u128_le_bytes(self.seed) + u128_le_bytes(self.result),
    {
        let mut out: Vec<u8> = Vec::with_capacity(32);
        push_le_bytes(&mut out, self.seed);
        push_le_bytes(&mut out, self.result);
        proof {
            assert(out@ =~= u128_le_bytes(self.seed) + u128_le_bytes(self.result));
        }
        out
    }
}

/// Appends the sixteen little-endian bytes of one field element.
fn push_le_bytes(out: &mut Vec<u8>, v: u128)
    ensures
        final(out)@ == old(out)@ + u128_le_bytes(v),
{
    let mut i: usize = 0;
    while i < 16
        invariant
            i <= 16,
            out@.len() == old(out)@.len() + i,
            forall|j: int| 0 <= j < old(out)@.len() ==> out@[j] == old(out)@[j],
            forall|j: int| 0 <= j < i ==> out@[old(out)@.len() + j] == le_byte(v, j),
        decreases 16 - i,
    {
        let shift: u128 = 8 * (i as u128);
        let b: u8 = ((v >> shift) % 256) as u8;
        proof {
            assert(shift == (8 * (i as int)) as u128);
            assert(b == le_byte(v, i as int));
        }
        out.push(b);
        i = i + 1;
    }
    proof {
        assert(out@ =~= old(out)@ + u128_le_bytes(v));
    }
}

/// A boundary assertion: trace cell (`column`, `step`) must equal `value`.
#[derive(Clone, Copy, Debug, PartialEq, Eq, Structural)]
pub struct BoundaryAssertion {
    pub column: usize,
    pub step: usize,
    pub value: u128,
}

/// The transition constraint, written in the cheap inverse direction:
/// `current - (next^ALPHA + 42)`. It vanishes exactly where
/// `next^ALPHA == current - 42`, so a verifier checks one cubing per step
/// instead of the expensive forward exponentiation.
pub open spec fn constraint_spec(current: int, next: int) -> int {
    fsub(current, fadd(pow_mod(next, ALPHA as nat), FORTY_TWO as int))
}

/// The constraint system for one VDF run: trace length and the two public
/// values the boundary assertions pin the trace to.
pub struct VdfAir {
    pub trace_length: usize,
    pub seed: u128,
    pub result: u128,
}

impl VdfAir {
    /// Builds the constraint system from the trace length and the public
    /// inputs, as handed over by the proving engine.
    pub fn new(trace_length: usize, pub_inputs: VdfInputs) -> (r: Self)
        requires
            trace_length >= 1,
        ensures
            r.trace_length == trace_length,
            r.seed == pub_inputs.seed,
            r.result == pub_inputs.result,
    {
        VdfAir { trace_length, seed: pub_inputs.seed, result: pub_inputs.result }
    }

    /// Evaluates the transition constraint on a window of two consecutive
    /// trace rows.
    pub fn evaluate_transition(&self, current: u128, next: u128) -> (r: u128)
        requires
            current < MODULUS,
            next < MODULUS,
        ensures
            r < MODULUS,
            r as int == constraint_spec(current as int, next as int),
    {
        felt_sub(current, felt_add(felt_exp(next, ALPHA), FORTY_TWO))
    }

    /// The declared degrees of the transition constraints: a single
    /// constraint of degree three.
    pub fn transition_constraint_degrees(&self) -> (r: Vec<usize>)
        ensures
            r@ =~= seq![TRANSITION_CONSTRAINT_DEGREE],
    {
        let mut degrees: Vec<usize> = Vec::new();
        degrees.push(TRANSITION_CONSTRAINT_DEGREE);
        degrees
    }

    /// The two boundary assertions: row zero carries the seed and the last
    /// row carries the result, both in the single trace column.
    pub fn get_assertions(&self) -> (r: Vec<BoundaryAssertion>)
        requires
            self.trace_length >= 1,
        ensures
            r@.len() == 2,
            r@[0] == (BoundaryAssertion { column: 0, step: 0, value: self.seed }),
            r@[1] == (BoundaryAssertion {
                column: 0,
                step: (self.trace_length - 1) as usize,
                value: self.result,
            }),
    {
        let last_step = self.trace_length - 1;
        let mut assertions: Vec<BoundaryAssertion> = Vec::new();
        assertions.push(BoundaryAssertion { column: 0, step: 0, value: self.seed });
        assertions.push(BoundaryAssertion { column: 0, step: last_step, value: self.result });
        assertions
    }
}

/// The constraint is a cubic polynomial in `next`: it equals
/// `current - (next * next * next + 42)` in the field, so its degree in the
/// trace variables is exactly `ALPHA == 3`, however large `INV_ALPHA` is.
pub proof fn lemma_constraint_cubic(current: int, next: int)
    ensures
        constraint_spec(current, next) == fsub(
            current,
            fadd(fmul(next, fmul(next, next)), FORTY_TWO as int),
        ),
{
    let m = MODULUS as int;
    assert(pow_mod(next, 0) == 1);
    assert(pow_mod(next, 1) == (next * 1) % m);
    vstd::arithmetic::div_mod::lemma_mul_mod_noop_right(next, next * 1, m);
    assert(pow_mod(next, 2) == (next * next) % m);
    assert(pow_mod(next, 3) == (next * ((next * next) % m)) % m);
}

/// The constraint vanishes exactly on transitions whose cheap backward
/// check holds: `current - (next^ALPHA + 42) == 0` if and only if
/// `next^ALPHA == current - 42`, for canonical field values.
pub proof fn lemma_constraint_zero_iff(current: int, next: int)
    requires
        0 <= current < MODULUS,
        0 <= next < MODULUS,
    ensures
        (constraint_spec(current, next) == 0) <==> (pow_mod(next, ALPHA as nat) == fsub(
            current,
            FORTY_TWO as int,
        )),
{
    let m = MODULUS as int;
    let p = pow_mod(next, ALPHA as nat);
    crate::field::lemma_pow_mod_bounds(next, ALPHA as nat);
    let q = fadd(p, FORTY_TWO as int);
    vstd::arithmetic::div_mod::lemma_mod_bound(p + FORTY_TWO, m);
    vstd::arithmetic::div_mod::lemma_mod_bound(current - q, m);
    vstd::arithmetic::div_mod::lemma_mod_bound(current - FORTY_TWO, m);
}

} // verus!
