//! The 128-bit prime field the VDF runs in, as plain `u128` values.
//!
//! A field element is a canonical integer in `[0, MODULUS)`. The arithmetic
//! itself is done by winterfell's `f128::BaseElement`, which stores elements
//! in exactly that canonical form; the wrappers below move values across that
//! boundary one operation at a time, and everything else in this crate is
//! proved against the spec functions `fadd`, `fsub`, `fmul` and `pow_mod`.

use vstd::prelude::*;
use winterfell::math::fields::f128::BaseElement;
use winterfell::math::{FieldElement, StarkField};

verus! {

/// Modulus of the field: the prime 2^128 - 45 * 2^40 + 1.
pub const MODULUS: u128 = 340282366920938463463374557953744961537;

/// Exponent of the transition constraint's cheap direction.
pub const ALPHA: u128 = 3;

/// Multiplicative inverse of `ALPHA` modulo `MODULUS - 1`, the order of the
/// field's multiplicative group; raising to this power is one sequential
/// step of the VDF.
pub const INV_ALPHA: u128 = 226854911280625642308916371969163307691;

/// Additive constant of the transition relation. It only breaks trivial
/// algebraic shortcuts (fixed points at zero and one) and carries no other
/// meaning.
pub const FORTY_TWO: u128 = 42;

/// Field addition.
pub open spec fn fadd(a: int, b: int) -> int {
    (a + b) % (MODULUS as int)
}

/// Field subtraction.
pub open spec fn fsub(a: int, b: int) -> int {
    (a - b) % (MODULUS as int)
}

/// Field multiplication.
pub open spec fn fmul(a: int, b: int) -> int {
    (a * b) % (MODULUS as int)
}

/// `base` raised to the `e`-th power in the field.
pub open spec fn pow_mod(base: int, e: nat) -> int
    decreases e,
{
    if e == 0 {
        1
    } else {
        fmul(base, pow_mod(base, (e - 1) as nat))
    }
}

/// `ALPHA` and `INV_ALPHA` are multiplicative inverses modulo the order of
/// the field's multiplicative group, so raising to one exponent and then to
/// the other returns to the start on that group.
pub proof fn lemma_alpha_inverse()
    ensures
        (ALPHA * INV_ALPHA) % ((MODULUS - 1) as int) == 1,
{
    assert((3int * 226854911280625642308916371969163307691int)
        % 340282366920938463463374557953744961536int == 1int) by (nonlinear_arith);
}

/// For any exponent at least one, a power lands in the canonical range.
pub proof fn lemma_pow_mod_bounds(base: int, e: nat)
    requires
        e >= 1,
    ensures
        0 <= pow_mod(base, e) < MODULUS,
{
}

/// Relies on winterfell's `Add` impl for `f128::BaseElement`: addition
/// modulo `MODULUS` on canonically stored values.
#[verifier::external_body]
pub(crate) fn felt_add(a: u128, b: u128) -> (r: u128)
    requires
        a < MODULUS,
        b < MODULUS,
    ensures
        r < MODULUS,
        r as int == fadd(a as int, b as int),
{
    (BaseElement::new(a) + BaseElement::new(b)).as_int()
}

/// Relies on winterfell's `Sub` impl for `f128::BaseElement`: subtraction
/// modulo `MODULUS` on canonically stored values.
#[verifier::external_body]
pub(crate) fn felt_sub(a: u128, b: u128) -> (r: u128)
    requires
        a < MODULUS,
        b < MODULUS,
    ensures
        r < MODULUS,
        r as int == fsub(a as int, b as int),
{
    (BaseElement::new(a) - BaseElement::new(b)).as_int()
}

/// Relies on winterfell's `FieldElement::exp` for `f128::BaseElement`:
/// square-and-multiply exponentiation modulo `MODULUS`, with the zeroth
/// power of every element equal to one.
#[verifier::external_body]
pub(crate) fn felt_exp(base: u128, e: u128) -> (r: u128)
    requires
        base < MODULUS,
    ensures
        r < MODULUS,
        r as int == pow_mod(base as int, e as nat),
{
    BaseElement::new(base).exp(e).as_int()
}

} // verus!
