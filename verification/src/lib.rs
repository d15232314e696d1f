//! A verifiable delay function (VDF) over a 128-bit prime field, together
//! with the execution-trace construction and the algebraic constraint system
//! that make a run of it provable by a STARK engine.
//!
//! The sequential step is `x -> (x - 42)^INV_ALPHA`: expensive to compute
//! forward, because the exponent is on the order of the field size, yet
//! cheap to check backward, because the inverse relation
//! `next^ALPHA == current - 42` has polynomial degree `ALPHA == 3`.

pub mod air;
pub mod field;
pub mod prover;
pub mod vdf;
