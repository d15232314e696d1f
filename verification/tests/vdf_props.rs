use vdf_stark::air::{VdfAir, VdfInputs};
use vdf_stark::field::MODULUS;
use vdf_stark::prover::{
    evaluate_matches_trace, ExtensionKind, HashKind, ProofParams, VdfProver,
};
use vdf_stark::vdf::{transition, vdf};

use winterfell::math::fields::f128::BaseElement;
use winterfell::Serializable;

fn params() -> ProofParams {
    ProofParams {
        num_queries: 32,
        blowup_factor: 8,
        grinding_factor: 0,
        hash_kind: HashKind::Blake3_256,
        extension_kind: ExtensionKind::Base,
        fri_folding_factor: 4,
        fri_max_remainder_size: 256,
    }
}

#[test]
fn evaluator_matches_trace_last_row() {
    for n in [1usize, 2, 3, 4, 17, 1024] {
        let trace = VdfProver::build_trace(5, n);
        assert_eq!(vdf(5, n), trace[n - 1]);
        assert!(evaluate_matches_trace(5, n));
    }
    assert!(evaluate_matches_trace(MODULUS - 1, 17));
}

#[test]
fn trace_starts_at_seed_and_steps_by_transition() {
    let seed: u128 = 123456789;
    let n: usize = 17;
    let trace = VdfProver::build_trace(seed, n);
    assert_eq!(trace.len(), n);
    assert_eq!(trace[0], seed);
    for i in 1..n {
        assert_eq!(trace[i], transition(trace[i - 1]));
    }
}

#[test]
fn trace_building_is_deterministic() {
    let a = VdfProver::build_trace(987654321, 33);
    let b = VdfProver::build_trace(987654321, 33);
    assert_eq!(a, b);
}

#[test]
fn concrete_scenario_seed_five_four_steps() {
    let state1 = transition(5);
    let state2 = transition(state1);
    let state3 = transition(state2);
    assert_eq!(vdf(5, 4), state3);
    assert_eq!(VdfProver::build_trace(5, 4), vec![5, state1, state2, state3]);
}

#[test]
fn transition_fixed_points() {
    // 43 - 42 == 1, and every power of one is one.
    assert_eq!(transition(43), 1);
    // 42 - 42 == 0, and every positive power of zero is zero.
    assert_eq!(transition(42), 0);
    // A single-row run applies no transition at all.
    assert_eq!(vdf(77, 1), 77);
}

#[test]
fn constraint_exact_values() {
    let air = VdfAir::new(8, VdfInputs { seed: 5, result: 0 });
    // 44 - (0^3 + 42) == 2.
    assert_eq!(air.evaluate_transition(44, 0), 2);
    // 50 - (2^3 + 42) == 0: the cube is really taken.
    assert_eq!(air.evaluate_transition(50, 2), 0);
    // 49 - (2^3 + 42) wraps around to the field's minus one.
    assert_eq!(air.evaluate_transition(49, 2), MODULUS - 1);
    // 0 - (0^3 + 42) wraps around to minus forty-two.
    assert_eq!(air.evaluate_transition(0, 0), MODULUS - 42);
}

#[test]
fn constraint_vanishes_on_valid_trace() {
    let trace = VdfProver::build_trace(5, 16);
    let air = VdfAir::new(16, VdfInputs { seed: 5, result: trace[15] });
    for i in 0..15 {
        assert_eq!(air.evaluate_transition(trace[i], trace[i + 1]), 0);
    }
    // ... and not on a corrupted pair.
    assert_ne!(air.evaluate_transition(trace[0], trace[2]), 0);
}

#[test]
fn boundary_assertions_pin_first_and_last_rows() {
    let air = VdfAir::new(16, VdfInputs { seed: 5, result: 99 });
    let assertions = air.get_assertions();
    assert_eq!(assertions.len(), 2);
    assert_eq!(assertions[0].column, 0);
    assert_eq!(assertions[0].step, 0);
    assert_eq!(assertions[0].value, 5);
    assert_eq!(assertions[1].column, 0);
    assert_eq!(assertions[1].step, 15);
    assert_eq!(assertions[1].value, 99);
}

#[test]
fn declared_degree_is_three() {
    let air = VdfAir::new(8, VdfInputs { seed: 0, result: 0 });
    assert_eq!(air.transition_constraint_degrees(), vec![3]);
}

#[test]
fn pub_inputs_are_first_and_last_rows() {
    let prover = VdfProver::new(params());
    let trace = VdfProver::build_trace(5, 4);
    let inputs = prover.get_pub_inputs(&trace);
    assert_eq!(inputs.seed, 5);
    assert_eq!(inputs.result, transition(transition(transition(5))));
}

#[test]
fn prover_keeps_its_options() {
    let prover = VdfProver::new(params());
    assert_eq!(*prover.options(), params());
}

#[test]
fn inputs_serialize_seed_first_little_endian() {
    let inputs = VdfInputs { seed: 5, result: MODULUS - 1 };
    let bytes = inputs.to_bytes();
    assert_eq!(bytes.len(), 32);
    let mut expected = Vec::new();
    expected.extend_from_slice(&5u128.to_le_bytes());
    expected.extend_from_slice(&(MODULUS - 1).to_le_bytes());
    assert_eq!(bytes, expected);
}

#[test]
fn inputs_serialization_matches_engine_encoding() {
    let inputs = VdfInputs { seed: 123456789, result: MODULUS - 7 };
    let mut expected: Vec<u8> = Vec::new();
    BaseElement::new(inputs.seed).write_into(&mut expected);
    BaseElement::new(inputs.result).write_into(&mut expected);
    assert_eq!(inputs.to_bytes(), expected);
}
