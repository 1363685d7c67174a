use circuit_frontend::arena::Arena;
use circuit_frontend::compiler::{Compiler, FaultingCircuit, SimpleMultiplyCircuit};
use circuit_frontend::context::{Node, SchemeType};
use circuit_frontend::params::{
    default_candidates, DefaultNoiseModel, NoiseEstimator, Params, PlainModulusConstraint,
    SecurityLevel,
};
use circuit_frontend::signature::TypeDesc;
use circuit_frontend::{BuildFault, Error};

#[test]
fn end_to_end_multiply_with_search() {
    let candidates = default_candidates(SecurityLevel::TC128);
    let arena = Arena::new();
    let (arena, result) = Compiler::with_circuit(SimpleMultiplyCircuit)
        .plain_modulus_constraint(PlainModulusConstraint::Raw(1_000_000))
        .security_level(SecurityLevel::TC128)
        .noise_margin_bits(10)
        .compile(arena, &candidates, &DefaultNoiseModel);
    assert_eq!(arena.allocated(), 0);

    let (circuit, params) = result.unwrap();

    // The selected set comes from the supported candidate table.
    assert!(candidates
        .iter()
        .any(|c| c.lattice_dimension == params.lattice_dimension
            && c.coeff_modulus == params.coeff_modulus));
    assert_eq!(params.plain_modulus, 1_000_000);
    assert_eq!(params.security_level, SecurityLevel::TC128);
    assert_eq!(params.lattice_dimension, 4096);
    assert_eq!(params.coeff_modulus, vec![54, 55]);

    // Two inputs feed one multiplication node feeding one output node.
    assert_eq!(
        circuit.nodes,
        vec![Node::Input, Node::Input, Node::Mul(0, 1), Node::Output(2)]
    );
    assert_eq!(
        circuit.signature.arguments,
        vec![TypeDesc::CipherSigned, TypeDesc::CipherSigned]
    );
    assert_eq!(circuit.signature.return_types, vec![TypeDesc::CipherSigned]);
    assert_eq!(circuit.signature.num_ciphertexts, vec![1]);
}

#[test]
fn accepted_params_meet_the_margin() {
    let candidates = default_candidates(SecurityLevel::TC128);
    let (arena, result) = Compiler::with_circuit(SimpleMultiplyCircuit)
        .plain_modulus_constraint(PlainModulusConstraint::Raw(1_000_000))
        .noise_margin_bits(10)
        .compile(Arena::new(), &candidates, &DefaultNoiseModel);
    assert_eq!(arena.allocated(), 0);
    let (circuit, params) = result.unwrap();
    let budget = DefaultNoiseModel.estimate_noise(&params, &circuit.nodes);
    assert!(budget >= 10);
}

#[test]
fn search_is_deterministic() {
    let candidates = default_candidates(SecurityLevel::TC128);
    let run = || {
        let (_, result) = Compiler::with_circuit(SimpleMultiplyCircuit)
            .find_params()
            .plain_modulus_constraint(PlainModulusConstraint::Raw(1_000_000))
            .security_level(SecurityLevel::TC128)
            .noise_margin_bits(10)
            .compile(Arena::new(), &candidates, &DefaultNoiseModel);
        result.unwrap()
    };
    let (c1, p1) = run();
    let (c2, p2) = run();
    assert_eq!(c1.nodes, c2.nodes);
    assert_eq!(p1.lattice_dimension, p2.lattice_dimension);
    assert_eq!(p1.coeff_modulus, p2.coeff_modulus);
    assert_eq!(p1.plain_modulus, p2.plain_modulus);
    assert_eq!(p1.security_level, p2.security_level);
}

#[test]
fn higher_security_levels_need_wider_parameters() {
    let run = |level: SecurityLevel| {
        let candidates = default_candidates(level);
        let (_, result) = Compiler::with_circuit(SimpleMultiplyCircuit)
            .plain_modulus_constraint(PlainModulusConstraint::Raw(1_000_000))
            .security_level(level)
            .noise_margin_bits(10)
            .compile(Arena::new(), &candidates, &DefaultNoiseModel);
        result.unwrap().1
    };
    let p192 = run(SecurityLevel::TC192);
    assert_eq!(p192.lattice_dimension, 4096);
    assert_eq!(p192.coeff_modulus, vec![37, 38]);
    let p256 = run(SecurityLevel::TC256);
    assert_eq!(p256.lattice_dimension, 8192);
    assert_eq!(p256.coeff_modulus, vec![39, 39, 40]);
}

#[test]
fn missing_constraint_is_reported_before_search() {
    let candidates = default_candidates(SecurityLevel::TC128);
    let (arena, result) = Compiler::with_circuit(SimpleMultiplyCircuit).compile(
        Arena::new(),
        &candidates,
        &DefaultNoiseModel,
    );
    assert_eq!(arena.allocated(), 0);
    assert_eq!(result.unwrap_err(), Error::MissingPlainModulusConstraint);
}

#[test]
fn impossible_margin_exhausts_the_search() {
    let candidates = default_candidates(SecurityLevel::TC128);
    let (arena, result) = Compiler::with_circuit(SimpleMultiplyCircuit)
        .plain_modulus_constraint(PlainModulusConstraint::Raw(1_000_000))
        .noise_margin_bits(100_000)
        .compile(Arena::new(), &candidates, &DefaultNoiseModel);
    assert_eq!(arena.allocated(), 0);
    assert_eq!(result.unwrap_err(), Error::SearchExhausted);
}

#[test]
fn wrong_level_candidates_are_skipped() {
    // Only candidates tabulated for the requested level are considered.
    let candidates = default_candidates(SecurityLevel::TC192);
    let (_, result) = Compiler::with_circuit(SimpleMultiplyCircuit)
        .plain_modulus_constraint(PlainModulusConstraint::Raw(1_000_000))
        .security_level(SecurityLevel::TC256)
        .compile(Arena::new(), &candidates, &DefaultNoiseModel);
    assert_eq!(result.unwrap_err(), Error::SearchExhausted);
}

#[test]
fn manual_params_skip_the_search() {
    let candidates = default_candidates(SecurityLevel::TC128);
    let manual = candidates
        .iter()
        .find(|c| c.lattice_dimension == 16384)
        .unwrap();
    let (arena, result) = Compiler::with_circuit(SimpleMultiplyCircuit)
        .with_params(manual)
        .compile(Arena::new(), &candidates, &DefaultNoiseModel);
    assert_eq!(arena.allocated(), 0);
    let (circuit, params) = result.unwrap();
    assert_eq!(params.lattice_dimension, 16384);
    assert_eq!(
        circuit.nodes,
        vec![Node::Input, Node::Input, Node::Mul(0, 1), Node::Output(2)]
    );
}

#[test]
fn scheme_mismatch_is_a_configuration_error() {
    let candidates = default_candidates(SecurityLevel::TC128);
    let manual = Params {
        scheme_type: SchemeType::Zkp,
        lattice_dimension: 4096,
        coeff_modulus: vec![54, 55],
        plain_modulus: 1_000_000,
        security_level: SecurityLevel::TC128,
    };
    let (arena, result) = Compiler::with_circuit(SimpleMultiplyCircuit)
        .with_params(&manual)
        .compile(Arena::new(), &candidates, &DefaultNoiseModel);
    assert_eq!(arena.allocated(), 0);
    assert_eq!(result.unwrap_err(), Error::IncorrectScheme);
}

#[test]
fn power_of_two_constraint_generates_the_modulus() {
    let candidates = default_candidates(SecurityLevel::TC128);
    let (_, result) = Compiler::with_circuit(SimpleMultiplyCircuit)
        .plain_modulus_constraint(PlainModulusConstraint::BitsMinimum(12))
        .compile(Arena::new(), &candidates, &DefaultNoiseModel);
    let (_, params) = result.unwrap();
    assert_eq!(params.plain_modulus, 4096);
}

#[test]
fn faulting_compilation_cleans_up_and_isolates() {
    let candidates = default_candidates(SecurityLevel::TC128);

    // A deliberately faulting compilation reports the fault and leaves the
    // arena reset.
    let (arena, result) = Compiler::with_circuit(FaultingCircuit)
        .plain_modulus_constraint(PlainModulusConstraint::Raw(1_000_000))
        .compile(Arena::new(), &candidates, &DefaultNoiseModel);
    assert_eq!(
        result.unwrap_err(),
        Error::Fault(BuildFault::MalformedGadgetShape)
    );
    assert_eq!(arena.allocated(), 0);

    // A subsequent, independent compilation on the same arena succeeds with
    // node indices starting at zero.
    let (arena, result) = Compiler::with_circuit(SimpleMultiplyCircuit)
        .plain_modulus_constraint(PlainModulusConstraint::Raw(1_000_000))
        .compile(arena, &candidates, &DefaultNoiseModel);
    assert_eq!(arena.allocated(), 0);
    let (circuit, _) = result.unwrap();
    assert_eq!(
        circuit.nodes,
        vec![Node::Input, Node::Input, Node::Mul(0, 1), Node::Output(2)]
    );
}

#[test]
fn arena_size_is_zero_after_every_compilation() {
    let candidates = default_candidates(SecurityLevel::TC128);
    let mut arena = Arena::new();
    for _ in 0..3 {
        let (a, result) = Compiler::with_circuit(SimpleMultiplyCircuit)
            .plain_modulus_constraint(PlainModulusConstraint::Raw(1_000_000))
            .compile(arena, &candidates, &DefaultNoiseModel);
        assert!(result.is_ok());
        assert_eq!(a.allocated(), 0);
        arena = a;
    }
}
