use circom_builder::builder::CircomBuilder;
use circom_builder::builder::CircomConfig;
use circom_builder::builder::WitnessEvaluator;
use circom_builder::errors::BuildError;
use circom_builder::inputs::Inputs;
use circom_builder::r1cs::Constraint;
use circom_builder::r1cs::LinTerm;
use circom_builder::r1cs::R1cs;
use num_bigint::BigInt;

fn bi(n: i64) -> BigInt {
    BigInt::from(n)
}

fn term(wire: usize, coeff: i64) -> LinTerm {
    LinTerm {
        wire,
        coeff: bi(coeff),
    }
}

/// Wires: 0 = constant one, 1 = public output y, 2 = input x.
/// One constraint: x * x = y, over the field of order 101.
fn x_squared_system() -> R1cs {
    R1cs {
        prime: bi(101),
        num_wires: 3,
        constraints: vec![Constraint {
            a: vec![term(2, 1)],
            b: vec![term(2, 1)],
            c: vec![term(1, 1)],
        }],
        wire_mapping: Some(vec![0, 1, 2]),
    }
}

/// A witness evaluator matching `x_squared_system`: reads the scalar input
/// named `x` and assigns `[1, x * x mod 101, x]`.
struct SquareEvaluator;

impl WitnessEvaluator for SquareEvaluator {
    fn calculate_witness(
        &mut self,
        inputs: Vec<(String, Vec<BigInt>)>,
        _sanity_check: bool,
    ) -> Result<Vec<BigInt>, String> {
        for (name, values) in inputs {
            if name == "x" && values.len() == 1 {
                let x = values[0].clone();
                let y = (&x * &x) % bi(101);
                return Ok(vec![bi(1), y, x]);
            }
        }
        Err("missing input x".to_string())
    }
}

/// An evaluator that parrots a fixed reply, whatever the inputs.
struct FixedEvaluator {
    reply: Result<Vec<BigInt>, String>,
}

impl WitnessEvaluator for FixedEvaluator {
    fn calculate_witness(
        &mut self,
        _inputs: Vec<(String, Vec<BigInt>)>,
        _sanity_check: bool,
    ) -> Result<Vec<BigInt>, String> {
        self.reply.clone()
    }
}

#[test]
fn config_new_disables_sanity_check() {
    let cfg = CircomConfig::new(SquareEvaluator, x_squared_system());
    assert!(!cfg.sanity_check);
    assert_eq!(cfg.r1cs, x_squared_system());
}

#[test]
fn builder_new_has_no_inputs() {
    let builder = CircomBuilder::new(CircomConfig::new(SquareEvaluator, x_squared_system()));
    assert!(builder.inputs.is_empty());
}

#[test]
fn push_input_keeps_first_value() {
    let mut builder = CircomBuilder::new(CircomConfig::new(SquareEvaluator, x_squared_system()));
    builder.push_input("a".to_string(), Inputs::BigInt(bi(1)));
    builder.push_input("a".to_string(), Inputs::BigInt(bi(2)));
    assert_eq!(builder.inputs.len(), 1);
    assert_eq!(builder.inputs[0].0, "a");
    assert_eq!(builder.inputs[0].1, Inputs::BigInt(bi(1)));
}

#[test]
fn push_input_keeps_insertion_order() {
    let mut builder = CircomBuilder::new(CircomConfig::new(SquareEvaluator, x_squared_system()));
    builder.push_input("b".to_string(), Inputs::BigInt(bi(1)));
    builder.push_input("a".to_string(), Inputs::BigInt(bi(2)));
    builder.push_input("b".to_string(), Inputs::BigInt(bi(3)));
    let names: Vec<&str> = builder.inputs.iter().map(|e| e.0.as_str()).collect();
    assert_eq!(names, vec!["b", "a"]);
}

#[test]
fn duplicate_push_does_not_reach_the_build() {
    let mut builder = CircomBuilder::new(CircomConfig::new(SquareEvaluator, x_squared_system()));
    builder.push_input("x".to_string(), Inputs::BigInt(bi(3)));
    builder.push_input("x".to_string(), Inputs::BigInt(bi(5)));
    let circuit = builder.build().unwrap();
    let witness = circuit.witness.unwrap();
    assert_eq!(witness[1], bi(9));
}

#[test]
fn setup_is_pure_in_the_inputs() {
    let bare = CircomBuilder::new(CircomConfig::new(SquareEvaluator, x_squared_system()));
    let mut loaded = CircomBuilder::new(CircomConfig::new(SquareEvaluator, x_squared_system()));
    loaded.push_input("x".to_string(), Inputs::BigInt(bi(3)));
    loaded.push_input("z".to_string(), Inputs::BigIntVec(vec![bi(1), bi(2)]));
    let a = bare.setup();
    let b = loaded.setup();
    assert_eq!(a.r1cs, b.r1cs);
    assert!(a.witness.is_none());
    assert!(b.witness.is_none());
}

#[test]
fn setup_discards_the_wire_mapping() {
    let builder = CircomBuilder::new(CircomConfig::new(SquareEvaluator, x_squared_system()));
    let circuit = builder.setup();
    assert!(circuit.r1cs.wire_mapping.is_none());
    assert_eq!(circuit.r1cs.prime, bi(101));
    assert_eq!(circuit.r1cs.num_wires, 3);
    assert_eq!(circuit.r1cs.constraints, x_squared_system().constraints);
}

#[test]
fn build_is_deterministic() {
    let mut first = CircomBuilder::new(CircomConfig::new(SquareEvaluator, x_squared_system()));
    let mut second = CircomBuilder::new(CircomConfig::new(SquareEvaluator, x_squared_system()));
    for builder in [&mut first, &mut second] {
        builder.push_input("x".to_string(), Inputs::BigInt(bi(7)));
    }
    let a = first.build().unwrap();
    let b = second.build().unwrap();
    assert_eq!(a.witness, b.witness);
    assert_eq!(a.r1cs, b.r1cs);
}

#[test]
fn sanity_check_passes_on_a_consistent_evaluator() {
    let mut cfg = CircomConfig::new(SquareEvaluator, x_squared_system());
    cfg.sanity_check = true;
    let mut builder = CircomBuilder::new(cfg);
    builder.push_input("x".to_string(), Inputs::BigInt(bi(10)));
    let circuit = builder.build().unwrap();
    assert_eq!(circuit.witness.unwrap(), vec![bi(1), bi(100), bi(10)]);
}

#[test]
fn end_to_end_x_squared() {
    let mut builder = CircomBuilder::new(CircomConfig::new(SquareEvaluator, x_squared_system()));
    builder.push_input("x".to_string(), Inputs::BigInt(bi(3)));
    let circuit = builder.build().unwrap();
    let witness = circuit.witness.clone().unwrap();
    assert_eq!(witness, vec![bi(1), bi(9), bi(3)]);
    assert_eq!(circuit.r1cs.first_unsatisfied(&witness), None);
}

#[test]
fn evaluator_failure_is_surfaced_verbatim() {
    let builder = CircomBuilder::new(CircomConfig::new(SquareEvaluator, x_squared_system()));
    let r = builder.build();
    assert_eq!(
        r,
        Err(BuildError::WitnessComputation("missing input x".to_string()))
    );
}

#[test]
fn wrong_length_reply_is_refused() {
    let evaluator = FixedEvaluator {
        reply: Ok(vec![bi(1), bi(9)]),
    };
    let builder = CircomBuilder::new(CircomConfig::new(evaluator, x_squared_system()));
    match builder.build() {
        Err(BuildError::WitnessComputation(_)) => {}
        other => panic!("expected a witness-computation error, got {:?}", other),
    }
}

#[test]
fn sanity_check_reports_the_violated_constraint() {
    let evaluator = FixedEvaluator {
        reply: Ok(vec![bi(1), bi(8), bi(3)]),
    };
    let mut cfg = CircomConfig::new(evaluator, x_squared_system());
    cfg.sanity_check = true;
    let builder = CircomBuilder::new(cfg);
    assert_eq!(builder.build(), Err(BuildError::SanityCheckFailure(0)));
}

#[test]
fn disabled_sanity_check_stores_the_reply_verbatim() {
    let evaluator = FixedEvaluator {
        reply: Ok(vec![bi(1), bi(8), bi(3)]),
    };
    let builder = CircomBuilder::new(CircomConfig::new(evaluator, x_squared_system()));
    let circuit = builder.build().unwrap();
    let witness = circuit.witness.clone().unwrap();
    assert_eq!(witness, vec![bi(1), bi(8), bi(3)]);
    assert_eq!(circuit.r1cs.first_unsatisfied(&witness), Some(0));
}

#[test]
fn satisfaction_respects_the_modulus() {
    let system = x_squared_system();
    // 110 is 9 modulo 101, so x = 3 still satisfies x * x = y.
    assert_eq!(system.first_unsatisfied(&vec![bi(1), bi(110), bi(3)]), None);
    // A negative x squares to the same value.
    assert_eq!(system.first_unsatisfied(&vec![bi(1), bi(9), bi(-3)]), None);
    // A near miss with a negative difference is still a violation.
    assert_eq!(
        system.first_unsatisfied(&vec![bi(1), bi(20), bi(-3)]),
        Some(0)
    );
}

#[test]
fn wf_check_accepts_the_example_and_rejects_bad_shapes() {
    assert!(x_squared_system().wf_check());
    let mut no_modulus = x_squared_system();
    no_modulus.prime = bi(0);
    assert!(!no_modulus.wf_check());
    let mut dangling_wire = x_squared_system();
    dangling_wire.constraints[0].b[0].wire = 3;
    assert!(!dangling_wire.wf_check());
}
