use bulletproofs::r1cs::{
    ConstraintSystem, Prover, R1CSError, R1CSProof, RandomizableConstraintSystem,
    RandomizedConstraintSystem, Verifier,
};
use bulletproofs::{BulletproofGens, PedersenGens};
use curve25519_dalek_ng::ristretto::CompressedRistretto;
use merlin::Transcript;
use zk_constraints::circuit::Action;
use zk_constraints::commitment::Commitment;
use zk_constraints::constraint::{Constraint, AND_CHALLENGE_LABEL};
use zk_constraints::expression::Expression;
use zk_constraints::linear::{LinearCombination, Wire};
use zk_constraints::scalar::Scalar;

type EngineScalar = curve25519_dalek_ng::scalar::Scalar;

fn to_engine(s: &Scalar) -> EngineScalar {
    EngineScalar::from_bytes_mod_order(s.to_bytes())
}

fn from_engine(s: &EngineScalar) -> Scalar {
    Scalar::from_bytes_mod_order(s.to_bytes())
}

fn engine_wire(w: Wire) -> bulletproofs::r1cs::Variable {
    match w {
        Wire::Committed(i) => bulletproofs::r1cs::Variable::Committed(i),
        Wire::MultiplierLeft(i) => bulletproofs::r1cs::Variable::MultiplierLeft(i),
        Wire::MultiplierRight(i) => bulletproofs::r1cs::Variable::MultiplierRight(i),
        Wire::MultiplierOutput(i) => bulletproofs::r1cs::Variable::MultiplierOutput(i),
        Wire::One => bulletproofs::r1cs::Variable::One(),
    }
}

fn engine_lc(lc: &LinearCombination) -> bulletproofs::r1cs::LinearCombination {
    lc.terms.iter().map(|(w, c)| (engine_wire(*w), to_engine(c))).collect()
}

fn gadget_error(description: &str) -> R1CSError {
    R1CSError::GadgetError { description: description.to_string() }
}

/// Draws the challenges, builds the circuit and hands its requests to the engine.
fn enforce<CS: RandomizedConstraintSystem>(
    constraint: Constraint,
    prover: bool,
    cs: &mut CS,
) -> Result<(), R1CSError> {
    let needed = constraint.challenges_needed().ok_or_else(|| gadget_error("too many challenges"))?;
    let mut challenges = Vec::new();
    for _ in 0..needed {
        challenges.push(from_engine(&cs.challenge_scalar(AND_CHALLENGE_LABEL.as_bytes())));
    }
    let mut next_gate = cs.metrics().multipliers;
    let circuit = constraint
        .compile(prover, next_gate, challenges)
        .map_err(|e| gadget_error(&format!("{:?}", e)))?;
    for action in circuit.actions().iter() {
        match action {
            Action::Multiply(left, right) => {
                let (l, _, _) = cs.multiply(engine_lc(left), engine_lc(right));
                assert_eq!(l, engine_wire(Wire::MultiplierLeft(next_gate)));
                next_gate += 1;
            }
            Action::AllocateMultiplier(inputs) => {
                let inputs = inputs.map(|(l, r)| (to_engine(&l), to_engine(&r)));
                let (l, _, _) = cs.allocate_multiplier(inputs)?;
                assert_eq!(l, engine_wire(Wire::MultiplierLeft(next_gate)));
                next_gate += 1;
            }
            Action::Constrain(lc) => cs.constrain(engine_lc(lc)),
        }
    }
    assert_eq!(next_gate, circuit.gate_count());
    Ok(())
}

fn prove(
    secrets: &[u64],
    build: fn(Vec<Expression>) -> Constraint,
) -> Result<(R1CSProof, Vec<CompressedRistretto>), R1CSError> {
    let pc_gens = PedersenGens::default();
    let bp_gens = BulletproofGens::new(128, 1);
    let mut transcript = Transcript::new(b"constraints");
    let mut prover = Prover::new(&pc_gens, &mut transcript);
    let mut points = Vec::new();
    let mut expressions = Vec::new();
    for (i, secret) in secrets.iter().enumerate() {
        let commitment = Commitment::blinded(Scalar::from_u64(*secret));
        let (value, blinding) = commitment.witness().unwrap();
        let (point, _) = prover.commit(to_engine(&value), to_engine(&blinding));
        assert_eq!(point.to_bytes(), commitment.to_point().bytes);
        points.push(point);
        expressions.push(Expression::wire(Wire::Committed(i), commitment.assignment()));
    }
    let constraint = build(expressions);
    prover.specify_randomized_constraints(move |cs| enforce(constraint, true, cs))?;
    Ok((prover.prove(&bp_gens)?, points))
}

fn check(
    proof: &R1CSProof,
    points: &[CompressedRistretto],
    build: fn(Vec<Expression>) -> Constraint,
) -> Result<(), R1CSError> {
    let pc_gens = PedersenGens::default();
    let bp_gens = BulletproofGens::new(128, 1);
    let mut transcript = Transcript::new(b"constraints");
    let mut verifier = Verifier::new(&mut transcript);
    let mut expressions = Vec::new();
    for (i, point) in points.iter().enumerate() {
        let commitment = Commitment::from(zk_constraints::commitment::CompressedPoint {
            bytes: point.to_bytes(),
        });
        verifier.commit(*point);
        expressions.push(Expression::wire(Wire::Committed(i), commitment.assignment()));
    }
    let constraint = build(expressions);
    verifier.specify_randomized_constraints(move |cs| enforce(constraint, false, cs))?;
    verifier.verify(proof, &pc_gens, &bp_gens)
}

fn accepted(secrets: &[u64], build: fn(Vec<Expression>) -> Constraint) -> bool {
    match prove(secrets, build) {
        Ok((proof, points)) => check(&proof, &points, build).is_ok(),
        Err(_) => false,
    }
}

fn constant(x: u64) -> Expression {
    Expression::constant(Scalar::from_u64(x))
}

fn both_are_three(v: Vec<Expression>) -> Constraint {
    Constraint::And(
        Box::new(Constraint::Eq(v[0].clone(), constant(3))),
        Box::new(Constraint::Eq(v[1].clone(), constant(3))),
    )
}

fn one_is_three(v: Vec<Expression>) -> Constraint {
    Constraint::Or(
        Box::new(Constraint::Eq(v[0].clone(), constant(3))),
        Box::new(Constraint::Eq(v[1].clone(), constant(3))),
    )
}

fn differ(v: Vec<Expression>) -> Constraint {
    Constraint::Not(Box::new(Constraint::Eq(v[0].clone(), v[1].clone())))
}

fn nested(v: Vec<Expression>) -> Constraint {
    // (v0 = 3 or v1 = 3) and not (v0 = v1) and not not (v2 = v0 + v1)
    let sum = v[0].clone().add(v[1].clone());
    Constraint::And(
        Box::new(Constraint::And(Box::new(one_is_three(v.clone())), Box::new(differ(v.clone())))),
        Box::new(Constraint::Not(Box::new(Constraint::Not(Box::new(Constraint::Eq(
            v[2].clone(),
            sum,
        )))))),
    )
}

#[test]
fn proof_of_a_conjunction() {
    assert!(accepted(&[3, 3], both_are_three));
    assert!(!accepted(&[3, 4], both_are_three));
    assert!(!accepted(&[4, 3], both_are_three));
    assert!(!accepted(&[4, 4], both_are_three));
}

#[test]
fn proof_of_a_disjunction() {
    assert!(accepted(&[3, 3], one_is_three));
    assert!(accepted(&[3, 4], one_is_three));
    assert!(accepted(&[4, 3], one_is_three));
    assert!(!accepted(&[4, 5], one_is_three));
}

#[test]
fn proof_of_a_negation() {
    assert!(accepted(&[3, 4], differ));
    assert!(accepted(&[0, 1], differ));
    assert!(!accepted(&[3, 3], differ));
    assert!(!accepted(&[0, 0], differ));
}

#[test]
fn proof_of_a_nested_constraint() {
    assert!(accepted(&[3, 4, 7], nested));
    assert!(accepted(&[9, 3, 12], nested));
    assert!(!accepted(&[3, 3, 6], nested));
    assert!(!accepted(&[3, 4, 8], nested));
    assert!(!accepted(&[5, 4, 9], nested));
}

#[test]
fn proof_for_other_secrets_is_rejected() {
    let (proof, _) = prove(&[3, 3], both_are_three).unwrap();
    let (_, other_points) = prove(&[3, 3], both_are_three).unwrap();
    assert!(check(&proof, &other_points, both_are_three).is_err());
}

/// Proves and checks that the third secret is the product of the first two,
/// with the product built in the first phase of the engine.
fn product_accepted(secrets: &[u64; 3]) -> bool {
    let pc_gens = PedersenGens::default();
    let bp_gens = BulletproofGens::new(128, 1);
    let mut transcript = Transcript::new(b"product");
    let mut prover = Prover::new(&pc_gens, &mut transcript);
    let mut points = Vec::new();
    let mut v = Vec::new();
    for (i, secret) in secrets.iter().enumerate() {
        let commitment = Commitment::blinded(Scalar::from_u64(*secret));
        let (value, blinding) = commitment.witness().unwrap();
        points.push(prover.commit(to_engine(&value), to_engine(&blinding)).0);
        v.push(Expression::wire(Wire::Committed(i), commitment.assignment()));
    }
    let mut circuit = zk_constraints::circuit::Circuit::new(true, prover.metrics().multipliers, Vec::new());
    let product = v[0].clone().multiply(v[1].clone(), &mut circuit);
    assert_eq!(circuit.gate_count(), 1);
    for action in circuit.actions().iter() {
        match action {
            Action::Multiply(l, r) => {
                prover.multiply(engine_lc(l), engine_lc(r));
            }
            _ => unreachable!(),
        }
    }
    let constraint = Constraint::Eq(product, v[2].clone());
    prover.specify_randomized_constraints(move |cs| enforce(constraint, true, cs)).unwrap();
    let proof = match prover.prove(&bp_gens) {
        Ok(proof) => proof,
        Err(_) => return false,
    };

    let mut transcript = Transcript::new(b"product");
    let mut verifier = Verifier::new(&mut transcript);
    let mut v = Vec::new();
    for (i, point) in points.iter().enumerate() {
        verifier.commit(*point);
        v.push(Expression::wire(Wire::Committed(i), None));
    }
    let mut circuit = zk_constraints::circuit::Circuit::new(false, verifier.metrics().multipliers, Vec::new());
    let product = v[0].clone().multiply(v[1].clone(), &mut circuit);
    for action in circuit.actions().iter() {
        match action {
            Action::Multiply(l, r) => {
                verifier.multiply(engine_lc(l), engine_lc(r));
            }
            _ => unreachable!(),
        }
    }
    let constraint = Constraint::Eq(product, v[2].clone());
    verifier.specify_randomized_constraints(move |cs| enforce(constraint, false, cs)).unwrap();
    verifier.verify(&proof, &pc_gens, &bp_gens).is_ok()
}

#[test]
fn proof_of_a_product() {
    assert!(product_accepted(&[3, 4, 12]));
    assert!(product_accepted(&[0, 4, 0]));
    assert!(!product_accepted(&[3, 4, 13]));
}
