//! Constraints: boolean functions of expressions, and their lowering to one
//! linear combination that is zero exactly where the constraint holds.

use crate::circuit::{gate_wires, ActionView, Circuit, CircuitView, R1CSError};
use crate::expression::{known_add, known_mul, option_view, Expression, ExpressionView};
use crate::linear::{negate_terms, scale_terms, LinearCombination, TermView, Wire};
use crate::scalar::{
    field_inverse, field_mul, field_sub, lemma_group_order_positive, Scalar,
};
use vstd::prelude::*;

verus! {

/// Why a constraint could not be added to a circuit.
#[derive(Clone, Copy, Debug, PartialEq, Eq)]
pub enum VMError {
    /// The constraint system refused a request.
    R1CSError(R1CSError),
    /// The constraint asks for more gates than can be numbered.
    TooManyGates,
}

/// The domain label under which the challenge of a conjunction is drawn.
pub const AND_CHALLENGE_LABEL: &'static str = "ZkVM.verify.and-challenge";

/// A boolean function of expressions and other constraints.
#[derive(Debug)]
pub enum Constraint {
    /// The two expressions are equal.
    Eq(Expression, Expression),
    /// Both constraints hold.
    And(Box<Constraint>, Box<Constraint>),
    /// At least one of the constraints holds.
    Or(Box<Constraint>, Box<Constraint>),
    /// The constraint does not hold.
    Not(Box<Constraint>),
}

/// A constraint as a mathematical value.
pub enum ConstraintView {
    Eq(ExpressionView, ExpressionView),
    And(Box<ConstraintView>, Box<ConstraintView>),
    Or(Box<ConstraintView>, Box<ConstraintView>),
    Not(Box<ConstraintView>),
}

impl Constraint {
    /// The constraint as a mathematical value.
    pub open spec fn model(self) -> ConstraintView
        decreases self,
    {
        match self {
            Constraint::Eq(e1, e2) => ConstraintView::Eq(e1@, e2@),
            Constraint::And(c1, c2) => ConstraintView::And(
                Box::new((*c1).model()),
                Box::new((*c2).model()),
            ),
            Constraint::Or(c1, c2) => ConstraintView::Or(
                Box::new((*c1).model()),
                Box::new((*c2).model()),
            ),
            Constraint::Not(c1) => ConstraintView::Not(Box::new((*c1).model())),
        }
    }
}

impl Clone for Constraint {
    fn clone(&self) -> (r: Constraint)
        ensures
            r@ == self@,
    {
        self.duplicate()
    }
}

impl View for Constraint {
    type V = ConstraintView;

    open spec fn view(&self) -> ConstraintView {
        self.model()
    }
}

/// The difference of two values, known where both are.
pub open spec fn known_sub(a: Option<nat>, b: Option<nat>) -> Option<nat> {
    match (a, b) {
        (Some(x), Some(y)) => Some(field_sub(x, y)),
        _ => None,
    }
}

/// The truth value that negation gives: one where `x` is zero, else zero.
pub open spec fn zero_indicator(x: nat) -> nat {
    if x == 0 {
        1
    } else {
        0
    }
}

/// The helper value of the negation: the inverse of `x`, and of one where
/// `x` is zero.
pub open spec fn inverse_helper(x: nat) -> nat {
    field_inverse(
        if x == 0 {
            1
        } else {
            x
        },
    )
}

/// The input values of the first gate of a negation, where `x` is known.
pub open spec fn indicator_inputs(x: Option<nat>) -> Option<(nat, nat)> {
    match x {
        Some(v) => Some((v, zero_indicator(v))),
        None => None,
    }
}

/// The input values of the second gate of a negation, where `x` is known.
pub open spec fn helper_inputs(x: Option<nat>) -> Option<(nat, nat)> {
    match x {
        Some(v) => Some((v, inverse_helper(v))),
        None => None,
    }
}

/// The truth value of a negation, where `x` is known.
pub open spec fn known_indicator(x: Option<nat>) -> Option<nat> {
    match x {
        Some(v) => Some(zero_indicator(v)),
        None => None,
    }
}

/// The four linear constraints of a negation of `x`, for the gates numbered
/// `gate` and `gate + 1`: the first gate's left input is `x`; the two
/// gates' left inputs are equal; the first gate's output is zero; the
/// second gate's output is one less the first gate's right input.
pub open spec fn negation_constraints(x: Seq<TermView>, gate: nat) -> Seq<Seq<TermView>> {
    let (l1, r1, o1) = gate_wires(gate);
    let (l2, _r2, o2) = gate_wires(gate + 1);
    seq![
        seq![(l1, 1nat)] + negate_terms(x),
        seq![(l1, 1nat)] + negate_terms(seq![(l2, 1nat)]),
        seq![(o1, 1nat)],
        seq![(o2, 1nat)] + negate_terms(seq![(Wire::One, 1nat)]) + seq![(r1, 1nat)],
    ]
}

/// The circuit after the negation of `x` was added to `cs`: two gates with
/// free inputs, then the four constraints.
pub open spec fn with_negation(cs: CircuitView, x: Seq<TermView>, x_value: Option<nat>) -> CircuitView {
    let constraints = negation_constraints(x, cs.gates);
    cs.with_gate(ActionView::AllocateMultiplier(indicator_inputs(x_value))).with_gate(
        ActionView::AllocateMultiplier(helper_inputs(x_value)),
    ).with_constraint(constraints[0]).with_constraint(constraints[1]).with_constraint(
        constraints[2],
    ).with_constraint(constraints[3])
}

/// What flattening gives: the linear combination with its value where
/// known, or the reason for failure; and the circuit afterwards.
pub struct Flattened {
    pub outcome: Result<(Seq<TermView>, Option<nat>), R1CSError>,
    pub circuit: CircuitView,
}

impl ConstraintView {
    /// The number of gates that flattening adds.
    pub open spec fn gate_count(self) -> nat
        decreases self,
    {
        match self {
            ConstraintView::Eq(_, _) => 0,
            ConstraintView::And(c1, c2) => c1.gate_count() + c2.gate_count(),
            ConstraintView::Or(c1, c2) => c1.gate_count() + c2.gate_count() + 1,
            ConstraintView::Not(c1) => c1.gate_count() + 2,
        }
    }

    /// The number of challenges that flattening draws.
    pub open spec fn challenge_count(self) -> nat
        decreases self,
    {
        match self {
            ConstraintView::Eq(_, _) => 0,
            ConstraintView::And(c1, c2) => c1.challenge_count() + c2.challenge_count() + 1,
            ConstraintView::Or(c1, c2) => c1.challenge_count() + c2.challenge_count(),
            ConstraintView::Not(c1) => c1.challenge_count(),
        }
    }

    /// The result of flattening the constraint into the circuit `cs`.
    ///
    /// An equality is the difference of its sides and takes nothing from
    /// the circuit. A conjunction is the first side plus a challenge times
    /// the second. A disjunction is the output of one gate whose inputs are
    /// the two sides. A negation takes two gates and four constraints, and
    /// its result is the right input of the first of them.
    ///
    /// A failure anywhere in the constraint is the failure of the whole, and
    /// leaves the circuit as it was: nothing of a constraint that cannot be
    /// flattened is kept.
    pub open spec fn flatten(self, cs: CircuitView) -> Flattened
        decreases self,
    {
        match self {
            ConstraintView::Eq(e1, e2) => Flattened {
                outcome: Ok(
                    (e1.terms() + negate_terms(e2.terms()), known_sub(e1.eval(), e2.eval())),
                ),
                circuit: cs,
            },
            ConstraintView::And(c1, c2) => {
                let first = c1.flatten(cs);
                match first.outcome {
                    Err(e) => Flattened { outcome: Err(e), circuit: cs },
                    Ok((a, a_value)) => {
                        let second = c2.flatten(first.circuit);
                        match second.outcome {
                            Err(e) => Flattened { outcome: Err(e), circuit: cs },
                            Ok((b, b_value)) => if second.circuit.challenges.len() == 0 {
                                Flattened {
                                    outcome: Err(R1CSError::MissingChallenge),
                                    circuit: cs,
                                }
                            } else {
                                let z = second.circuit.challenges[0];
                                Flattened {
                                    outcome: Ok(
                                        (
                                            a + scale_terms(b, z),
                                            known_add(a_value, known_mul(Some(z), b_value)),
                                        ),
                                    ),
                                    circuit: second.circuit.without_challenge(),
                                }
                            },
                        }
                    },
                }
            },
            ConstraintView::Or(c1, c2) => {
                let first = c1.flatten(cs);
                match first.outcome {
                    Err(e) => Flattened { outcome: Err(e), circuit: cs },
                    Ok((a, a_value)) => {
                        let second = c2.flatten(first.circuit);
                        match second.outcome {
                            Err(e) => Flattened { outcome: Err(e), circuit: cs },
                            Ok((b, b_value)) => Flattened {
                                outcome: Ok(
                                    (
                                        seq![(gate_wires(second.circuit.gates).2, 1nat)],
                                        known_mul(a_value, b_value),
                                    ),
                                ),
                                circuit: second.circuit.with_gate(ActionView::Multiply(a, b)),
                            },
                        }
                    },
                }
            },
            ConstraintView::Not(c1) => {
                let inner = c1.flatten(cs);
                match inner.outcome {
                    Err(e) => Flattened { outcome: Err(e), circuit: cs },
                    Ok((x, x_value)) => if !inner.circuit.admits(indicator_inputs(x_value)) {
                        Flattened { outcome: Err(R1CSError::MissingAssignment), circuit: cs }
                    } else {
                        Flattened {
                            outcome: Ok(
                                (
                                    seq![(gate_wires(inner.circuit.gates).1, 1nat)],
                                    known_indicator(x_value),
                                ),
                            ),
                            circuit: with_negation(inner.circuit, x, x_value),
                        }
                    },
                }
            },
        }
    }
}

/// What an executed flattening returned, as a mathematical value.
pub open spec fn outcome_view(r: Result<(LinearCombination, Option<Scalar>), R1CSError>) -> Result<
    (Seq<TermView>, Option<nat>),
    R1CSError,
> {
    match r {
        Ok((lc, value)) => Ok((lc@, option_view(value))),
        Err(e) => Err(e),
    }
}

/// The two secret values of a negation of `x`: the truth value, which is one
/// where `x` is zero and zero elsewhere, and a helper whose product with `x`
/// is one less the truth value. The choice between the two cases is made
/// without branching on `x`.
pub fn negation_witness(x: &Scalar) -> (r: (Scalar, Scalar))
    ensures
        r.0@ == zero_indicator(x@),
        r.1@ == inverse_helper(x@),
        x@ == 0 ==> r.1@ == 1,
        field_mul(x@, r.0@) == 0,
        field_mul(x@, r.1@) == field_sub(1, r.0@),
{
    let zero = Scalar::zero();
    let one = Scalar::one();
    let is_zero = x.ct_eq(&zero);
    let y = Scalar::conditional_select(&zero, &one, is_zero);
    let w = Scalar::conditional_select(x, &one, is_zero).invert();
    proof {
        lemma_group_order_positive();
        if x@ == 0 {
            assert(1 * w@ == w@) by (nonlinear_arith);
            crate::scalar::lemma_scalar_in_field(w);
            vstd::arithmetic::div_mod::lemma_small_mod(w@, crate::scalar::group_order());
        }
        assert(field_mul(x@, y@) == 0) by {
            if x@ == 0 {
                assert(x@ * y@ == 0) by (nonlinear_arith)
                    requires
                        x@ == 0,
                ;
            } else {
                assert(x@ * y@ == 0) by (nonlinear_arith)
                    requires
                        y@ == 0,
                ;
            }
            vstd::arithmetic::div_mod::lemma_small_mod(0, crate::scalar::group_order());
        }
        assert(field_mul(x@, w@) == field_sub(1, y@)) by {
            if x@ == 0 {
                assert(x@ * w@ == 0) by (nonlinear_arith)
                    requires
                        x@ == 0,
                ;
                vstd::arithmetic::div_mod::lemma_small_mod(0, crate::scalar::group_order());
            } else {
                vstd::arithmetic::div_mod::lemma_small_mod(1, crate::scalar::group_order());
            }
        }
    }
    (y, w)
}

/// Adds to `cs` the negation of the flattened constraint `x`, whose secret
/// value is `x_value` where known: two gates, one with inputs `x` and the
/// truth value and one with inputs `x` and the helper, and four
/// constraints that tie them to `x`. The result is the right input of the
/// first of the two gates, which carries the truth value.
///
/// A prover who does not know the value fails, and nothing is added.
pub fn negate(x: LinearCombination, x_value: Option<Scalar>, cs: &mut Circuit) -> (r: Result<
    (LinearCombination, Option<Scalar>),
    R1CSError,
>)
    requires
        old(cs)@.gates + 2 <= usize::MAX,
    ensures
        old(cs)@.admits(indicator_inputs(option_view(x_value))) ==> outcome_view(r) == Ok::<
            _,
            R1CSError,
        >((seq![(gate_wires(old(cs)@.gates).1, 1nat)], known_indicator(option_view(x_value))))
            && final(cs)@ == with_negation(old(cs)@, x@, option_view(x_value)),
        !old(cs)@.admits(indicator_inputs(option_view(x_value))) ==> r == Err::<
            (LinearCombination, Option<Scalar>),
            _,
        >(R1CSError::MissingAssignment) && final(cs)@ == old(cs)@,
{
    let (xy_assg, xw_assg, y_assg) = match x_value {
        Some(x) => {
            let (y, w) = negation_witness(&x);
            (Some((x, y)), Some((x, w)), Some(y))
        },
        None => (None, None, None),
    };
    let (l1, r1, o1) = match cs.allocate_multiplier(xy_assg) {
        Ok(wires) => wires,
        Err(e) => {
            return Err(e);
        },
    };
    let (l2, _r2, o2) = match cs.allocate_multiplier(xw_assg) {
        Ok(wires) => wires,
        Err(e) => {
            return Err(e);
        },
    };
    cs.constrain(LinearCombination::from_wire(l1).minus(x));
    cs.constrain(LinearCombination::from_wire(l1).minus(LinearCombination::from_wire(l2)));
    cs.constrain(LinearCombination::from_wire(o1));
    cs.constrain(
        LinearCombination::from_wire(o2).minus(LinearCombination::from_scalar(Scalar::one())).plus(
            LinearCombination::from_wire(r1),
        ),
    );
    Ok((LinearCombination::from_wire(r1), y_assg))
}

impl Constraint {
    /// A copy of the constraint, with a copy of everything below it.
    pub fn duplicate(&self) -> (r: Constraint)
        ensures
            r@ == self@,
        decreases self,
    {
        match self {
            Constraint::Eq(e1, e2) => Constraint::Eq(e1.duplicate(), e2.duplicate()),
            Constraint::And(c1, c2) => Constraint::And(
                Box::new(c1.duplicate()),
                Box::new(c2.duplicate()),
            ),
            Constraint::Or(c1, c2) => Constraint::Or(
                Box::new(c1.duplicate()),
                Box::new(c2.duplicate()),
            ),
            Constraint::Not(c1) => Constraint::Not(Box::new(c1.duplicate())),
        }
    }

    /// The number of gates that flattening adds, or `None` where it does
    /// not fit the machine's integers.
    pub fn gates_needed(&self) -> (r: Option<usize>)
        ensures
            match r {
                Some(n) => n == self@.gate_count(),
                None => self@.gate_count() > usize::MAX,
            },
        decreases self,
    {
        match self {
            Constraint::Eq(_, _) => Some(0),
            Constraint::And(c1, c2) => match (c1.gates_needed(), c2.gates_needed()) {
                (Some(a), Some(b)) => a.checked_add(b),
                _ => None,
            },
            Constraint::Or(c1, c2) => match (c1.gates_needed(), c2.gates_needed()) {
                (Some(a), Some(b)) => match a.checked_add(b) {
                    Some(n) => n.checked_add(1),
                    None => None,
                },
                _ => None,
            },
            Constraint::Not(c1) => match c1.gates_needed() {
                Some(a) => a.checked_add(2),
                None => None,
            },
        }
    }

    /// The number of challenges that flattening draws, or `None` where it
    /// does not fit the machine's integers.
    pub fn challenges_needed(&self) -> (r: Option<usize>)
        ensures
            match r {
                Some(n) => n == self@.challenge_count(),
                None => self@.challenge_count() > usize::MAX,
            },
        decreases self,
    {
        match self {
            Constraint::Eq(_, _) => Some(0),
            Constraint::And(c1, c2) => match (c1.challenges_needed(), c2.challenges_needed()) {
                (Some(a), Some(b)) => match a.checked_add(b) {
                    Some(n) => n.checked_add(1),
                    None => None,
                },
                _ => None,
            },
            Constraint::Or(c1, c2) => match (c1.challenges_needed(), c2.challenges_needed()) {
                (Some(a), Some(b)) => a.checked_add(b),
                _ => None,
            },
            Constraint::Not(c1) => c1.challenges_needed(),
        }
    }

    /// Lowers the constraint to one linear combination, which is zero
    /// exactly where the constraint holds, together with its secret value
    /// where every secret below it is known. Gates, constraints and
    /// challenges are taken from `cs` as the constraint's shape asks.
    ///
    /// Fails where a conjunction finds no challenge left, and where a prover
    /// negates a constraint whose value is unknown. A failure leaves `cs` as
    /// it was: the constraint is flattened into a copy of the circuit, which
    /// takes the place of `cs` only on success.
    pub fn flatten(self, cs: &mut Circuit) -> (r: Result<
        (LinearCombination, Option<Scalar>),
        R1CSError,
    >)
        requires
            old(cs)@.gates + self@.gate_count() <= usize::MAX,
        ensures
            outcome_view(r) == self@.flatten(old(cs)@).outcome,
            final(cs)@ == self@.flatten(old(cs)@).circuit,
            r.is_err() ==> final(cs)@ == old(cs)@,
    {
        let mut scratch = cs.duplicate();
        let r = self.flatten_into(&mut scratch);
        if r.is_ok() {
            *cs = scratch;
        }
        r
    }

    /// Flattens the constraint into `cs` step by step. On success `cs` holds
    /// what the constraint added; on failure it holds what was added
    /// before the failure, and is of no further use.
    fn flatten_into(self, cs: &mut Circuit) -> (r: Result<
        (LinearCombination, Option<Scalar>),
        R1CSError,
    >)
        requires
            old(cs)@.gates + self@.gate_count() <= usize::MAX,
        ensures
            outcome_view(r) == self@.flatten(old(cs)@).outcome,
            r.is_ok() ==> final(cs)@ == self@.flatten(old(cs)@).circuit,
            final(cs)@.prover == old(cs)@.prover,
            final(cs)@.gates <= old(cs)@.gates + self@.gate_count(),
        decreases self,
    {
        match self {
            Constraint::Eq(expr1, expr2) => {
                let assignment = match (expr1.eval(), expr2.eval()) {
                    (Some(x), Some(y)) => Some(x.sub(&y)),
                    _ => None,
                };
                Ok((expr1.to_r1cs_lc().minus(expr2.to_r1cs_lc()), assignment))
            },
            Constraint::And(c1, c2) => {
                let (a, a_assg) = match (*c1).flatten_into(cs) {
                    Ok(flat) => flat,
                    Err(e) => {
                        return Err(e);
                    },
                };
                let (b, b_assg) = match (*c2).flatten_into(cs) {
                    Ok(flat) => flat,
                    Err(e) => {
                        return Err(e);
                    },
                };
                let z = match cs.challenge_scalar() {
                    Ok(z) => z,
                    Err(e) => {
                        return Err(e);
                    },
                };
                let assignment = match (a_assg, b_assg) {
                    (Some(a), Some(b)) => Some(a.add(&z.mul(&b))),
                    _ => None,
                };
                Ok((a.plus(b.times(&z)), assignment))
            },
            Constraint::Or(c1, c2) => {
                let (a, a_assg) = match (*c1).flatten_into(cs) {
                    Ok(flat) => flat,
                    Err(e) => {
                        return Err(e);
                    },
                };
                let (b, b_assg) = match (*c2).flatten_into(cs) {
                    Ok(flat) => flat,
                    Err(e) => {
                        return Err(e);
                    },
                };
                let (_l, _r, o) = cs.multiply(a, b);
                let assignment = match (a_assg, b_assg) {
                    (Some(a), Some(b)) => Some(a.mul(&b)),
                    _ => None,
                };
                Ok((LinearCombination::from_wire(o), assignment))
            },
            Constraint::Not(c1) => {
                let (x_lc, x_assg) = match (*c1).flatten_into(cs) {
                    Ok(flat) => flat,
                    Err(e) => {
                        return Err(e);
                    },
                };
                negate(x_lc, x_assg, cs)
            },
        }
    }

    /// Builds the circuit that enforces the constraint, for a prover or for
    /// a verifier: a circuit whose first gate gets the number `first_gate`
    /// and which hands out the given challenges, with the constraint
    /// flattened into it and the result constrained to zero.
    ///
    /// Fails with `TooManyGates` where the gates cannot be numbered, and
    /// else with the error of flattening.
    pub fn compile(self, prover: bool, first_gate: usize, challenges: Vec<Scalar>) -> (r: Result<
        Circuit,
        VMError,
    >)
        ensures
            ({
                let start = CircuitView {
                    prover,
                    gates: first_gate as nat,
                    challenges: crate::circuit::scalars_view(challenges@),
                    actions: Seq::empty(),
                };
                if first_gate + self@.gate_count() > usize::MAX {
                    r matches Err(e) && e == VMError::TooManyGates
                } else {
                    match self@.flatten(start).outcome {
                        Ok((lc, _)) => r matches Ok(cs) && cs@ == self@.flatten(
                            start,
                        ).circuit.with_constraint(lc),
                        Err(e) => r matches Err(err) && err == VMError::R1CSError(e),
                    }
                }
            }),
    {
        let fits = match self.gates_needed() {
            Some(n) => n <= usize::MAX - first_gate,
            None => false,
        };
        if !fits {
            return Err(VMError::TooManyGates);
        }
        let mut cs = Circuit::new(prover, first_gate, challenges);
        match self.flatten_into(&mut cs) {
            Ok((expr, _)) => {
                cs.constrain(expr);
                Ok(cs)
            },
            Err(e) => Err(VMError::R1CSError(e)),
        }
    }

    /// Adds to `cs` what enforces that the constraint holds: the constraint
    /// is flattened, and the resulting linear combination is constrained to
    /// zero. Either all of this is added or none of it: where flattening
    /// fails, its error is returned and `cs` is left as it was.
    pub fn verify(self, cs: &mut Circuit) -> (r: Result<(), VMError>)
        requires
            old(cs)@.gates + self@.gate_count() <= usize::MAX,
        ensures
            match self@.flatten(old(cs)@).outcome {
                Ok((lc, _)) => r == Ok::<(), VMError>(()) && final(cs)@ == self@.flatten(
                    old(cs)@,
                ).circuit.with_constraint(lc),
                Err(e) => r == Err::<(), _>(VMError::R1CSError(e)) && final(cs)@ == old(cs)@,
            },
    {
        match self.flatten(cs) {
            Ok((expr, _)) => {
                cs.constrain(expr);
                Ok(())
            },
            Err(e) => Err(VMError::R1CSError(e)),
        }
    }
}

} // verus!
