//! Expressions: constants and linear combinations of wires, each with the
//! secret value it stands for where the caller knows it.

use crate::circuit::{gate_wires, ActionView, Circuit};
use crate::linear::{
    copied, negate_terms, negated, scale_terms, scaled, terms_view, LinearCombination, TermView, Wire,
};
use crate::scalar::{field_add, field_mul, field_neg, Scalar, ScalarWitness};
use vstd::prelude::*;

verus! {

/// The value of a scalar that may be absent.
pub open spec fn option_view(s: Option<Scalar>) -> Option<nat> {
    match s {
        Some(x) => Some(x@),
        None => None,
    }
}

/// The sum of two values, known where both are.
pub open spec fn known_add(a: Option<nat>, b: Option<nat>) -> Option<nat> {
    match (a, b) {
        (Some(x), Some(y)) => Some(field_add(x, y)),
        _ => None,
    }
}

/// The product of two values, known where both are.
pub open spec fn known_mul(a: Option<nat>, b: Option<nat>) -> Option<nat> {
    match (a, b) {
        (Some(x), Some(y)) => Some(field_mul(x, y)),
        _ => None,
    }
}

/// The negation of a value, known where the value is.
pub open spec fn known_neg(a: Option<nat>) -> Option<nat> {
    match a {
        Some(x) => Some(field_neg(x)),
        None => None,
    }
}

/// A linear combination of wires and constants.
#[derive(Debug)]
pub enum Expression {
    /// A constant. Operations on constants give constants.
    Constant(ScalarWitness),
    /// Terms over wires, and the value of their sum where every wire's
    /// secret is known. One with no terms stands for zero, and is kept as it is.
    LinearCombination(Vec<(Wire, Scalar)>, Option<ScalarWitness>),
}

/// An expression as a mathematical value.
pub enum ExpressionView {
    Constant(nat),
    LinearCombination(Seq<TermView>, Option<nat>),
}

impl Clone for Expression {
    fn clone(&self) -> (r: Expression)
        ensures
            r@ == self@,
    {
        self.duplicate()
    }
}

impl View for Expression {
    type V = ExpressionView;

    open spec fn view(&self) -> ExpressionView {
        match self {
            Expression::Constant(a) => ExpressionView::Constant(a@),
            Expression::LinearCombination(terms, assignment) => ExpressionView::LinearCombination(
                terms_view(terms@),
                option_view(*assignment),
            ),
        }
    }
}

impl ExpressionView {
    /// Whether the expression is a constant.
    pub open spec fn is_constant(self) -> bool {
        self is Constant
    }

    /// The value the expression stands for, where it is known.
    pub open spec fn eval(self) -> Option<nat> {
        match self {
            ExpressionView::Constant(a) => Some(a),
            ExpressionView::LinearCombination(_, assignment) => assignment,
        }
    }

    /// The terms of the expression: a constant is a term on the wire one.
    pub open spec fn terms(self) -> Seq<TermView> {
        match self {
            ExpressionView::Constant(a) => seq![(Wire::One, a)],
            ExpressionView::LinearCombination(terms, _) => terms,
        }
    }

    /// The negated expression.
    pub open spec fn neg(self) -> ExpressionView {
        match self {
            ExpressionView::Constant(a) => ExpressionView::Constant(field_neg(a)),
            ExpressionView::LinearCombination(terms, assignment) => {
                ExpressionView::LinearCombination(negate_terms(terms), known_neg(assignment))
            },
        }
    }

    /// The sum of two expressions. A constant joins a linear combination as
    /// a term on the wire one: in front where it stands on the left, at the
    /// end where it stands on the right.
    pub open spec fn plus(self, rhs: ExpressionView) -> ExpressionView {
        match (self, rhs) {
            (ExpressionView::Constant(l), ExpressionView::Constant(r)) => {
                ExpressionView::Constant(field_add(l, r))
            },
            (ExpressionView::Constant(l), ExpressionView::LinearCombination(terms, assignment)) => {
                ExpressionView::LinearCombination(
                    seq![(Wire::One, l)] + terms,
                    known_add(Some(l), assignment),
                )
            },
            (ExpressionView::LinearCombination(terms, assignment), ExpressionView::Constant(r)) => {
                ExpressionView::LinearCombination(
                    terms.push((Wire::One, r)),
                    known_add(assignment, Some(r)),
                )
            },
            (
                ExpressionView::LinearCombination(left, left_assignment),
                ExpressionView::LinearCombination(right, right_assignment),
            ) => {
                ExpressionView::LinearCombination(
                    left + right,
                    known_add(left_assignment, right_assignment),
                )
            },
        }
    }

    /// Whether multiplying the two expressions takes a gate: only where
    /// neither is a constant.
    pub open spec fn needs_gate(self, rhs: ExpressionView) -> bool {
        !self.is_constant() && !rhs.is_constant()
    }

    /// The product of two expressions, where a gate that the product takes
    /// gets the number `gate`. A constant scales the other side; two linear
    /// combinations give the output wire of that gate.
    pub open spec fn times(self, rhs: ExpressionView, gate: nat) -> ExpressionView {
        match (self, rhs) {
            (ExpressionView::Constant(l), ExpressionView::Constant(r)) => {
                ExpressionView::Constant(field_mul(l, r))
            },
            (ExpressionView::Constant(l), ExpressionView::LinearCombination(terms, assignment)) => {
                ExpressionView::LinearCombination(
                    scale_terms(terms, l),
                    known_mul(assignment, Some(l)),
                )
            },
            (ExpressionView::LinearCombination(terms, assignment), ExpressionView::Constant(r)) => {
                ExpressionView::LinearCombination(
                    scale_terms(terms, r),
                    known_mul(assignment, Some(r)),
                )
            },
            (
                ExpressionView::LinearCombination(_, left_assignment),
                ExpressionView::LinearCombination(_, right_assignment),
            ) => {
                ExpressionView::LinearCombination(
                    seq![(gate_wires(gate).2, 1nat)],
                    known_mul(left_assignment, right_assignment),
                )
            },
        }
    }
}

impl Expression {
    /// The constant expression with the given value.
    pub fn constant(a: ScalarWitness) -> (r: Expression)
        ensures
            r@ == ExpressionView::Constant(a@),
    {
        Expression::Constant(a)
    }

    /// The expression that is one wire, with the wire's secret where known.
    pub fn wire(wire: Wire, assignment: Option<ScalarWitness>) -> (r: Expression)
        ensures
            r@ == ExpressionView::LinearCombination(seq![(wire, 1nat)], option_view(assignment)),
    {
        let mut terms: Vec<(Wire, Scalar)> = Vec::new();
        terms.push((wire, Scalar::one()));
        assert(terms_view(terms@) =~= seq![(wire, 1nat)]);
        Expression::LinearCombination(terms, assignment)
    }

    /// A copy of the expression.
    pub fn duplicate(&self) -> (r: Expression)
        ensures
            r@ == self@,
    {
        match self {
            Expression::Constant(a) => Expression::Constant(*a),
            Expression::LinearCombination(terms, assignment) => Expression::LinearCombination(
                copied(terms),
                *assignment,
            ),
        }
    }

    /// The value the expression stands for, or `None` where it is unknown.
    pub fn eval(&self) -> (r: Option<ScalarWitness>)
        ensures
            option_view(r) == self@.eval(),
    {
        match self {
            Expression::Constant(a) => Some(*a),
            Expression::LinearCombination(_, assignment) => match assignment {
                Some(a) => Some(*a),
                None => None,
            },
        }
    }

    /// The expression as a linear combination for the constraint system.
    pub fn to_r1cs_lc(&self) -> (r: LinearCombination)
        ensures
            r@ == self@.terms(),
    {
        match self {
            Expression::Constant(a) => LinearCombination::from_scalar(*a),
            Expression::LinearCombination(terms, _) => {
                LinearCombination::from_terms(copied(terms))
            },
        }
    }

    /// The negated expression. No gate is involved.
    pub fn neg(self) -> (r: Expression)
        ensures
            r@ == self@.neg(),
    {
        match self {
            Expression::Constant(a) => Expression::Constant(a.neg()),
            Expression::LinearCombination(terms, assignment) => {
                let flipped = negated(&terms);
                let value = match assignment {
                    Some(a) => Some(a.neg()),
                    None => None,
                };
                Expression::LinearCombination(flipped, value)
            },
        }
    }

    /// The sum of two expressions. No gate is involved.
    pub fn add(self, rhs: Expression) -> (r: Expression)
        ensures
            r@ == self@.plus(rhs@),
    {
        match (self, rhs) {
            (Expression::Constant(left), Expression::Constant(right)) => {
                Expression::Constant(left.add(&right))
            },
            (Expression::Constant(l), Expression::LinearCombination(right_terms, right_assignment)) => {
                let mut terms = right_terms;
                terms.insert(0, (Wire::One, l));
                let value = match right_assignment {
                    Some(r) => Some(l.add(&r)),
                    None => None,
                };
                assert(terms_view(terms@) =~= seq![(Wire::One, l@)] + terms_view(right_terms@));
                Expression::LinearCombination(terms, value)
            },
            (Expression::LinearCombination(left_terms, left_assignment), Expression::Constant(r)) => {
                let mut terms = left_terms;
                terms.push((Wire::One, r));
                let value = match left_assignment {
                    Some(l) => Some(l.add(&r)),
                    None => None,
                };
                assert(terms_view(terms@) =~= terms_view(left_terms@).push((Wire::One, r@)));
                Expression::LinearCombination(terms, value)
            },
            (
                Expression::LinearCombination(left_terms, left_assignment),
                Expression::LinearCombination(right_terms, right_assignment),
            ) => {
                let mut terms = left_terms;
                let mut tail = right_terms;
                terms.append(&mut tail);
                let value = match (left_assignment, right_assignment) {
                    (Some(l), Some(r)) => Some(l.add(&r)),
                    _ => None,
                };
                assert(terms_view(terms@) =~= terms_view(left_terms@) + terms_view(right_terms@));
                Expression::LinearCombination(terms, value)
            },
        }
    }

    /// The product of two expressions. A gate is added to `cs` only where
    /// neither side is a constant, and then exactly one: its inputs are
    /// constrained to the two sides, and its output wire is the product.
    pub fn multiply(self, rhs: Expression, cs: &mut Circuit) -> (r: Expression)
        requires
            self@.needs_gate(rhs@) ==> old(cs)@.gates < usize::MAX,
        ensures
            r@ == self@.times(rhs@, old(cs)@.gates),
            self@.needs_gate(rhs@) ==> final(cs)@ == old(cs)@.with_gate(
                ActionView::Multiply(self@.terms(), rhs@.terms()),
            ),
            !self@.needs_gate(rhs@) ==> final(cs)@ == old(cs)@,
    {
        match (self, rhs) {
            (Expression::Constant(left), Expression::Constant(right)) => {
                Expression::Constant(left.mul(&right))
            },
            (Expression::Constant(l), Expression::LinearCombination(right_terms, right_assignment)) => {
                let terms = scaled(&right_terms, &l);
                let value = match right_assignment {
                    Some(r) => Some(r.mul(&l)),
                    None => None,
                };
                Expression::LinearCombination(terms, value)
            },
            (Expression::LinearCombination(left_terms, left_assignment), Expression::Constant(r)) => {
                let terms = scaled(&left_terms, &r);
                let value = match left_assignment {
                    Some(l) => Some(l.mul(&r)),
                    None => None,
                };
                Expression::LinearCombination(terms, value)
            },
            (
                Expression::LinearCombination(left_terms, left_assignment),
                Expression::LinearCombination(right_terms, right_assignment),
            ) => {
                let (_, _, output) = cs.multiply(
                    LinearCombination::from_terms(left_terms),
                    LinearCombination::from_terms(right_terms),
                );
                let value = match (left_assignment, right_assignment) {
                    (Some(l), Some(r)) => Some(l.mul(&r)),
                    _ => None,
                };
                let mut terms: Vec<(Wire, Scalar)> = Vec::new();
                terms.push((output, Scalar::one()));
                assert(terms_view(terms@) =~= seq![(output, 1nat)]);
                Expression::LinearCombination(terms, value)
            },
        }
    }
}

} // verus!
