//! What holds of flattening for every constraint and every circuit.
//!
//! Truth is represented by zero: a constraint holds exactly where the value
//! of its flattened linear combination is zero.
//!
//! Most laws are proof functions. Those that rest on the scalars being a
//! field are executable functions on scalars: that a scalar other than zero
//! has an inverse is known of the scalar that `invert` returns.

use crate::circuit::{Circuit, CircuitView, R1CSError};
use crate::constraint::{zero_indicator, Constraint, ConstraintView};
use crate::expression::ExpressionView;
use crate::linear::TermView;
use crate::scalar::{
    field_add, field_mul, field_sub, group_order, lemma_group_order_positive,
    lemma_scalar_in_field, Scalar,
};
use vstd::arithmetic::div_mod::{
    lemma_add_mod_noop_right, lemma_mod_equivalence, lemma_small_mod,
};
use vstd::prelude::*;

verus! {

impl ExpressionView {
    /// Whether the value of the expression is known and lies in the field.
    pub open spec fn known(self) -> bool {
        self.eval().is_some() && self.eval().unwrap() < group_order()
    }
}

impl ConstraintView {
    /// Whether the value of every expression in the constraint is known.
    pub open spec fn known(self) -> bool
        decreases self,
    {
        match self {
            ConstraintView::Eq(e1, e2) => e1.known() && e2.known(),
            ConstraintView::And(c1, c2) => c1.known() && c2.known(),
            ConstraintView::Or(c1, c2) => c1.known() && c2.known(),
            ConstraintView::Not(c1) => c1.known(),
        }
    }

    /// The secret value that flattening into `cs` gives, where flattening
    /// succeeds and the value is known.
    pub open spec fn value(self, cs: CircuitView) -> Option<nat> {
        match self.flatten(cs).outcome {
            Ok((_, value)) => value,
            Err(_) => None,
        }
    }
}

/// Flattening adds everything or nothing: where it fails, the circuit is
/// as it was before.
pub proof fn lemma_flatten_is_atomic(c: ConstraintView, cs: CircuitView)
    ensures
        c.flatten(cs).outcome.is_err() ==> c.flatten(cs).circuit == cs,
{
}

/// Whatever the outcome, flattening keeps the requests that the circuit
/// held and adds to them, removes no gate, and leaves the role of the
/// circuit as it was.
pub proof fn lemma_flatten_only_adds(c: ConstraintView, cs: CircuitView)
    ensures
        cs.actions.is_prefix_of(c.flatten(cs).circuit.actions),
        c.flatten(cs).circuit.gates >= cs.gates,
        c.flatten(cs).circuit.prover == cs.prover,
    decreases c,
{
    match c {
        ConstraintView::Eq(_, _) => {},
        ConstraintView::And(c1, c2) => {
            lemma_flatten_only_adds(*c1, cs);
            lemma_flatten_only_adds(*c2, c1.flatten(cs).circuit);
        },
        ConstraintView::Or(c1, c2) => {
            lemma_flatten_only_adds(*c1, cs);
            lemma_flatten_only_adds(*c2, c1.flatten(cs).circuit);
        },
        ConstraintView::Not(c1) => {
            lemma_flatten_only_adds(*c1, cs);
        },
    }
}

/// Where flattening succeeds, it has added exactly the constraint's number
/// of gates and handed out exactly its number of challenges, first come
/// first.
pub proof fn lemma_flatten_takes_what_it_counts(c: ConstraintView, cs: CircuitView)
    requires
        c.flatten(cs).outcome.is_ok(),
    ensures
        cs.challenges.len() >= c.challenge_count(),
        c.flatten(cs).circuit.gates == cs.gates + c.gate_count(),
        c.flatten(cs).circuit.challenges == cs.challenges.skip(c.challenge_count() as int),
    decreases c,
{
    match c {
        ConstraintView::Eq(_, _) => {
            assert(cs.challenges.skip(0) =~= cs.challenges);
        },
        ConstraintView::And(c1, c2) => {
            lemma_flatten_takes_what_it_counts(*c1, cs);
            let first = c1.flatten(cs);
            lemma_flatten_takes_what_it_counts(*c2, first.circuit);
            let second = c2.flatten(first.circuit);
            assert(second.circuit.challenges.skip(1) =~= cs.challenges.skip(
                c.challenge_count() as int,
            ));
        },
        ConstraintView::Or(c1, c2) => {
            lemma_flatten_takes_what_it_counts(*c1, cs);
            let first = c1.flatten(cs);
            lemma_flatten_takes_what_it_counts(*c2, first.circuit);
            assert(cs.challenges.skip(c1.challenge_count() as int).skip(
                c2.challenge_count() as int,
            ) =~= cs.challenges.skip(c.challenge_count() as int));
        },
        ConstraintView::Not(c1) => {
            lemma_flatten_takes_what_it_counts(*c1, cs);
        },
    }
}

/// Flattening succeeds wherever the circuit holds as many challenges as the
/// constraint has conjunctions and, for a prover, every value in the
/// constraint is known. The value of the result is then known wherever
/// every value in the constraint is.
pub proof fn lemma_flatten_succeeds(c: ConstraintView, cs: CircuitView)
    requires
        cs.challenges.len() >= c.challenge_count(),
        !cs.prover || c.known(),
    ensures
        c.flatten(cs).outcome.is_ok(),
        c.known() ==> c.value(cs).is_some(),
    decreases c,
{
    match c {
        ConstraintView::Eq(_, _) => {},
        ConstraintView::And(c1, c2) => {
            lemma_flatten_succeeds(*c1, cs);
            lemma_flatten_takes_what_it_counts(*c1, cs);
            lemma_flatten_only_adds(*c1, cs);
            let first = c1.flatten(cs);
            lemma_flatten_succeeds(*c2, first.circuit);
            lemma_flatten_takes_what_it_counts(*c2, first.circuit);
        },
        ConstraintView::Or(c1, c2) => {
            lemma_flatten_succeeds(*c1, cs);
            lemma_flatten_takes_what_it_counts(*c1, cs);
            lemma_flatten_only_adds(*c1, cs);
            lemma_flatten_succeeds(*c2, c1.flatten(cs).circuit);
        },
        ConstraintView::Not(c1) => {
            lemma_flatten_succeeds(*c1, cs);
            lemma_flatten_only_adds(*c1, cs);
        },
    }
}

/// A verifier's flattening succeeds exactly where the circuit holds as
/// many challenges as the constraint has conjunctions, and fails for want
/// of a challenge alone.
pub proof fn lemma_verifier_succeeds_iff_challenges_suffice(c: ConstraintView, cs: CircuitView)
    requires
        !cs.prover,
    ensures
        c.flatten(cs).outcome.is_ok() <==> cs.challenges.len() >= c.challenge_count(),
        c.flatten(cs).outcome.is_err() ==> c.flatten(cs).outcome == Err::<
            (Seq<TermView>, Option<nat>),
            _,
        >(R1CSError::MissingChallenge),
    decreases c,
{
    if cs.challenges.len() >= c.challenge_count() {
        lemma_flatten_succeeds(c, cs);
    }
    if c.flatten(cs).outcome.is_ok() {
        lemma_flatten_takes_what_it_counts(c, cs);
    }
    match c {
        ConstraintView::Eq(_, _) => {},
        ConstraintView::And(c1, c2) => {
            lemma_verifier_succeeds_iff_challenges_suffice(*c1, cs);
            lemma_flatten_only_adds(*c1, cs);
            lemma_verifier_succeeds_iff_challenges_suffice(*c2, c1.flatten(cs).circuit);
        },
        ConstraintView::Or(c1, c2) => {
            lemma_verifier_succeeds_iff_challenges_suffice(*c1, cs);
            lemma_flatten_only_adds(*c1, cs);
            lemma_verifier_succeeds_iff_challenges_suffice(*c2, c1.flatten(cs).circuit);
        },
        ConstraintView::Not(c1) => {
            lemma_verifier_succeeds_iff_challenges_suffice(*c1, cs);
            lemma_flatten_only_adds(*c1, cs);
        },
    }
}

/// A prover who knows every value in the constraint succeeds exactly where
/// the circuit holds as many challenges as the constraint has conjunctions.
pub proof fn lemma_prover_succeeds_iff_challenges_suffice(c: ConstraintView, cs: CircuitView)
    requires
        c.known(),
    ensures
        c.flatten(cs).outcome.is_ok() <==> cs.challenges.len() >= c.challenge_count(),
{
    if cs.challenges.len() >= c.challenge_count() {
        lemma_flatten_succeeds(c, cs);
    }
    if c.flatten(cs).outcome.is_ok() {
        lemma_flatten_takes_what_it_counts(c, cs);
    }
}

/// Sums, differences and products of field elements lie in the field.
pub proof fn lemma_field_ops_in_field(a: nat, b: nat)
    ensures
        field_add(a, b) < group_order(),
        field_sub(a, b) < group_order(),
        field_mul(a, b) < group_order(),
{
    lemma_group_order_positive();
    vstd::arithmetic::div_mod::lemma_mod_bound((a + b) as int, group_order() as int);
    vstd::arithmetic::div_mod::lemma_mod_bound(a - b, group_order() as int);
    assert(a * b >= 0) by (nonlinear_arith);
    vstd::arithmetic::div_mod::lemma_mod_bound((a * b) as int, group_order() as int);
}

/// The value that flattening gives, where it gives one, lies in the field.
pub proof fn lemma_value_in_field(c: ConstraintView, cs: CircuitView)
    requires
        c.value(cs).is_some(),
    ensures
        c.value(cs).unwrap() < group_order(),
{
    lemma_group_order_positive();
    match c {
        ConstraintView::Eq(e1, e2) => {
            lemma_field_ops_in_field(e1.eval().unwrap(), e2.eval().unwrap());
        },
        ConstraintView::And(c1, c2) => {
            let first = c1.flatten(cs);
            let second = c2.flatten(first.circuit);
            let b = field_mul(second.circuit.challenges[0], c2.value(first.circuit).unwrap());
            lemma_field_ops_in_field(c1.value(cs).unwrap(), b);
        },
        ConstraintView::Or(c1, c2) => {
            let first = c1.flatten(cs);
            lemma_field_ops_in_field(c1.value(cs).unwrap(), c2.value(first.circuit).unwrap());
        },
        ConstraintView::Not(_) => {},
    }
}

/// An equality of two expressions with known values flattens to zero
/// exactly where the two values are equal, and takes nothing from the
/// circuit.
pub proof fn lemma_equality_is_zero_iff_equal(e1: ExpressionView, e2: ExpressionView, cs: CircuitView)
    requires
        e1.known(),
        e2.known(),
    ensures
        ConstraintView::Eq(e1, e2).value(cs).is_some(),
        ConstraintView::Eq(e1, e2).value(cs).unwrap() == 0 <==> e1.eval() == e2.eval(),
        ConstraintView::Eq(e1, e2).flatten(cs).circuit == cs,
{
    let a = e1.eval().unwrap();
    let b = e2.eval().unwrap();
    lemma_difference_is_zero_iff_equal(a, b);
}

/// The difference of two field elements is zero exactly where they are equal.
pub proof fn lemma_difference_is_zero_iff_equal(a: nat, b: nat)
    requires
        a < group_order(),
        b < group_order(),
    ensures
        field_sub(a, b) == 0 <==> a == b,
{
    lemma_group_order_positive();
    lemma_mod_equivalence(a as int, b as int, group_order() as int);
    lemma_small_mod(a, group_order());
    lemma_small_mod(b, group_order());
}

/// The value of a conjunction: the first value plus the challenge times the second.
pub open spec fn conjunction_value(a: nat, b: nat, z: nat) -> nat {
    field_add(a, field_mul(z, b))
}

/// A conjunction of two constraints with known values flattens to the
/// first value plus the challenge times the second, where the challenge is
/// the one that the circuit hands out after both sides are flattened.
pub proof fn lemma_conjunction_value(c1: ConstraintView, c2: ConstraintView, cs: CircuitView)
    requires
        ConstraintView::And(Box::new(c1), Box::new(c2)).value(cs).is_some(),
    ensures
        c1.value(cs).is_some(),
        c2.value(c1.flatten(cs).circuit).is_some(),
        c2.flatten(c1.flatten(cs).circuit).circuit.challenges.len() > 0,
        ConstraintView::And(Box::new(c1), Box::new(c2)).value(cs) == Some(
            conjunction_value(
                c1.value(cs).unwrap(),
                c2.value(c1.flatten(cs).circuit).unwrap(),
                c2.flatten(c1.flatten(cs).circuit).circuit.challenges[0],
            ),
        ),
{
}

/// Where both sides of a conjunction are zero, the conjunction is zero
/// whatever the challenge. Where the second side is zero, the conjunction
/// is zero exactly where the first side is, whatever the challenge.
pub proof fn lemma_conjunction_of_zeros(a: nat, b: nat, z: nat)
    requires
        a < group_order(),
        b < group_order(),
    ensures
        a == 0 && b == 0 ==> conjunction_value(a, b, z) == 0,
        b == 0 ==> (conjunction_value(a, b, z) == 0 <==> a == 0),
{
    lemma_group_order_positive();
    if b == 0 {
        assert(z * b == 0) by (nonlinear_arith)
            requires
                b == 0,
        ;
        lemma_small_mod(0, group_order());
        lemma_small_mod(a, group_order());
    }
}

/// A conjunction that is zero under two different challenges has both
/// sides zero: for sides that are not both zero, at most one challenge
/// makes the conjunction zero. The scalars are the values of the two sides
/// and the two challenges.
pub fn conjunction_is_sound(a: &Scalar, b: &Scalar, z1: &Scalar, z2: &Scalar)
    ensures
        z1@ != z2@ && conjunction_value(a@, b@, z1@) == 0 && conjunction_value(a@, b@, z2@) == 0
            ==> a@ == 0 && b@ == 0,
{
    let difference = z1.sub(z2);
    product_is_zero_iff_a_factor_is(&difference, b);
    proof {
        lemma_scalar_in_field(*a);
        lemma_scalar_in_field(*b);
        lemma_scalar_in_field(*z1);
        lemma_scalar_in_field(*z2);
        lemma_group_order_positive();
        if z1@ != z2@ && conjunction_value(a@, b@, z1@) == 0 && conjunction_value(a@, b@, z2@)
            == 0 {
            let m = group_order() as int;
            lemma_difference_is_zero_iff_equal(z1@, z2@);
            lemma_add_mod_noop_right(a@ as int, (z1@ * b@) as int, m);
            lemma_add_mod_noop_right(a@ as int, (z2@ * b@) as int, m);
            let x = (a@ + z1@ * b@) as int;
            let y = (a@ + z2@ * b@) as int;
            lemma_mod_equivalence(x, y, m);
            assert(x - y == (z1@ - z2@) * b@) by (nonlinear_arith)
                requires
                    x == a@ + z1@ * b@,
                    y == a@ + z2@ * b@,
            ;
            vstd::arithmetic::div_mod::lemma_mul_mod_noop_left(z1@ - z2@, b@ as int, m);
            assert(field_mul(difference@, b@) == 0);
            lemma_conjunction_of_zeros(a@, b@, z1@);
        }
    }
}

/// A disjunction of two constraints with known values flattens to the
/// product of the two values, and adds one gate beyond those of its sides.
pub proof fn lemma_disjunction_value(c1: ConstraintView, c2: ConstraintView, cs: CircuitView)
    requires
        ConstraintView::Or(Box::new(c1), Box::new(c2)).value(cs).is_some(),
    ensures
        c1.value(cs).is_some(),
        c2.value(c1.flatten(cs).circuit).is_some(),
        ConstraintView::Or(Box::new(c1), Box::new(c2)).value(cs) == Some(
            field_mul(c1.value(cs).unwrap(), c2.value(c1.flatten(cs).circuit).unwrap()),
        ),
        ConstraintView::Or(Box::new(c1), Box::new(c2)).flatten(cs).circuit.gates
            == c2.flatten(c1.flatten(cs).circuit).circuit.gates + 1,
{
}

/// A product is zero wherever one of its factors is zero.
pub proof fn lemma_product_with_zero(a: nat, b: nat)
    ensures
        a == 0 || b == 0 ==> field_mul(a, b) == 0,
{
    lemma_group_order_positive();
    if a == 0 || b == 0 {
        assert(a * b == 0) by (nonlinear_arith)
            requires
                a == 0 || b == 0,
        ;
        lemma_small_mod(0, group_order());
    }
}

/// Where the product of a field element with an inverse of another is
/// taken, a zero product of that other with `b` leaves `b` zero.
proof fn lemma_cancellation(a: nat, inverse: nat, b: nat)
    requires
        field_mul(a, inverse) == 1,
        field_mul(a, b) == 0,
        b < group_order(),
    ensures
        b == 0,
{
    lemma_group_order_positive();
    let m = group_order() as int;
    // b = (inverse * a) * b = inverse * (a * b) = 0, all modulo the group order.
    vstd::arithmetic::div_mod::lemma_mul_mod_noop_left((inverse * a) as int, b as int, m);
    vstd::arithmetic::div_mod::lemma_mul_mod_noop_right(inverse as int, (a * b) as int, m);
    assert((inverse * a) * b == inverse * (a * b)) by (nonlinear_arith);
    assert(inverse * a == a * inverse) by (nonlinear_arith);
    assert(1 * b == b && inverse * 0 == 0) by (nonlinear_arith);
    lemma_small_mod(b, group_order());
    lemma_small_mod(0, group_order());
}

/// A disjunction is zero exactly where at least one of its sides is zero,
/// and so is not zero exactly where neither side is: the product of two
/// scalars is zero only where one of them is, because every scalar other
/// than zero has an inverse. The scalars are the values of the two sides.
pub fn product_is_zero_iff_a_factor_is(a: &Scalar, b: &Scalar)
    ensures
        field_mul(a@, b@) == 0 <==> a@ == 0 || b@ == 0,
        field_mul(a@, b@) != 0 <==> a@ != 0 && b@ != 0,
{
    let inverse = a.invert();
    proof {
        lemma_product_with_zero(a@, b@);
        lemma_scalar_in_field(*b);
        if a@ != 0 && field_mul(a@, b@) == 0 {
            lemma_cancellation(a@, inverse@, b@);
        }
    }
}

/// A disjunction of two constraints with known values flattens to zero
/// exactly where at least one of the two flattens to zero, and to another
/// value exactly where neither does. `a` and `b` are the values of the two
/// sides.
pub fn disjunction_is_zero_iff_a_side_is(
    c1: &Constraint,
    c2: &Constraint,
    cs: &Circuit,
    a: &Scalar,
    b: &Scalar,
)
    requires
        c1@.value(cs@) == Some(a@),
        c2@.value(c1@.flatten(cs@).circuit) == Some(b@),
    ensures
        ({
            let either = ConstraintView::Or(Box::new(c1@), Box::new(c2@));
            &&& either.value(cs@) == Some(field_mul(a@, b@))
            &&& either.value(cs@).unwrap() == 0 <==> a@ == 0 || b@ == 0
            &&& either.value(cs@).unwrap() != 0 <==> a@ != 0 && b@ != 0
        }),
{
    product_is_zero_iff_a_factor_is(a, b);
}

/// A negation of a constraint with a known value flattens to one where
/// that value is zero and to zero where it is not, and adds two gates and
/// four constraints beyond what the constraint below it adds.
pub proof fn lemma_negation_value(c: ConstraintView, cs: CircuitView)
    requires
        c.value(cs).is_some(),
    ensures
        ConstraintView::Not(Box::new(c)).value(cs) == Some(zero_indicator(c.value(cs).unwrap())),
        ConstraintView::Not(Box::new(c)).flatten(cs).circuit.gates == c.flatten(cs).circuit.gates
            + 2,
        ConstraintView::Not(Box::new(c)).flatten(cs).circuit.actions.len() == c.flatten(
            cs,
        ).circuit.actions.len() + 6,
{
}

/// For an expression whose value `x` is zero or one, the negation of
/// "`x` equals zero" flattens to the opposite truth value `1 - x`, and the
/// negation of that negation flattens to `x` again.
pub proof fn lemma_double_negation(e: ExpressionView, cs: CircuitView)
    requires
        e.eval() == Some(0nat) || e.eval() == Some(1nat),
    ensures
        ({
            let is_zero = ConstraintView::Eq(e, ExpressionView::Constant(0));
            let not = ConstraintView::Not(Box::new(is_zero));
            let not_not = ConstraintView::Not(Box::new(not));
            &&& is_zero.value(cs) == e.eval()
            &&& not.value(cs) == Some((1 - e.eval().unwrap()) as nat)
            &&& not_not.value(cs) == e.eval()
        }),
{
    lemma_group_order_positive();
    let x = e.eval().unwrap();
    lemma_small_mod(x, group_order());
    let is_zero = ConstraintView::Eq(e, ExpressionView::Constant(0));
    assert(is_zero.value(cs) == Some(x));
    let not = ConstraintView::Not(Box::new(is_zero));
    lemma_negation_value(is_zero, cs);
    lemma_negation_value(not, cs);
}

} // verus!
