use zk_constraints::circuit::{Action, Circuit};
use zk_constraints::expression::Expression;
use zk_constraints::linear::{LinearCombination, Wire};
use zk_constraints::scalar::Scalar;

fn s(x: u64) -> Scalar {
    Scalar::from_u64(x)
}

fn terms_of(e: &Expression) -> Vec<(Wire, Scalar)> {
    e.to_r1cs_lc().terms
}

#[test]
fn constant_times_constant_takes_no_gate() {
    let mut cs = Circuit::new(true, 0, Vec::new());
    let product = Expression::constant(s(6)).multiply(Expression::constant(s(7)), &mut cs);
    assert!(matches!(product, Expression::Constant(_)));
    assert_eq!(product.eval(), Some(s(42)));
    assert_eq!(cs.gate_count(), 0);
    assert!(cs.actions().is_empty());
}

#[test]
fn constant_times_linear_scales_without_a_gate() {
    let mut cs = Circuit::new(true, 3, Vec::new());
    let x = Expression::wire(Wire::Committed(0), Some(s(5))).add(Expression::constant(s(2)));
    let left = Expression::constant(s(3)).multiply(x.clone(), &mut cs);
    let right = x.multiply(Expression::constant(s(3)), &mut cs);
    let expected = vec![(Wire::Committed(0), s(3)), (Wire::One, s(6))];
    assert_eq!(terms_of(&left), expected);
    assert_eq!(terms_of(&right), expected);
    assert_eq!(left.eval(), Some(s(21)));
    assert_eq!(right.eval(), Some(s(21)));
    assert_eq!(cs.gate_count(), 3);
    assert!(cs.actions().is_empty());
}

#[test]
fn linear_times_linear_takes_exactly_one_gate() {
    let mut cs = Circuit::new(true, 3, Vec::new());
    let x = Expression::wire(Wire::Committed(0), Some(s(5)));
    let y = Expression::wire(Wire::Committed(1), Some(s(4)));
    let product = x.multiply(y, &mut cs);
    assert_eq!(terms_of(&product), vec![(Wire::MultiplierOutput(3), s(1))]);
    assert_eq!(product.eval(), Some(s(20)));
    assert_eq!(cs.gate_count(), 4);
    assert_eq!(
        cs.actions(),
        &vec![Action::Multiply(
            LinearCombination::from_wire(Wire::Committed(0)),
            LinearCombination::from_wire(Wire::Committed(1)),
        )]
    );
}

#[test]
fn product_with_an_unknown_side_is_unknown() {
    let mut cs = Circuit::new(false, 0, Vec::new());
    let x = Expression::wire(Wire::Committed(0), None);
    let y = Expression::wire(Wire::Committed(1), Some(s(4)));
    assert_eq!(x.clone().multiply(y.clone(), &mut cs).eval(), None);
    assert_eq!(y.multiply(x.clone(), &mut cs).eval(), None);
    assert_eq!(x.multiply(Expression::constant(s(2)), &mut cs).eval(), None);
    assert_eq!(cs.gate_count(), 2);
}

#[test]
fn addition_places_the_constant_where_it_stood() {
    let x = Expression::wire(Wire::Committed(0), Some(s(5)));
    let front = Expression::constant(s(2)).add(x.clone());
    let back = x.clone().add(Expression::constant(s(2)));
    assert_eq!(terms_of(&front), vec![(Wire::One, s(2)), (Wire::Committed(0), s(1))]);
    assert_eq!(terms_of(&back), vec![(Wire::Committed(0), s(1)), (Wire::One, s(2))]);
    assert_eq!(front.eval(), Some(s(7)));
    assert_eq!(back.eval(), Some(s(7)));
    let both = x.add(Expression::wire(Wire::Committed(1), Some(s(10))));
    assert_eq!(terms_of(&both), vec![(Wire::Committed(0), s(1)), (Wire::Committed(1), s(1))]);
    assert_eq!(both.eval(), Some(s(15)));
    assert_eq!(Expression::constant(s(2)).add(Expression::constant(s(3))).eval(), Some(s(5)));
}

#[test]
fn addition_with_an_unknown_side_is_unknown() {
    let x = Expression::wire(Wire::Committed(0), None);
    let y = Expression::wire(Wire::Committed(1), Some(s(4)));
    assert_eq!(x.clone().add(y.clone()).eval(), None);
    assert_eq!(y.add(x.clone()).eval(), None);
    assert_eq!(x.add(Expression::constant(s(1))).eval(), None);
}

#[test]
fn negation_flips_every_coefficient() {
    let x = Expression::wire(Wire::Committed(0), Some(s(5))).add(Expression::constant(s(2)));
    let minus = x.neg();
    assert_eq!(terms_of(&minus), vec![(Wire::Committed(0), s(1).neg()), (Wire::One, s(2).neg())]);
    assert_eq!(minus.eval(), Some(s(7).neg()));
    assert_eq!(Expression::constant(s(3)).neg().eval(), Some(s(3).neg()));
    assert_eq!(Expression::wire(Wire::Committed(0), None).neg().eval(), None);
}

#[test]
fn constant_becomes_a_term_on_the_wire_one() {
    assert_eq!(terms_of(&Expression::constant(s(9))), vec![(Wire::One, s(9))]);
    assert_eq!(Expression::constant(s(9)).eval(), Some(s(9)));
}

#[test]
fn empty_linear_combination_is_kept() {
    let empty = Expression::LinearCombination(Vec::new(), Some(s(0)));
    assert!(terms_of(&empty).is_empty());
    assert!(matches!(empty.neg(), Expression::LinearCombination(_, _)));
}
