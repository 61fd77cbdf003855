//! Wires of a rank-1 constraint system and linear combinations of them.

use crate::scalar::{field_mul, field_neg, Scalar};
use vstd::prelude::*;

verus! {

/// A reference to one wire of the constraint system.
#[derive(Clone, Copy, Debug, PartialEq, Eq)]
pub enum Wire {
    /// A committed high-level variable, by its position among the commitments.
    Committed(usize),
    /// The left input of a multiplication gate.
    MultiplierLeft(usize),
    /// The right input of a multiplication gate.
    MultiplierRight(usize),
    /// The output of a multiplication gate.
    MultiplierOutput(usize),
    /// The reserved wire whose value is always one.
    One,
}

/// A wire with its coefficient, as a mathematical value.
pub type TermView = (Wire, nat);

/// The mathematical terms that a vector of wire and coefficient pairs holds.
pub open spec fn terms_view(terms: Seq<(Wire, Scalar)>) -> Seq<TermView> {
    Seq::new(terms.len(), |i: int| (terms[i].0, terms[i].1@))
}

/// Every coefficient multiplied by `k`.
pub open spec fn scale_terms(terms: Seq<TermView>, k: nat) -> Seq<TermView> {
    Seq::new(terms.len(), |i: int| (terms[i].0, field_mul(terms[i].1, k)))
}

/// Every coefficient negated.
pub open spec fn negate_terms(terms: Seq<TermView>) -> Seq<TermView> {
    Seq::new(terms.len(), |i: int| (terms[i].0, field_neg(terms[i].1)))
}

/// Multiplies every coefficient of `terms` by `k`, keeping wires and order.
pub fn scaled(terms: &Vec<(Wire, Scalar)>, k: &Scalar) -> (r: Vec<(Wire, Scalar)>)
    ensures
        terms_view(r@) == scale_terms(terms_view(terms@), k@),
{
    let mut out: Vec<(Wire, Scalar)> = Vec::new();
    let mut i: usize = 0;
    while i < terms.len()
        invariant
            i <= terms.len(),
            out@.len() == i,
            forall|j: int|
                0 <= j < i ==> out@[j].0 == terms@[j].0 && out@[j].1@ == field_mul(
                    terms@[j].1@,
                    k@,
                ),
        decreases terms.len() - i,
    {
        let (wire, coefficient) = terms[i];
        out.push((wire, coefficient.mul(k)));
        i += 1;
    }
    assert(terms_view(out@) =~= scale_terms(terms_view(terms@), k@));
    out
}

/// A copy of `terms`.
pub fn copied(terms: &Vec<(Wire, Scalar)>) -> (r: Vec<(Wire, Scalar)>)
    ensures
        r@ == terms@,
{
    let mut out: Vec<(Wire, Scalar)> = Vec::new();
    let mut i: usize = 0;
    while i < terms.len()
        invariant
            i <= terms.len(),
            out@ == terms@.take(i as int),
        decreases terms.len() - i,
    {
        out.push(terms[i]);
        assert(terms@.take(i + 1) =~= terms@.take(i as int).push(terms@[i as int]));
        i += 1;
    }
    assert(terms@.take(terms.len() as int) =~= terms@);
    out
}

/// Negates every coefficient of `terms`, keeping wires and order.
pub fn negated(terms: &Vec<(Wire, Scalar)>) -> (r: Vec<(Wire, Scalar)>)
    ensures
        terms_view(r@) == negate_terms(terms_view(terms@)),
{
    let mut out: Vec<(Wire, Scalar)> = Vec::new();
    let mut i: usize = 0;
    while i < terms.len()
        invariant
            i <= terms.len(),
            out@.len() == i,
            forall|j: int|
                0 <= j < i ==> out@[j].0 == terms@[j].0 && out@[j].1@ == field_neg(terms@[j].1@),
        decreases terms.len() - i,
    {
        let (wire, coefficient) = terms[i];
        out.push((wire, coefficient.neg()));
        i += 1;
    }
    assert(terms_view(out@) =~= negate_terms(terms_view(terms@)));
    out
}

/// A weighted sum of wires. The order of the terms has no meaning beyond the
/// layout of the gates.
#[derive(Clone, Debug, PartialEq, Eq)]
pub struct LinearCombination {
    pub terms: Vec<(Wire, Scalar)>,
}

impl View for LinearCombination {
    type V = Seq<TermView>;

    open spec fn view(&self) -> Seq<TermView> {
        terms_view(self.terms@)
    }
}

impl LinearCombination {
    /// The combination that holds the given terms.
    pub fn from_terms(terms: Vec<(Wire, Scalar)>) -> (r: LinearCombination)
        ensures
            r@ == terms_view(terms@),
    {
        LinearCombination { terms }
    }

    /// A copy of the combination.
    pub fn duplicate(&self) -> (r: LinearCombination)
        ensures
            r@ == self@,
    {
        LinearCombination { terms: copied(&self.terms) }
    }

    /// The combination that is one wire with coefficient one.
    pub fn from_wire(wire: Wire) -> (r: LinearCombination)
        ensures
            r@ == seq![(wire, 1nat)],
    {
        let mut terms: Vec<(Wire, Scalar)> = Vec::new();
        terms.push((wire, Scalar::one()));
        assert(terms_view(terms@) =~= seq![(wire, 1nat)]);
        LinearCombination { terms }
    }

    /// The combination that is a constant: the wire one with the constant as
    /// its coefficient.
    pub fn from_scalar(s: Scalar) -> (r: LinearCombination)
        ensures
            r@ == seq![(Wire::One, s@)],
    {
        let mut terms: Vec<(Wire, Scalar)> = Vec::new();
        terms.push((Wire::One, s));
        assert(terms_view(terms@) =~= seq![(Wire::One, s@)]);
        LinearCombination { terms }
    }

    /// The sum: the terms of `self` followed by those of `rhs`.
    pub fn plus(self, rhs: LinearCombination) -> (r: LinearCombination)
        ensures
            r@ == self@ + rhs@,
    {
        let mut terms = self.terms;
        let mut tail = rhs.terms;
        terms.append(&mut tail);
        assert(terms_view(terms@) =~= self@ + rhs@);
        LinearCombination { terms }
    }

    /// The difference: the terms of `self` followed by those of `rhs` with
    /// each coefficient negated.
    pub fn minus(self, rhs: LinearCombination) -> (r: LinearCombination)
        ensures
            r@ == self@ + negate_terms(rhs@),
    {
        let mut terms = self.terms;
        let mut tail = negated(&rhs.terms);
        terms.append(&mut tail);
        assert(terms_view(terms@) =~= self@ + negate_terms(rhs@));
        LinearCombination { terms }
    }

    /// The combination with every coefficient multiplied by `k`.
    pub fn times(self, k: &Scalar) -> (r: LinearCombination)
        ensures
            r@ == scale_terms(self@, k@),
    {
        LinearCombination { terms: scaled(&self.terms, k) }
    }
}

} // verus!
