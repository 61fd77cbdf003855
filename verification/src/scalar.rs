//! Field scalars modulo the order of the Ristretto group.
//!
//! A [`Scalar`] holds the 32-byte little-endian encoding of a field element.
//! Its mathematical value, written `s@`, is the encoded integer reduced
//! modulo the group order. The arithmetic itself is done by
//! `curve25519-dalek`, and the constant-time selection by `subtle`; the
//! functions here state what they compute.

use vstd::prelude::*;

verus! {

/// The order of the Ristretto group: `2^252 + 27742317777372353535851937790883648493`.
pub open spec fn group_order() -> nat {
    // 2^252 written as (2^63)^4
    9223372036854775808 * 9223372036854775808 * 9223372036854775808 * 9223372036854775808
        + 27742317777372353535851937790883648493
}

/// The integer that a little-endian byte string encodes.
pub open spec fn le_nat(bytes: Seq<u8>) -> nat
    decreases bytes.len(),
{
    if bytes.len() == 0 {
        0
    } else {
        bytes[0] as nat + 256 * le_nat(bytes.skip(1))
    }
}

/// The field element that a little-endian byte string stands for.
pub open spec fn field_value(bytes: Seq<u8>) -> nat {
    le_nat(bytes) % group_order()
}

/// Sum of two field elements.
pub open spec fn field_add(a: nat, b: nat) -> nat {
    (a + b) % group_order()
}

/// Difference of two field elements.
pub open spec fn field_sub(a: nat, b: nat) -> nat {
    ((a - b) % (group_order() as int)) as nat
}

/// Additive inverse of a field element.
pub open spec fn field_neg(a: nat) -> nat {
    field_sub(0, a)
}

/// Product of two field elements.
pub open spec fn field_mul(a: nat, b: nat) -> nat {
    (a * b) % group_order()
}

/// The multiplicative inverse of a field element: for an element other than
/// zero, the element below the group order whose product with it is one;
/// for zero, zero.
pub open spec fn field_inverse(a: nat) -> nat {
    if a % group_order() == 0 {
        0
    } else {
        choose|r: nat| r < group_order() && field_mul(a, r) == 1
    }
}

/// An element of the scalar field, held as its 32-byte encoding.
#[derive(Clone, Copy, Debug, PartialEq, Eq)]
pub struct Scalar {
    bytes: [u8; 32],
}

/// A secret value that a prover assigns to a wire or commits to.
pub type ScalarWitness = Scalar;

impl View for Scalar {
    type V = nat;

    closed spec fn view(&self) -> nat {
        field_value(self.bytes@)
    }
}

/// `Scalar::from(u64)` of curve25519-dalek, then `to_bytes`: the encoding of
/// the scalar whose value is the given integer.
#[verifier::external_body]
fn dalek_from_u64(x: u64) -> (r: [u8; 32])
    ensures
        field_value(r@) == x,
{
    curve25519_dalek::scalar::Scalar::from(x).to_bytes()
}

/// `Scalar::from_bytes_mod_order` of curve25519-dalek, then `to_bytes`: the
/// canonical encoding of the given 256-bit integer reduced modulo the group
/// order.
#[verifier::external_body]
fn dalek_reduce(bytes: &[u8; 32]) -> (r: [u8; 32])
    ensures
        le_nat(r@) == field_value(bytes@),
{
    curve25519_dalek::scalar::Scalar::from_bytes_mod_order(*bytes).to_bytes()
}

/// `+` on curve25519-dalek scalars: the sum modulo the group order.
#[verifier::external_body]
fn dalek_add(a: &[u8; 32], b: &[u8; 32]) -> (r: [u8; 32])
    ensures
        field_value(r@) == field_add(field_value(a@), field_value(b@)),
{
    let x = curve25519_dalek::scalar::Scalar::from_bytes_mod_order(*a);
    let y = curve25519_dalek::scalar::Scalar::from_bytes_mod_order(*b);
    (x + y).to_bytes()
}

/// `-` on curve25519-dalek scalars: the difference modulo the group order.
#[verifier::external_body]
fn dalek_sub(a: &[u8; 32], b: &[u8; 32]) -> (r: [u8; 32])
    ensures
        field_value(r@) == field_sub(field_value(a@), field_value(b@)),
{
    let x = curve25519_dalek::scalar::Scalar::from_bytes_mod_order(*a);
    let y = curve25519_dalek::scalar::Scalar::from_bytes_mod_order(*b);
    (x - y).to_bytes()
}

/// `*` on curve25519-dalek scalars: the product modulo the group order.
#[verifier::external_body]
fn dalek_mul(a: &[u8; 32], b: &[u8; 32]) -> (r: [u8; 32])
    ensures
        field_value(r@) == field_mul(field_value(a@), field_value(b@)),
{
    let x = curve25519_dalek::scalar::Scalar::from_bytes_mod_order(*a);
    let y = curve25519_dalek::scalar::Scalar::from_bytes_mod_order(*b);
    (x * y).to_bytes()
}

/// `Scalar::invert` of curve25519-dalek: for a scalar other than zero, the
/// scalar whose product with it is one; for zero, zero.
#[verifier::external_body]
fn dalek_invert(a: &[u8; 32]) -> (r: [u8; 32])
    ensures
        field_value(a@) != 0 ==> field_mul(field_value(a@), field_value(r@)) == 1,
        field_value(a@) == 0 ==> field_value(r@) == 0,
{
    curve25519_dalek::scalar::Scalar::from_bytes_mod_order(*a).invert().to_bytes()
}

/// `ConstantTimeEq::ct_eq` of subtle on two curve25519-dalek scalars, read
/// with `Choice::unwrap_u8`: 1 where the scalars are equal, else 0.
#[verifier::external_body]
fn subtle_ct_eq(a: &[u8; 32], b: &[u8; 32]) -> (r: u8)
    ensures
        r == (if field_value(a@) == field_value(b@) { 1u8 } else { 0u8 }),
{
    let x = curve25519_dalek::scalar::Scalar::from_bytes_mod_order(*a);
    let y = curve25519_dalek::scalar::Scalar::from_bytes_mod_order(*b);
    subtle::ConstantTimeEq::ct_eq(&x, &y).unwrap_u8()
}

/// `ConditionallySelectable::conditional_select` of subtle on two
/// curve25519-dalek scalars: the first where the choice is 0, the second
/// where it is 1.
#[verifier::external_body]
fn subtle_select(a: &[u8; 32], b: &[u8; 32], choice: u8) -> (r: [u8; 32])
    requires
        choice <= 1,
    ensures
        field_value(r@) == (if choice == 1 { field_value(b@) } else { field_value(a@) }),
{
    let x = curve25519_dalek::scalar::Scalar::from_bytes_mod_order(*a);
    let y = curve25519_dalek::scalar::Scalar::from_bytes_mod_order(*b);
    let c = subtle::Choice::from(choice);
    <curve25519_dalek::scalar::Scalar as subtle::ConditionallySelectable>::conditional_select(&x, &y, c).to_bytes()
}

/// `Scalar::random` of curve25519-dalek on `rand::thread_rng()`: a scalar
/// drawn from the thread's cryptographically secure generator. Nothing is
/// promised of its value.
#[verifier::external_body]
fn dalek_random() -> (r: [u8; 32]) {
    curve25519_dalek::scalar::Scalar::random(&mut rand::thread_rng()).to_bytes()
}

impl Scalar {
    /// A scalar drawn from the thread's cryptographically secure random
    /// number generator. Two calls need not agree.
    pub fn random() -> (r: Scalar) {
        Scalar { bytes: dalek_random() }
    }

    /// The scalar with the value of an unsigned integer.
    pub fn from_u64(x: u64) -> (r: Scalar)
        ensures
            r@ == x,
    {
        Scalar { bytes: dalek_from_u64(x) }
    }

    /// The scalar with the value of a signed integer: a negative integer
    /// stands for the group order less its magnitude.
    pub fn from_i64(x: i64) -> (r: Scalar)
        ensures
            r@ == x as int % (group_order() as int),
    {
        proof {
            lemma_group_order_positive();
        }
        if x >= 0 {
            proof {
                vstd::arithmetic::div_mod::lemma_small_mod(x as nat, group_order());
            }
            Scalar::from_u64(x as u64)
        } else {
            let magnitude: u64 = (-(x + 1)) as u64 + 1;
            Scalar::from_u64(magnitude).neg()
        }
    }

    /// The scalar zero.
    pub fn zero() -> (r: Scalar)
        ensures
            r@ == 0,
    {
        Scalar::from_u64(0)
    }

    /// The scalar one.
    pub fn one() -> (r: Scalar)
        ensures
            r@ == 1,
    {
        Scalar::from_u64(1)
    }

    /// The scalar that a 256-bit little-endian integer reduces to.
    pub fn from_bytes_mod_order(bytes: [u8; 32]) -> (r: Scalar)
        ensures
            r@ == field_value(bytes@),
    {
        proof {
            lemma_field_value_reduced(bytes@);
        }
        Scalar { bytes: dalek_reduce(&bytes) }
    }

    /// The canonical 32-byte encoding: the little-endian bytes of the value.
    pub fn to_bytes(&self) -> (r: [u8; 32])
        ensures
            le_nat(r@) == self@,
    {
        dalek_reduce(&self.bytes)
    }

    /// Sum of two scalars.
    pub fn add(&self, rhs: &Scalar) -> (r: Scalar)
        ensures
            r@ == field_add(self@, rhs@),
    {
        Scalar { bytes: dalek_add(&self.bytes, &rhs.bytes) }
    }

    /// Difference of two scalars.
    pub fn sub(&self, rhs: &Scalar) -> (r: Scalar)
        ensures
            r@ == field_sub(self@, rhs@),
    {
        Scalar { bytes: dalek_sub(&self.bytes, &rhs.bytes) }
    }

    /// Additive inverse of a scalar.
    pub fn neg(&self) -> (r: Scalar)
        ensures
            r@ == field_neg(self@),
    {
        let zero = Scalar::zero();
        zero.sub(self)
    }

    /// Product of two scalars.
    pub fn mul(&self, rhs: &Scalar) -> (r: Scalar)
        ensures
            r@ == field_mul(self@, rhs@),
    {
        Scalar { bytes: dalek_mul(&self.bytes, &rhs.bytes) }
    }

    /// Multiplicative inverse: for a scalar other than zero, the scalar whose
    /// product with it is one; for zero, zero.
    pub fn invert(&self) -> (r: Scalar)
        ensures
            r@ == field_inverse(self@),
            self@ != 0 ==> field_mul(self@, r@) == 1,
            self@ == 0 ==> r@ == 0,
    {
        let r = Scalar { bytes: dalek_invert(&self.bytes) };
        proof {
            lemma_group_order_positive();
            lemma_scalar_in_field(*self);
            lemma_scalar_in_field(r);
            vstd::arithmetic::div_mod::lemma_small_mod(self@, group_order());
            if self@ != 0 {
                lemma_inverse_is_unique(self@, r@, field_inverse(self@));
            }
        }
        r
    }

    /// Compares two scalars without branching on their values: 1 where they
    /// are equal, else 0.
    pub fn ct_eq(&self, other: &Scalar) -> (r: u8)
        ensures
            r == (if self@ == other@ { 1u8 } else { 0u8 }),
    {
        subtle_ct_eq(&self.bytes, &other.bytes)
    }

    /// Picks `a` where `choice` is 0 and `b` where it is 1, without
    /// branching on `choice`.
    pub fn conditional_select(a: &Scalar, b: &Scalar, choice: u8) -> (r: Scalar)
        requires
            choice <= 1,
        ensures
            r@ == (if choice == 1 { b@ } else { a@ }),
    {
        Scalar { bytes: subtle_select(&a.bytes, &b.bytes, choice) }
    }
}

/// The group order lies above every 64-bit integer.
pub proof fn lemma_group_order_positive()
    ensures
        group_order() > 1,
        group_order() > u64::MAX,
{
    assert(group_order() > 0xffff_ffff_ffff_ffff) by (nonlinear_arith);
}

/// An element of the field has at most one inverse.
pub proof fn lemma_inverse_is_unique(a: nat, r1: nat, r2: nat)
    requires
        r1 < group_order(),
        r2 < group_order(),
        field_mul(a, r1) == 1,
        field_mul(a, r2) == 1,
    ensures
        r1 == r2,
{
    lemma_group_order_positive();
    let m = group_order() as int;
    // r1 = r1 * (a * r2) = (r1 * a) * r2 = r2, all modulo the group order.
    vstd::arithmetic::div_mod::lemma_mul_mod_noop_right(r1 as int, (a * r2) as int, m);
    vstd::arithmetic::div_mod::lemma_mul_mod_noop_left((r1 * a) as int, r2 as int, m);
    assert(r1 * (a * r2) == (r1 * a) * r2) by (nonlinear_arith);
    assert(r1 * a == a * r1) by (nonlinear_arith);
    assert(r1 * 1 == r1 && 1 * r2 == r2) by (nonlinear_arith);
    vstd::arithmetic::div_mod::lemma_small_mod(r1, group_order());
    vstd::arithmetic::div_mod::lemma_small_mod(r2, group_order());
}

/// A field value is below the group order, and reducing it again changes nothing.
pub proof fn lemma_field_value_reduced(bytes: Seq<u8>)
    ensures
        field_value(bytes) < group_order(),
        field_value(bytes) % group_order() == field_value(bytes),
{
    lemma_group_order_positive();
    vstd::arithmetic::div_mod::lemma_mod_bound(le_nat(bytes) as int, group_order() as int);
    vstd::arithmetic::div_mod::lemma_mod_twice(le_nat(bytes) as int, group_order() as int);
}

/// The value of every scalar lies in the field.
pub proof fn lemma_scalar_in_field(s: Scalar)
    ensures
        s@ < group_order(),
{
    lemma_field_value_reduced(s.bytes@);
}

} // verus!
