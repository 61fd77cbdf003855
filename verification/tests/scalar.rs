use zk_constraints::scalar::Scalar;

const ORDER_BYTES: [u8; 32] = [
    0xed, 0xd3, 0xf5, 0x5c, 0x1a, 0x63, 0x12, 0x58, 0xd6, 0x9c, 0xf7, 0xa2, 0xde, 0xf9, 0xde, 0x14,
    0x00, 0x00, 0x00, 0x00, 0x00, 0x00, 0x00, 0x00, 0x00, 0x00, 0x00, 0x00, 0x00, 0x00, 0x00, 0x10,
];

#[test]
fn from_u64_encodes_little_endian() {
    let mut expected = [0u8; 32];
    expected[0] = 0x34;
    expected[1] = 0x12;
    assert_eq!(Scalar::from_u64(0x1234).to_bytes(), expected);
    assert_eq!(Scalar::zero().to_bytes(), [0u8; 32]);
    assert_eq!(Scalar::one(), Scalar::from_u64(1));
}

#[test]
fn arithmetic_on_small_values() {
    let six = Scalar::from_u64(6);
    let seven = Scalar::from_u64(7);
    assert_eq!(six.mul(&seven), Scalar::from_u64(42));
    assert_eq!(six.add(&seven), Scalar::from_u64(13));
    assert_eq!(seven.sub(&six), Scalar::from_u64(1));
}

#[test]
fn the_group_order_reduces_to_zero() {
    assert_eq!(Scalar::from_bytes_mod_order(ORDER_BYTES), Scalar::zero());
    let mut above = ORDER_BYTES;
    above[0] += 5;
    assert_eq!(Scalar::from_bytes_mod_order(above), Scalar::from_u64(5));
}

#[test]
fn subtraction_wraps_around_the_order() {
    let minus_one = Scalar::zero().sub(&Scalar::one());
    let mut expected = ORDER_BYTES;
    expected[0] -= 1;
    assert_eq!(minus_one.to_bytes(), expected);
    assert_eq!(minus_one.add(&Scalar::one()), Scalar::zero());
    assert_eq!(Scalar::one().neg(), minus_one);
    assert_eq!(Scalar::zero().neg(), Scalar::zero());
}

#[test]
fn inverse_times_value_is_one() {
    let x = Scalar::from_u64(123456789);
    let inverse = x.invert();
    assert_ne!(inverse, x);
    assert_eq!(x.mul(&inverse), Scalar::one());
    assert_eq!(Scalar::one().invert(), Scalar::one());
}

#[test]
fn constant_time_equality_and_selection() {
    let a = Scalar::from_u64(10);
    let b = Scalar::from_u64(20);
    assert_eq!(a.ct_eq(&a), 1);
    assert_eq!(a.ct_eq(&b), 0);
    assert_eq!(Scalar::conditional_select(&a, &b, 0), a);
    assert_eq!(Scalar::conditional_select(&a, &b, 1), b);
}

#[test]
fn random_scalars_differ() {
    assert_ne!(Scalar::random(), Scalar::random());
}

#[test]
fn inverse_of_zero_is_zero() {
    assert_eq!(Scalar::zero().invert(), Scalar::zero());
}

#[test]
fn signed_integers_wrap_around_the_order() {
    assert_eq!(Scalar::from_i64(5), Scalar::from_u64(5));
    assert_eq!(Scalar::from_i64(-5), Scalar::from_u64(5).neg());
    assert_eq!(Scalar::from_i64(0), Scalar::zero());
    assert_eq!(Scalar::from_i64(i64::MIN), Scalar::from_u64(1u64 << 63).neg());
    assert_eq!(Scalar::from_i64(i64::MAX), Scalar::from_u64(i64::MAX as u64));
}
