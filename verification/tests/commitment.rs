use zk_constraints::commitment::{Commitment, CommitmentWitness, CompressedPoint, Variable};
use zk_constraints::scalar::Scalar;

fn engine_scalar(s: &Scalar) -> curve25519_dalek_ng::scalar::Scalar {
    curve25519_dalek_ng::scalar::Scalar::from_bytes_mod_order(s.to_bytes())
}

fn engine_commit(value: &Scalar, blinding: &Scalar) -> [u8; 32] {
    bulletproofs::PedersenGens::default()
        .commit(engine_scalar(value), engine_scalar(blinding))
        .compress()
        .to_bytes()
}

#[test]
fn blinded_with_factor_round_trip() {
    let v = Scalar::from_u64(1000);
    let r = Scalar::from_u64(987654321);
    let c = Commitment::blinded_with_factor(v, r);
    assert_eq!(c.to_point().bytes, engine_commit(&v, &r));
    assert_eq!(c.witness(), Some((v, r)));
    assert_eq!(c.assignment(), Some(v));
}

#[test]
fn point_differs_from_its_inputs() {
    let v = Scalar::from_u64(7);
    let r = Scalar::from_u64(9);
    let point = Commitment::blinded_with_factor(v, r).to_point();
    assert_ne!(point.bytes, v.to_bytes());
    assert_ne!(point.bytes, r.to_bytes());
    assert_ne!(point, Commitment::blinded_with_factor(r, v).to_point());
}

#[test]
fn closed_commitment_has_no_secrets() {
    let point = Commitment::unblinded(Scalar::from_u64(5)).to_point();
    let closed = Commitment::from(point);
    assert!(closed.witness().is_none());
    assert!(closed.assignment().is_none());
    assert_eq!(closed.to_point(), point);
}

#[test]
fn open_and_closed_agree_on_the_point() {
    let witness = CommitmentWitness::new(Scalar::from_u64(11), Scalar::from_u64(13));
    let open = Commitment::from(witness);
    let closed = Commitment::from(witness.to_point());
    assert_eq!(open.to_point(), closed.to_point());
}

#[test]
fn serialized_length_is_32() {
    let open = Commitment::unblinded(Scalar::from_u64(5));
    let closed = Commitment::from(CompressedPoint { bytes: [0u8; 32] });
    assert_eq!(open.serialized_length(), 32);
    assert_eq!(closed.serialized_length(), 32);
    assert_eq!(open.to_point().bytes.len(), open.serialized_length());
}

#[test]
fn encode_appends_the_point() {
    let c = Commitment::unblinded(Scalar::from_u64(5));
    let mut buf = vec![1u8, 2, 3];
    c.encode(&mut buf);
    assert_eq!(buf.len(), 35);
    assert_eq!(&buf[..3], &[1u8, 2, 3]);
    assert_eq!(&buf[3..], &c.to_point().bytes);
}

#[test]
fn unblinded_equality() {
    let a = Commitment::unblinded(Scalar::from_u64(5));
    let b = Commitment::unblinded(Scalar::from_u64(5));
    let c = Commitment::unblinded(Scalar::from_u64(6));
    assert_eq!(a.to_point(), b.to_point());
    assert_ne!(a.to_point(), c.to_point());
    assert_eq!(a.witness(), Some((Scalar::from_u64(5), Scalar::zero())));
}

#[test]
fn blinded_hides_the_value_under_a_fresh_factor() {
    let a = Commitment::blinded(Scalar::from_u64(5));
    let b = Commitment::blinded(Scalar::from_u64(5));
    assert_eq!(a.assignment(), Some(Scalar::from_u64(5)));
    assert_eq!(b.assignment(), Some(Scalar::from_u64(5)));
    assert_ne!(a.witness().unwrap().1, b.witness().unwrap().1);
    assert_ne!(a.to_point(), b.to_point());
    assert_ne!(a.to_point(), Commitment::unblinded(Scalar::from_u64(5)).to_point());
}

#[test]
fn variable_keeps_its_commitment() {
    let mut variable = Variable { commitment: Commitment::unblinded(Scalar::from_u64(8)) };
    let before = variable.commitment.to_point();
    let blinding = Scalar::from_u64(77);
    variable.commitment = Commitment::blinded_with_factor(Scalar::from_u64(8), blinding);
    assert_eq!(variable.commitment.assignment(), Some(Scalar::from_u64(8)));
    assert_ne!(variable.commitment.to_point(), before);
}

#[test]
fn commitment_converts_into_its_point() {
    let c = Commitment::blinded_with_factor(Scalar::from_u64(2), Scalar::from_u64(3));
    let expected = c.to_point();
    let point: CompressedPoint = c.into();
    assert_eq!(point, expected);
    let closed = Commitment::from(expected);
    assert_eq!(CompressedPoint::from(closed), expected);
}
