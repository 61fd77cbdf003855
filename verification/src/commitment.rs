//! Pedersen commitments, open and closed, and the variables that stand for
//! them in a constraint system.

use crate::scalar::{
    field_value, lemma_scalar_in_field, Scalar, ScalarWitness,
};
use vstd::prelude::*;

verus! {

/// The 32 bytes of the compressed Ristretto point that bulletproofs'
/// default Pedersen generators commit the given value to under the given
/// blinding factor.
pub uninterp spec fn pedersen_point(value: nat, blinding: nat) -> Seq<u8>;

/// `PedersenGens::default().commit(value, blinding)` of bulletproofs, then
/// `compress().to_bytes()`: the encoding of the commitment, which depends
/// on the two scalars' values alone.
#[verifier::external_body]
fn pedersen_commit(value: &[u8; 32], blinding: &[u8; 32]) -> (r: [u8; 32])
    ensures
        r@ == pedersen_point(field_value(value@), field_value(blinding@)),
{
    let v = curve25519_dalek_ng::scalar::Scalar::from_bytes_mod_order(*value);
    let b = curve25519_dalek_ng::scalar::Scalar::from_bytes_mod_order(*blinding);
    bulletproofs::PedersenGens::default().commit(v, b).compress().to_bytes()
}

/// A compressed group element: 32 bytes.
#[derive(Clone, Copy, Debug, PartialEq, Eq)]
pub struct CompressedPoint {
    pub bytes: [u8; 32],
}

impl View for CompressedPoint {
    type V = Seq<u8>;

    open spec fn view(&self) -> Seq<u8> {
        self.bytes@
    }
}

/// A prover's secrets behind a commitment: the value and its blinding factor.
#[derive(Clone, Copy, Debug)]
pub struct CommitmentWitness {
    value: ScalarWitness,
    blinding: Scalar,
}

impl CommitmentWitness {
    /// The committed value.
    pub closed spec fn secret_value(self) -> ScalarWitness {
        self.value
    }

    /// The blinding factor.
    pub closed spec fn secret_blinding(self) -> Scalar {
        self.blinding
    }

    /// The point that hides the two secrets.
    pub open spec fn point(self) -> Seq<u8> {
        pedersen_point(self.secret_value()@, self.secret_blinding()@)
    }

    /// The witness of a value under a blinding factor.
    pub fn new(value: ScalarWitness, blinding: Scalar) -> (r: CommitmentWitness)
        ensures
            r.secret_value() == value,
            r.secret_blinding() == blinding,
    {
        CommitmentWitness { value, blinding }
    }

    /// The commitment to the value under the blinding factor, compressed.
    pub fn to_point(&self) -> (r: CompressedPoint)
        ensures
            r@ == self.point(),
    {
        let value = self.value.to_bytes();
        let blinding = self.blinding.to_bytes();
        proof {
            lemma_scalar_in_field(self.value);
            lemma_scalar_in_field(self.blinding);
            vstd::arithmetic::div_mod::lemma_small_mod(self.value@, crate::scalar::group_order());
            vstd::arithmetic::div_mod::lemma_small_mod(
                self.blinding@,
                crate::scalar::group_order(),
            );
        }
        CompressedPoint { bytes: pedersen_commit(&value, &blinding) }
    }
}

/// A Pedersen commitment, as its verifier or as its prover sees it.
#[derive(Clone, Debug)]
pub enum Commitment {
    /// Only the compressed point is known.
    Closed(CompressedPoint),
    /// The value and the blinding factor are known.
    Open(Box<CommitmentWitness>),
}

impl Commitment {
    /// The public identity of the commitment: its compressed point.
    pub open spec fn point(self) -> Seq<u8> {
        match self {
            Commitment::Closed(p) => p@,
            Commitment::Open(w) => w.point(),
        }
    }

    /// The secrets behind the commitment, which only an open one has.
    pub open spec fn secrets(self) -> Option<(ScalarWitness, Scalar)> {
        match self {
            Commitment::Closed(_) => None,
            Commitment::Open(w) => Some((w.secret_value(), w.secret_blinding())),
        }
    }

    /// The number of bytes of a serialized commitment: always 32.
    pub fn serialized_length(&self) -> (r: usize)
        ensures
            r == 32,
    {
        32
    }

    /// The compressed point of the commitment.
    pub fn to_point(&self) -> (r: CompressedPoint)
        ensures
            r@ == self.point(),
    {
        match self {
            Commitment::Closed(x) => *x,
            Commitment::Open(w) => w.to_point(),
        }
    }

    /// Appends the 32 bytes of the compressed point to `buf`.
    pub fn encode(&self, buf: &mut Vec<u8>)
        ensures
            final(buf)@ == old(buf)@ + self.point(),
            final(buf)@.len() == old(buf)@.len() + 32,
            self.point().len() == 32,
    {
        let point = self.to_point();
        let mut i: usize = 0;
        while i < 32
            invariant
                i <= 32,
                point@ == self.point(),
                buf@ == old(buf)@ + point@.take(i as int),
            decreases 32 - i,
        {
            buf.push(point.bytes[i]);
            assert(point@.take(i + 1) =~= point@.take(i as int).push(point@[i as int]));
            i += 1;
        }
        assert(point@.take(32) =~= point@);
    }

    /// An open commitment to `x` with the blinding factor zero.
    pub fn unblinded(x: ScalarWitness) -> (r: Commitment)
        ensures
            r.secrets().is_some(),
            r.secrets().unwrap().0 == x,
            r.secrets().unwrap().1@ == 0,
    {
        Commitment::Open(Box::new(CommitmentWitness { blinding: Scalar::zero(), value: x }))
    }

    /// An open commitment to `x` with a blinding factor drawn at random.
    pub fn blinded(x: ScalarWitness) -> (r: Commitment)
        ensures
            r.secrets().is_some(),
            r.secrets().unwrap().0 == x,
    {
        Commitment::Open(Box::new(CommitmentWitness { blinding: Scalar::random(), value: x }))
    }

    /// An open commitment to `x` with the given blinding factor.
    pub fn blinded_with_factor(x: ScalarWitness, blinding: Scalar) -> (r: Commitment)
        ensures
            r.secrets() == Some((x, blinding)),
            r.point() == pedersen_point(x@, blinding@),
    {
        Commitment::Open(Box::new(CommitmentWitness { blinding, value: x }))
    }

    /// The committed value and the blinding factor, or `None` where the
    /// commitment is closed.
    pub fn witness(&self) -> (r: Option<(ScalarWitness, Scalar)>)
        ensures
            r == self.secrets(),
    {
        match self {
            Commitment::Closed(_) => None,
            Commitment::Open(w) => Some((w.value, w.blinding)),
        }
    }

    /// The committed value without the blinding factor, or `None` where the
    /// commitment is closed.
    pub fn assignment(&self) -> (r: Option<ScalarWitness>)
        ensures
            r == (match self.secrets() {
                Some(pair) => Some(pair.0),
                None => None,
            }),
    {
        match self {
            Commitment::Closed(_) => None,
            Commitment::Open(w) => Some(w.value),
        }
    }
}

impl From<CommitmentWitness> for Commitment {
    /// The open commitment with the given secrets.
    fn from(witness: CommitmentWitness) -> (r: Commitment) {
        Commitment::Open(Box::new(witness))
    }
}

impl vstd::std_specs::convert::FromSpecImpl<CommitmentWitness> for Commitment {
    open spec fn obeys_from_spec() -> bool {
        true
    }

    open spec fn from_spec(witness: CommitmentWitness) -> Commitment {
        Commitment::Open(Box::new(witness))
    }
}

impl From<CompressedPoint> for Commitment {
    /// The closed commitment with the given point.
    fn from(point: CompressedPoint) -> (r: Commitment) {
        Commitment::Closed(point)
    }
}

impl vstd::std_specs::convert::FromSpecImpl<CompressedPoint> for Commitment {
    open spec fn obeys_from_spec() -> bool {
        true
    }

    open spec fn from_spec(point: CompressedPoint) -> Commitment {
        Commitment::Closed(point)
    }
}

impl From<Commitment> for CompressedPoint {
    /// The compressed point of the commitment.
    fn from(commitment: Commitment) -> (r: CompressedPoint)
        ensures
            r@ == commitment.point(),
    {
        commitment.to_point()
    }
}

impl vstd::std_specs::convert::FromSpecImpl<Commitment> for CompressedPoint {
    /// The point of an open commitment is known by its bytes alone, which
    /// `from` states itself.
    open spec fn obeys_from_spec() -> bool {
        false
    }

    open spec fn from_spec(commitment: Commitment) -> CompressedPoint {
        arbitrary()
    }
}

/// An open commitment made from a value and a blinding factor has the point
/// that commits the value under that factor, and gives back exactly the
/// two; a closed commitment has the point it was made from and gives
/// nothing back.
pub proof fn lemma_commitment_round_trip(c: Commitment, v: ScalarWitness, r: Scalar)
    ensures
        c.secrets() == Some((v, r)) ==> c.point() == pedersen_point(v@, r@) && c is Open,
        c is Closed ==> c.secrets().is_none() && c.point() == c->Closed_0@,
{
}

/// A high-level variable of the constraint system, given by its
/// commitment. Callers keep variables in a list and refer to them by
/// position, so that a commitment can be replaced while the variable stays.
#[derive(Clone, Debug)]
pub struct Variable {
    pub commitment: Commitment,
}

} // verus!
