//! A bit width between 0 and 64.

use vstd::prelude::*;

verus! {

/// A number of bits in the range `0..=64`.
#[derive(Clone, Copy, Debug, PartialEq, Eq)]
pub struct BitRange(usize);

impl View for BitRange {
    type V = nat;

    closed spec fn view(&self) -> nat {
        self.0 as nat
    }
}

impl BitRange {
    /// Every bit range holds at most 64 bits.
    #[verifier::type_invariant]
    closed spec fn in_range(self) -> bool {
        self.0 <= 64
    }

    /// The range of `n` bits, or `None` where `n` exceeds 64.
    pub fn new(n: usize) -> (r: Option<BitRange>)
        ensures
            n <= 64 <==> r.is_some(),
            r.is_some() ==> r.unwrap()@ == n,
    {
        if n > 64 {
            None
        } else {
            Some(BitRange(n))
        }
    }

    /// The full 64-bit range.
    pub fn max() -> (r: BitRange)
        ensures
            r@ == 64,
    {
        BitRange(64)
    }

    /// The number of bits, which never exceeds 64.
    pub fn to_usize(self) -> (n: usize)
        ensures
            n == self@,
            n <= 64,
    {
        proof {
            use_type_invariant(&self);
        }
        self.0
    }
}

impl From<BitRange> for usize {
    /// The number of bits of the range.
    fn from(range: BitRange) -> (n: usize) {
        range.to_usize()
    }
}

impl vstd::std_specs::convert::FromSpecImpl<BitRange> for usize {
    open spec fn obeys_from_spec() -> bool {
        true
    }

    open spec fn from_spec(range: BitRange) -> usize {
        range@ as usize
    }
}

} // verus!
