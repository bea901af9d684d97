//! Double-precision numbers as the library carries them.

use vstd::prelude::*;

verus! {

/// An IEEE 754 double-precision number, kept as its 64-bit pattern.
///
/// The library never computes with such a number: it only carries it from a
/// document to a record, so the bit pattern is all it needs.
#[derive(Clone, Copy, Debug, PartialEq, Eq, Structural)]
pub struct Double {
    pub bits: u64,
}

impl Double {
    /// Positive zero, whose bit pattern is all zeros.
    pub open spec fn spec_zero() -> Double {
        Double { bits: 0 }
    }

    /// Positive zero.
    #[verifier::when_used_as_spec(spec_zero)]
    pub fn zero() -> (d: Double)
        ensures
            d == Double::spec_zero(),
    {
        Double { bits: 0 }
    }

    /// The number with the given bit pattern.
    pub fn from_bits(bits: u64) -> (d: Double)
        ensures
            d.bits == bits,
    {
        Double { bits }
    }

    /// The number's bit pattern.
    pub fn to_bits(&self) -> (bits: u64)
        ensures
            bits == self.bits,
    {
        self.bits
    }
}

} // verus!
