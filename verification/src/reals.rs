//! Engine reals, held by their IEEE 754 binary64 bit pattern.

use vstd::prelude::*;

verus! {

/// Weight of the sign bit of a binary64 bit pattern.
pub const SIGN_BIT: u64 = 0x8000_0000_0000_0000;

/// Magnitude bits of an infinity: all exponent bits set, no fraction bit.
pub const INFINITY_BITS: u64 = 0x7ff0_0000_0000_0000;

/// A real number as the engine stores it: a binary64 value, carried as its
/// bit pattern so that it passes through unchanged.
#[derive(Clone, Copy, Debug, PartialEq, Eq, Structural)]
pub struct Real {
    pub bits: u64,
}

/// The bit pattern without its sign bit.
pub open spec fn magnitude(bits: u64) -> int {
    bits as int % (SIGN_BIT as int)
}

/// Whether the sign bit is set.
pub open spec fn negative(bits: u64) -> bool {
    bits >= SIGN_BIT
}

/// Whether the pattern encodes a NaN: exponent all ones, fraction non-zero.
pub open spec fn nan(bits: u64) -> bool {
    magnitude(bits) > INFINITY_BITS as int
}

/// Position of a non-NaN pattern on the number line: patterns of one sign are
/// ordered by magnitude, and both zeros share position 0.
pub open spec fn rank(bits: u64) -> int {
    if negative(bits) {
        -magnitude(bits)
    } else {
        magnitude(bits)
    }
}

impl Real {
    /// Positive infinity.
    pub fn infinity() -> (r: Real)
        ensures
            r.bits == INFINITY_BITS,
    {
        Real { bits: INFINITY_BITS }
    }

    /// Negative infinity.
    pub fn neg_infinity() -> (r: Real)
        ensures
            r.bits == SIGN_BIT + INFINITY_BITS,
    {
        Real { bits: SIGN_BIT + INFINITY_BITS }
    }

    /// The IEEE 754 comparison `self <= other`: false when either side is a
    /// NaN, otherwise the order of the two values on the number line.
    pub open spec fn spec_le(self, other: Real) -> bool {
        &&& !nan(self.bits)
        &&& !nan(other.bits)
        &&& rank(self.bits) <= rank(other.bits)
    }

    pub fn from_bits(bits: u64) -> (r: Real)
        ensures
            r.bits == bits,
    {
        Real { bits }
    }

    pub fn to_bits(self) -> (bits: u64)
        ensures
            bits == self.bits,
    {
        self.bits
    }

    pub fn is_nan(self) -> (r: bool)
        ensures
            r == nan(self.bits),
    {
        self.bits % SIGN_BIT > INFINITY_BITS
    }

    #[verifier::when_used_as_spec(spec_le)]
    pub fn le(self, other: Real) -> (r: bool)
        ensures
            r == self.spec_le(other),
    {
        if self.is_nan() || other.is_nan() {
            return false;
        }
        let a: u64 = self.bits % SIGN_BIT;
        let b: u64 = other.bits % SIGN_BIT;
        if self.bits >= SIGN_BIT {
            if other.bits >= SIGN_BIT {
                b <= a
            } else {
                true
            }
        } else {
            if other.bits >= SIGN_BIT {
                a == 0 && b == 0
            } else {
                a <= b
            }
        }
    }
}

} // verus!
