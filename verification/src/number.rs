//! Double-precision numbers as the record store orders them.

use vstd::prelude::*;

verus! {

/// The bit that holds the sign of a double.
pub const SIGN_BIT: u64 = 0x8000_0000_0000_0000;

/// The bit pattern of positive infinity: every larger magnitude is a NaN.
pub const INFINITY_BITS: u64 = 0x7FF0_0000_0000_0000;

/// A double-precision number, held by its IEEE 754 bit pattern.
///
/// The pattern is kept as it came, so a value read back from a record is the
/// value that was written. Numbers are ordered by [`Double::rank`].
#[derive(Clone, Copy, Debug, PartialEq, Eq)]
pub struct Double {
    pub bits: u64,
}

impl Double {
    /// The bit pattern without its sign.
    pub open spec fn magnitude(self) -> int {
        if self.bits >= SIGN_BIT {
            self.bits - SIGN_BIT
        } else {
            self.bits as int
        }
    }

    /// Whether the pattern stands for no number.
    pub open spec fn is_nan(self) -> bool {
        self.magnitude() > INFINITY_BITS
    }

    /// The place of the number in the order of all doubles: negative numbers
    /// first, the two zeros together, then the positive numbers, and every NaN
    /// after positive infinity.
    pub open spec fn rank(self) -> int {
        if self.is_nan() {
            INFINITY_BITS + 1
        } else if self.bits >= SIGN_BIT {
            -self.magnitude()
        } else {
            self.magnitude()
        }
    }

    /// Wraps a bit pattern.
    pub fn from_bits(bits: u64) -> (d: Double)
        ensures
            d.bits == bits,
    {
        Double { bits }
    }

    /// Hands the bit pattern back.
    pub fn to_bits(&self) -> (bits: u64)
        ensures
            bits == self.bits,
    {
        self.bits
    }

    /// Computes [`Double::rank`].
    pub fn sort_key(&self) -> (key: i64)
        ensures
            key == self.rank(),
    {
        let negative: bool = self.bits >= SIGN_BIT;
        let magnitude: u64 = if negative {
            self.bits - SIGN_BIT
        } else {
            self.bits
        };
        if magnitude > INFINITY_BITS {
            0x7FF0_0000_0000_0001i64
        } else if negative {
            -(magnitude as i64)
        } else {
            magnitude as i64
        }
    }

    /// Whether `self` comes no later than `other` in the order of doubles.
    pub fn precedes_or_ties(&self, other: &Double) -> (b: bool)
        ensures
            b == (self.rank() <= other.rank()),
    {
        self.sort_key() <= other.sort_key()
    }
}

} // verus!
