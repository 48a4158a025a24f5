//! Scores of the inference engine, held by their bit patterns.
//!
//! A score is a single-precision IEEE 754 number. It is kept here as the
//! 32 bits that encode it: one sign bit, eight exponent bits and
//! twenty-three mantissa bits. On patterns that encode a number, the
//! numeric order is the order of the signed magnitudes, which is what
//! [`Score::rank`] computes.

use vstd::prelude::*;

verus! {

/// The pattern in which only the sign bit is set.
pub const SIGN_BIT: u32 = 0x8000_0000;

/// The magnitude of an infinity: every exponent bit set, no mantissa bit.
pub const INFINITY_MAGNITUDE: u32 = 0x7f80_0000;

/// One score, as the bit pattern of a single-precision number.
#[derive(Clone, Copy, Debug, PartialEq, Eq, Structural)]
pub struct Score {
    pub bits: u32,
}

impl Score {
    /// Whether the sign bit is set.
    pub open spec fn negative(self) -> bool {
        self.bits >= SIGN_BIT
    }

    /// The pattern without its sign bit.
    pub open spec fn magnitude(self) -> int {
        if self.negative() {
            self.bits - SIGN_BIT
        } else {
            self.bits as int
        }
    }

    /// Whether the pattern encodes no number: its magnitude lies above that
    /// of an infinity.
    pub open spec fn not_a_number(self) -> bool {
        self.magnitude() > INFINITY_MAGNITUDE
    }

    /// The place of the score in the numeric order. Both zeros have rank 0,
    /// so they compare as equal; the infinities are the two extremes.
    pub open spec fn rank(self) -> int {
        if self.negative() {
            -self.magnitude()
        } else {
            self.magnitude()
        }
    }

    /// The score with the given bit pattern.
    pub fn from_bits(bits: u32) -> (score: Score)
        ensures
            score.bits == bits,
    {
        Score { bits }
    }

    /// The bit pattern of the score.
    pub fn to_bits(&self) -> (bits: u32)
        ensures
            bits == self.bits,
    {
        self.bits
    }

    /// Tells whether the score is not a number.
    pub fn is_nan(&self) -> (nan: bool)
        ensures
            nan == self.not_a_number(),
    {
        let magnitude: u32 = if self.bits >= SIGN_BIT {
            self.bits - SIGN_BIT
        } else {
            self.bits
        };
        magnitude > INFINITY_MAGNITUDE
    }

    /// Tells whether this score is strictly greater than `other`.
    pub fn exceeds(&self, other: &Score) -> (greater: bool)
        ensures
            greater == (self.rank() > other.rank()),
    {
        if self.bits >= SIGN_BIT {
            // Among negative patterns the smaller magnitude is the greater number.
            other.bits >= SIGN_BIT && self.bits < other.bits
        } else if other.bits >= SIGN_BIT {
            // A negative zero equals a positive zero.
            self.bits > 0 || other.bits > SIGN_BIT
        } else {
            self.bits > other.bits
        }
    }
}

} // verus!
