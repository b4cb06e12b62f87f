//! Trust scores and how they compare.
//!
//! A score is an IEEE 754 single-precision number. It is held by its bit
//! pattern, and two scores are compared through an integer rank that orders
//! the bit patterns as the numbers they stand for are ordered.

use vstd::prelude::*;

verus! {

/// A trust score, held by the 32 bits of its single-precision form: the sign
/// in the top bit, then eight bits of exponent and 23 bits of fraction.
#[derive(Clone, Copy, Debug, PartialEq, Eq)]
pub struct Score {
    pub bits: u32,
}

impl Score {
    /// Exponent and fraction, read as one number: the bits below the sign.
    pub open spec fn magnitude(self) -> int {
        self.bits as int % 0x8000_0000
    }

    /// Whether the sign bit is set.
    pub open spec fn negative(self) -> bool {
        self.bits >= 0x8000_0000
    }

    /// Whether the bits stand for no number: an exponent of all ones with a
    /// fraction other than zero.
    pub open spec fn is_nan(self) -> bool {
        self.magnitude() > 0x7f80_0000
    }

    /// The place of the score among the numbers. Of two scores that are
    /// numbers the greater has the greater rank; the two zeros share rank 0.
    pub open spec fn rank(self) -> int {
        if self.negative() {
            -self.magnitude()
        } else {
            self.magnitude()
        }
    }

    /// `self >= min` as numbers compare: false as soon as either is no
    /// number.
    pub open spec fn reaches(self, min: Score) -> bool {
        &&& !self.is_nan()
        &&& !min.is_nan()
        &&& self.rank() >= min.rank()
    }

    /// The score with the given bit pattern.
    pub fn from_bits(bits: u32) -> (score: Score)
        ensures
            score.bits == bits,
    {
        Score { bits }
    }

    /// The bit pattern of the score.
    pub fn to_bits(&self) -> (bits: u32)
        ensures
            bits == self.bits,
    {
        self.bits
    }

    /// The score zero, with a clear sign bit.
    pub fn zero() -> (score: Score)
        ensures
            score.bits == 0,
    {
        Score { bits: 0 }
    }

    /// Whether the score is at least `min`.
    pub fn at_least(&self, min: &Score) -> (yes: bool)
        ensures
            yes == self.reaches(*min),
    {
        let own: u32 = self.bits % 0x8000_0000;
        let other: u32 = min.bits % 0x8000_0000;
        if own > 0x7f80_0000 || other > 0x7f80_0000 {
            return false;
        }
        let own_rank: i64 = if self.bits >= 0x8000_0000 {
            0 - own as i64
        } else {
            own as i64
        };
        let other_rank: i64 = if min.bits >= 0x8000_0000 {
            0 - other as i64
        } else {
            other as i64
        };
        own_rank >= other_rank
    }
}

} // verus!
