//! Single-precision numbers as bit patterns.
//!
//! Coordinates are IEEE-754 single-precision numbers. They cross this library
//! as their 32 bits, so that comparing and negating them is integer work: bit
//! 31 is the sign, the low 31 bits are the magnitude, and among numbers of one
//! sign a larger magnitude is a number further from zero. Magnitudes above that
//! of infinity are NaNs.

use vstd::prelude::*;

verus! {

/// The sign bit.
pub const SIGN_BIT: u32 = 0x8000_0000;

/// The magnitude of infinity; every larger magnitude is a NaN.
pub const INFINITY_MAGNITUDE: u32 = 0x7f80_0000;

/// A single-precision number, held as its bits.
#[derive(Clone, Copy, Debug, PartialEq, Eq, Structural)]
pub struct Scalar {
    pub bits: u32,
}

impl Scalar {
    /// Whether the sign bit is set.
    pub open spec fn is_negative(self) -> bool {
        self.bits >= SIGN_BIT
    }

    /// The bits without the sign.
    pub open spec fn magnitude(self) -> nat {
        if self.is_negative() {
            (self.bits - SIGN_BIT) as nat
        } else {
            self.bits as nat
        }
    }

    /// Whether this is not a number.
    pub open spec fn is_nan(self) -> bool {
        self.magnitude() > INFINITY_MAGNITUDE
    }

    /// The place of a number on the number line, counted in representable
    /// numbers from zero. Two numbers compare as their places do, and the two
    /// zeros share the place 0.
    pub open spec fn place(self) -> int {
        if self.is_negative() {
            -(self.magnitude() as int)
        } else {
            self.magnitude() as int
        }
    }

    /// `self <= other` as IEEE-754 has it: false where either is a NaN.
    pub open spec fn le(self, other: Scalar) -> bool {
        !self.is_nan() && !other.is_nan() && self.place() <= other.place()
    }

    /// The number with the opposite sign and the same magnitude.
    pub open spec fn negated(self) -> Scalar {
        if self.is_negative() {
            Scalar { bits: (self.bits - SIGN_BIT) as u32 }
        } else {
            Scalar { bits: (self.bits + SIGN_BIT) as u32 }
        }
    }

    /// Positive zero.
    pub open spec fn zero() -> Scalar {
        Scalar { bits: 0 }
    }

    /// Whether this is not a number.
    pub fn not_a_number(&self) -> (nan: bool)
        ensures
            nan == self.is_nan(),
    {
        let magnitude = if self.bits >= SIGN_BIT {
            self.bits - SIGN_BIT
        } else {
            self.bits
        };
        magnitude > INFINITY_MAGNITUDE
    }

    /// The place of the number on the number line.
    pub fn position(&self) -> (place: i64)
        ensures
            place == self.place(),
    {
        if self.bits >= SIGN_BIT {
            let magnitude: i64 = (self.bits - SIGN_BIT) as i64;
            -magnitude
        } else {
            self.bits as i64
        }
    }

    /// Whether `self <= other`.
    pub fn at_most(&self, other: &Scalar) -> (holds: bool)
        ensures
            holds == self.le(*other),
    {
        !self.not_a_number() && !other.not_a_number() && self.position() <= other.position()
    }

    /// The number with the opposite sign and the same magnitude.
    pub fn negate(&self) -> (opposite: Scalar)
        ensures
            opposite == self.negated(),
    {
        if self.bits >= SIGN_BIT {
            Scalar { bits: self.bits - SIGN_BIT }
        } else {
            Scalar { bits: self.bits + SIGN_BIT }
        }
    }

    /// Negating flips the sign and nothing else: the magnitude stays, the
    /// place is mirrored at zero, a NaN stays a NaN, and negating twice gives
    /// the number back.
    pub proof fn lemma_negated(self)
        ensures
            self.negated().is_negative() == !self.is_negative(),
            self.negated().magnitude() == self.magnitude(),
            self.negated().place() == -self.place(),
            self.negated().is_nan() == self.is_nan(),
            self.negated().negated() == self,
    {
    }

    /// Numbers are ordered in a line: `le` is reflexive and total on the
    /// numbers that are not NaN, and transitive. Two numbers are each at most
    /// the other only if they are the same number or both zero.
    pub proof fn lemma_le_orders(self, other: Scalar, third: Scalar)
        ensures
            !self.is_nan() ==> self.le(self),
            !self.is_nan() && !other.is_nan() ==> self.le(other) || other.le(self),
            self.le(other) && other.le(third) ==> self.le(third),
            self.le(other) && other.le(self) ==> self == other || (self.magnitude() == 0
                && other.magnitude() == 0),
    {
    }
}

} // verus!
