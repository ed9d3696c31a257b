//! Double-precision numbers, held by their bit patterns.
//!
//! A `Number` is the 64-bit pattern of an IEEE-754 binary64 value: one sign
//! bit, eleven exponent bits, fifty-two fraction bits. What depends only on
//! the layout of those bits (sign change, the order of two values, equality)
//! is computed here with integers. Rounding arithmetic and the conversion
//! from and to decimal text are left to the caller.
use vstd::prelude::*;

verus! {

/// Two to the power 63: the weight of the sign bit.
pub const SIGN_BIT: u64 = 0x8000_0000_0000_0000u64;

/// The magnitude of positive infinity; every larger magnitude is not a number.
pub const INFINITY_MAGNITUDE: u64 = 0x7ff0_0000_0000_0000u64;

/// A double-precision value, given by its bit pattern.
#[derive(Debug, Clone, Copy, PartialEq, Eq, Structural)]
pub struct Number {
    pub bits: u64,
}

impl Number {
    /// The pattern without its sign bit.
    pub open spec fn spec_magnitude(self) -> int {
        self.bits as int % 0x8000_0000_0000_0000
    }

    /// Whether the sign bit is set.
    pub open spec fn spec_is_negative(self) -> bool {
        self.bits >= 0x8000_0000_0000_0000
    }

    /// Whether the pattern stands for no number at all.
    pub open spec fn spec_is_nan(self) -> bool {
        self.spec_magnitude() > 0x7ff0_0000_0000_0000
    }

    /// An integer that orders the patterns that stand for numbers as the
    /// numbers themselves are ordered. Both zeros get the key zero.
    pub open spec fn order_key(self) -> int {
        if self.spec_is_negative() {
            -self.spec_magnitude()
        } else {
            self.spec_magnitude()
        }
    }

    /// Numeric equality: nothing equals a NaN, and the two zeros are equal.
    pub open spec fn spec_equals(self, other: Number) -> bool {
        !self.spec_is_nan() && !other.spec_is_nan() && self.order_key() == other.order_key()
    }

    /// Numeric `<`: false as soon as one side is a NaN.
    pub open spec fn spec_less(self, other: Number) -> bool {
        !self.spec_is_nan() && !other.spec_is_nan() && self.order_key() < other.order_key()
    }

    /// Numeric `<=`: false as soon as one side is a NaN.
    pub open spec fn spec_less_equal(self, other: Number) -> bool {
        !self.spec_is_nan() && !other.spec_is_nan() && self.order_key() <= other.order_key()
    }

    /// Numeric `>`: false as soon as one side is a NaN.
    pub open spec fn spec_greater(self, other: Number) -> bool {
        other.spec_less(self)
    }

    /// Numeric `>=`: false as soon as one side is a NaN.
    pub open spec fn spec_greater_equal(self, other: Number) -> bool {
        other.spec_less_equal(self)
    }

    /// The same magnitude under the opposite sign.
    pub open spec fn spec_negate(self) -> Number {
        if self.spec_is_negative() {
            Number { bits: (self.bits - 0x8000_0000_0000_0000) as u64 }
        } else {
            Number { bits: (self.bits + 0x8000_0000_0000_0000) as u64 }
        }
    }

    /// The number with the given bit pattern.
    pub fn from_bits(bits: u64) -> (r: Number)
        ensures
            r.bits == bits,
    {
        Number { bits }
    }

    /// The bit pattern of this number.
    pub fn to_bits(self) -> (r: u64)
        ensures
            r == self.bits,
    {
        self.bits
    }

    /// The pattern without its sign bit.
    pub fn magnitude(self) -> (r: u64)
        ensures
            r == self.spec_magnitude(),
    {
        let b: u64 = self.bits;
        assert(b & 0x7fff_ffff_ffff_ffffu64 == b % 0x8000_0000_0000_0000u64) by (bit_vector);
        b & 0x7fff_ffff_ffff_ffffu64
    }

    /// Whether the sign bit is set.
    #[verifier::when_used_as_spec(spec_is_negative)]
    pub fn is_negative(self) -> (r: bool)
        ensures
            r == self.spec_is_negative(),
    {
        self.bits >= SIGN_BIT
    }

    /// Whether the pattern stands for no number at all.
    #[verifier::when_used_as_spec(spec_is_nan)]
    pub fn is_nan(self) -> (r: bool)
        ensures
            r == self.spec_is_nan(),
    {
        self.magnitude() > INFINITY_MAGNITUDE
    }

    /// The same magnitude under the opposite sign.
    #[verifier::when_used_as_spec(spec_negate)]
    pub fn negate(self) -> (r: Number)
        ensures
            r == self.spec_negate(),
            r.spec_magnitude() == self.spec_magnitude(),
            r.spec_is_negative() != self.spec_is_negative(),
    {
        if self.bits >= SIGN_BIT {
            Number { bits: self.bits - SIGN_BIT }
        } else {
            Number { bits: self.bits + SIGN_BIT }
        }
    }

    /// Numeric equality.
    #[verifier::when_used_as_spec(spec_equals)]
    pub fn equals(self, other: Number) -> (r: bool)
        ensures
            r == self.spec_equals(other),
    {
        if self.is_nan() || other.is_nan() {
            return false;
        }
        let a: u64 = self.magnitude();
        let b: u64 = other.magnitude();
        if self.is_negative() == other.is_negative() {
            a == b
        } else {
            a == 0 && b == 0
        }
    }

    /// Numeric `<`.
    #[verifier::when_used_as_spec(spec_less)]
    pub fn less(self, other: Number) -> (r: bool)
        ensures
            r == self.spec_less(other),
    {
        if self.is_nan() || other.is_nan() {
            return false;
        }
        let a: u64 = self.magnitude();
        let b: u64 = other.magnitude();
        if self.is_negative() {
            if other.is_negative() {
                b < a
            } else {
                a != 0 || b != 0
            }
        } else {
            !other.is_negative() && a < b
        }
    }

    /// Numeric `<=`.
    #[verifier::when_used_as_spec(spec_less_equal)]
    pub fn less_equal(self, other: Number) -> (r: bool)
        ensures
            r == self.spec_less_equal(other),
    {
        if self.is_nan() || other.is_nan() {
            return false;
        }
        self.less(other) || self.equals(other)
    }

    /// Numeric `>`.
    #[verifier::when_used_as_spec(spec_greater)]
    pub fn greater(self, other: Number) -> (r: bool)
        ensures
            r == self.spec_greater(other),
    {
        other.less(self)
    }

    /// Numeric `>=`.
    #[verifier::when_used_as_spec(spec_greater_equal)]
    pub fn greater_equal(self, other: Number) -> (r: bool)
        ensures
            r == self.spec_greater_equal(other),
    {
        other.less_equal(self)
    }
}

/// Changing the sign twice gives the number back.
pub proof fn lemma_negate_twice(n: Number)
    ensures
        n.spec_negate().spec_negate() == n,
{
}

/// Of two patterns that stand for numbers, exactly one of `<`, `==` and `>`
/// holds.
pub proof fn lemma_order_is_total(a: Number, b: Number)
    requires
        !a.spec_is_nan(),
        !b.spec_is_nan(),
    ensures
        a.spec_less(b) || a.spec_equals(b) || a.spec_greater(b),
        !(a.spec_less(b) && a.spec_equals(b)),
        !(a.spec_less(b) && a.spec_greater(b)),
        !(a.spec_equals(b) && a.spec_greater(b)),
        a.spec_less_equal(b) == (a.spec_less(b) || a.spec_equals(b)),
{
}

/// A NaN is unordered with everything and equal to nothing, itself included.
pub proof fn lemma_nan_is_unordered(a: Number, b: Number)
    requires
        a.spec_is_nan() || b.spec_is_nan(),
    ensures
        !a.spec_equals(b),
        !a.spec_less(b),
        !a.spec_less_equal(b),
        !a.spec_greater(b),
        !a.spec_greater_equal(b),
{
}

} // verus!
