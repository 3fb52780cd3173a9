//! IEEE 754 single-precision values, held by their bit pattern.
//!
//! A [`Scalar`] is the 32-bit encoding of a binary32 number: one sign bit,
//! eight exponent bits, twenty-three fraction bits. The order of the encoded
//! values is decided on the bits alone, so that every comparison the viewer
//! makes is exact and covered by proof, NaN and the two zeros included.

use vstd::prelude::*;

verus! {

/// The sign bit of the encoding.
pub const SIGN_BIT: u32 = 0x8000_0000;

/// The encoding of positive infinity; every larger magnitude is a NaN.
pub const INFINITY_BITS: u32 = 0x7f80_0000;

/// The encoding of the largest finite value.
pub const MAX_FINITE_BITS: u32 = 0x7f7f_ffff;

/// The encoding of `1`.
pub const ONE_BITS: u32 = 0x3f80_0000;

/// A binary32 value, by its bit pattern.
///
/// `==` on two scalars compares encodings, so it tells `+0` from `-0` and
/// finds a NaN equal to itself. The numeric relations are [`Scalar::lt`],
/// [`Scalar::le`], [`Scalar::gt`], [`Scalar::ge`] and [`Scalar::same_value`].
#[derive(Clone, Copy, Debug, PartialEq, Eq, Structural)]
pub struct Scalar {
    pub bits: u32,
}

impl Scalar {
    /// Whether the sign bit is set (true of `-0`, and of NaNs with the bit set).
    pub open spec fn sign_negative(self) -> bool {
        self.bits >= SIGN_BIT
    }

    /// The encoding without its sign bit.
    pub open spec fn magnitude(self) -> int {
        if self.bits >= SIGN_BIT {
            self.bits - SIGN_BIT
        } else {
            self.bits as int
        }
    }

    /// Not a number: the exponent is all ones and the fraction is not zero.
    pub open spec fn spec_is_nan(self) -> bool {
        self.magnitude() > INFINITY_BITS
    }

    /// Neither infinite nor NaN.
    pub open spec fn spec_is_finite(self) -> bool {
        self.magnitude() < INFINITY_BITS
    }

    /// The place of a value that is not NaN on the extended real line, as an
    /// integer that grows with the value. Both zeros have rank 0; for two
    /// values that are not NaN, the smaller value has the smaller rank.
    pub open spec fn rank(self) -> int {
        if self.sign_negative() {
            -self.magnitude()
        } else {
            self.magnitude()
        }
    }

    /// `self < other` as IEEE 754 defines it: false when either is NaN.
    pub open spec fn spec_lt(self, other: Scalar) -> bool {
        !self.spec_is_nan() && !other.spec_is_nan() && self.rank() < other.rank()
    }

    /// `self <= other` as IEEE 754 defines it: false when either is NaN.
    pub open spec fn spec_le(self, other: Scalar) -> bool {
        !self.spec_is_nan() && !other.spec_is_nan() && self.rank() <= other.rank()
    }

    /// `self > other` as IEEE 754 defines it: false when either is NaN.
    pub open spec fn spec_gt(self, other: Scalar) -> bool {
        other.spec_lt(self)
    }

    /// `self >= other` as IEEE 754 defines it: false when either is NaN.
    pub open spec fn spec_ge(self, other: Scalar) -> bool {
        other.spec_le(self)
    }

    /// Numeric equality: neither is NaN and both denote the same number
    /// (`+0` and `-0` do).
    pub open spec fn spec_same_value(self, other: Scalar) -> bool {
        !self.spec_is_nan() && !other.spec_is_nan() && self.rank() == other.rank()
    }

    /// The larger of two values, where a NaN yields to the other argument:
    /// `other` if `self` is NaN, `self` if `other` is NaN or the two are
    /// numerically equal.
    pub open spec fn spec_max(self, other: Scalar) -> Scalar {
        if self.spec_is_nan() {
            other
        } else if other.spec_is_nan() {
            self
        } else if self.rank() < other.rank() {
            other
        } else {
            self
        }
    }

    /// Positive zero.
    pub open spec fn spec_zero() -> Scalar {
        Scalar { bits: 0 }
    }

    /// The number one.
    pub open spec fn spec_one() -> Scalar {
        Scalar { bits: ONE_BITS }
    }

    /// The largest finite value.
    pub open spec fn spec_max_finite() -> Scalar {
        Scalar { bits: MAX_FINITE_BITS }
    }

    /// Positive zero.
    #[verifier::when_used_as_spec(spec_zero)]
    pub fn zero() -> (s: Scalar)
        ensures
            s == Scalar::spec_zero(),
    {
        Scalar { bits: 0 }
    }

    /// The number one.
    #[verifier::when_used_as_spec(spec_one)]
    pub fn one() -> (s: Scalar)
        ensures
            s == Scalar::spec_one(),
    {
        Scalar { bits: ONE_BITS }
    }

    /// The largest finite value.
    #[verifier::when_used_as_spec(spec_max_finite)]
    pub fn max_finite() -> (s: Scalar)
        ensures
            s == Scalar::spec_max_finite(),
    {
        Scalar { bits: MAX_FINITE_BITS }
    }

    /// The scalar with the given encoding.
    pub fn from_bits(bits: u32) -> (s: Scalar)
        ensures
            s.bits == bits,
    {
        Scalar { bits }
    }

    /// The encoding.
    pub fn to_bits(self) -> (bits: u32)
        ensures
            bits == self.bits,
    {
        self.bits
    }

    /// The encoding without its sign bit.
    fn abs_bits(self) -> (m: u32)
        ensures
            m == self.magnitude(),
            m < SIGN_BIT,
    {
        if self.bits >= SIGN_BIT {
            self.bits - SIGN_BIT
        } else {
            self.bits
        }
    }

    /// Whether the sign bit is set.
    pub fn is_sign_negative(self) -> (r: bool)
        ensures
            r == self.sign_negative(),
    {
        self.bits >= SIGN_BIT
    }

    /// Whether the value is NaN.
    #[verifier::when_used_as_spec(spec_is_nan)]
    pub fn is_nan(self) -> (r: bool)
        ensures
            r == self.spec_is_nan(),
    {
        self.abs_bits() > INFINITY_BITS
    }

    /// Whether the value is neither infinite nor NaN.
    #[verifier::when_used_as_spec(spec_is_finite)]
    pub fn is_finite(self) -> (r: bool)
        ensures
            r == self.spec_is_finite(),
    {
        self.abs_bits() < INFINITY_BITS
    }

    /// `self < other`; false when either is NaN.
    #[verifier::when_used_as_spec(spec_lt)]
    pub fn lt(self, other: Scalar) -> (r: bool)
        ensures
            r == self.spec_lt(other),
    {
        if self.is_nan() || other.is_nan() {
            return false;
        }
        let a: u32 = self.abs_bits();
        let b: u32 = other.abs_bits();
        if self.is_sign_negative() {
            if other.is_sign_negative() {
                b < a
            } else {
                a != 0 || b != 0
            }
        } else {
            if other.is_sign_negative() {
                false
            } else {
                a < b
            }
        }
    }

    /// `self <= other`; false when either is NaN.
    #[verifier::when_used_as_spec(spec_le)]
    pub fn le(self, other: Scalar) -> (r: bool)
        ensures
            r == self.spec_le(other),
    {
        if self.is_nan() || other.is_nan() {
            return false;
        }
        !other.lt(self)
    }

    /// `self > other`; false when either is NaN.
    #[verifier::when_used_as_spec(spec_gt)]
    pub fn gt(self, other: Scalar) -> (r: bool)
        ensures
            r == self.spec_gt(other),
    {
        other.lt(self)
    }

    /// `self >= other`; false when either is NaN.
    #[verifier::when_used_as_spec(spec_ge)]
    pub fn ge(self, other: Scalar) -> (r: bool)
        ensures
            r == self.spec_ge(other),
    {
        other.le(self)
    }

    /// Whether both denote the same number; false when either is NaN.
    #[verifier::when_used_as_spec(spec_same_value)]
    pub fn same_value(self, other: Scalar) -> (r: bool)
        ensures
            r == self.spec_same_value(other),
    {
        self.le(other) && other.le(self)
    }

    /// The larger of the two, where a NaN yields to the other argument.
    #[verifier::when_used_as_spec(spec_max)]
    pub fn max(self, other: Scalar) -> (m: Scalar)
        ensures
            m == self.spec_max(other),
    {
        if self.is_nan() {
            other
        } else if self.lt(other) {
            other
        } else {
            self
        }
    }
}

/// No value is below itself, and of two values at most one is below the other.
pub proof fn lemma_lt_asymmetric(a: Scalar, b: Scalar)
    ensures
        !a.spec_lt(a),
        a.spec_lt(b) ==> !b.spec_lt(a),
{
}

/// The order is transitive, also where one of the two steps is not strict.
pub proof fn lemma_lt_transitive(a: Scalar, b: Scalar, c: Scalar)
    ensures
        a.spec_lt(b) && b.spec_lt(c) ==> a.spec_lt(c),
        a.spec_le(b) && b.spec_lt(c) ==> a.spec_lt(c),
        a.spec_lt(b) && b.spec_le(c) ==> a.spec_lt(c),
        a.spec_le(b) && b.spec_le(c) ==> a.spec_le(c),
{
}

/// Two values that are not NaN are comparable: exactly one of below, equal in
/// value and above holds.
pub proof fn lemma_trichotomy(a: Scalar, b: Scalar)
    requires
        !a.spec_is_nan(),
        !b.spec_is_nan(),
    ensures
        a.spec_lt(b) || a.spec_same_value(b) || a.spec_gt(b),
        !(a.spec_lt(b) && a.spec_same_value(b)),
        !(a.spec_gt(b) && a.spec_same_value(b)),
        !(a.spec_lt(b) && a.spec_gt(b)),
        a.spec_le(b) <==> (a.spec_lt(b) || a.spec_same_value(b)),
{
}

/// A NaN is unordered: every comparison with it is false.
pub proof fn lemma_nan_unordered(a: Scalar, b: Scalar)
    requires
        a.spec_is_nan() || b.spec_is_nan(),
    ensures
        !a.spec_lt(b),
        !a.spec_le(b),
        !a.spec_gt(b),
        !a.spec_ge(b),
        !a.spec_same_value(b),
{
}

/// `max` against a bound that is not NaN never falls below the bound, is
/// never NaN, and leaves a value that is already at or above the bound as it
/// is.
pub proof fn lemma_max_bounds(x: Scalar, bound: Scalar)
    requires
        !bound.spec_is_nan(),
    ensures
        x.spec_max(bound).spec_ge(bound),
        !x.spec_max(bound).spec_is_nan(),
        x.spec_ge(bound) ==> x.spec_max(bound) == x,
        x.spec_max(bound) == x || x.spec_max(bound) == bound,
{
}

} // verus!
