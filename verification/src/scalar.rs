//! Single-precision numbers, held by their bit pattern.
//!
//! The application passes pace factors, sensitivities and desktop coordinates
//! through as single-precision numbers. It compares and clamps them but never
//! computes with them here, so the IEEE 754 bit pattern and its order are all
//! that is needed.

use vstd::prelude::*;

verus! {

/// The bit pattern with only the sign bit set.
pub const SIGN_BIT: u32 = 0x8000_0000;

/// The bit pattern of positive infinity.
pub const INFINITY_BITS: u32 = 0x7f80_0000;

/// The bit pattern of one.
pub const ONE_BITS: u32 = 0x3f80_0000;

/// A single-precision number, held by its IEEE 754 bit pattern.
///
/// Two values are equal as `Scalar` when their patterns are; [`Scalar::same`] is
/// the numeric comparison, in which both zeros agree and a NaN agrees with nothing.
#[derive(Clone, Copy, Debug, PartialEq, Eq, Structural)]
pub struct Scalar {
    pub bits: u32,
}

impl Scalar {
    /// The pattern without its sign.
    pub open spec fn magnitude(self) -> int {
        if self.bits < SIGN_BIT {
            self.bits as int
        } else {
            self.bits - SIGN_BIT
        }
    }

    /// Neither infinite nor a NaN.
    pub open spec fn finite(self) -> bool {
        self.magnitude() < INFINITY_BITS
    }

    /// Not a number.
    pub open spec fn nan(self) -> bool {
        self.magnitude() > INFINITY_BITS
    }

    /// An integer that orders the numbers as they are ordered; both zeros have key 0.
    pub open spec fn key(self) -> int {
        if self.bits < SIGN_BIT {
            self.bits as int
        } else {
            SIGN_BIT - self.bits
        }
    }

    /// Numeric "less than": false where either side is a NaN.
    pub open spec fn below(self, other: Scalar) -> bool {
        !self.nan() && !other.nan() && self.key() < other.key()
    }

    /// Numeric equality: false where either side is a NaN.
    pub open spec fn equals(self, other: Scalar) -> bool {
        !self.nan() && !other.nan() && self.key() == other.key()
    }

    /// The number nearest to this one between `low` and `high`.
    pub open spec fn clamped(self, low: Scalar, high: Scalar) -> Scalar {
        if self.below(low) {
            low
        } else if high.below(self) {
            high
        } else {
            self
        }
    }

    /// The smaller of two numbers; where one is a NaN, the other.
    pub open spec fn lesser(self, other: Scalar) -> Scalar {
        if self.nan() || other.below(self) {
            other
        } else {
            self
        }
    }

    /// The larger of two numbers; where one is a NaN, the other.
    pub open spec fn greater(self, other: Scalar) -> Scalar {
        if self.nan() || self.below(other) {
            other
        } else {
            self
        }
    }

    /// The number one.
    pub fn one() -> (r: Scalar)
        ensures
            r.bits == ONE_BITS,
    {
        Scalar { bits: ONE_BITS }
    }

    fn unsigned(self) -> (r: u32)
        ensures
            r == self.magnitude(),
    {
        if self.bits < SIGN_BIT {
            self.bits
        } else {
            self.bits - SIGN_BIT
        }
    }

    fn order(self) -> (r: i64)
        ensures
            r == self.key(),
    {
        if self.bits < SIGN_BIT {
            self.bits as i64
        } else {
            SIGN_BIT as i64 - self.bits as i64
        }
    }

    /// Whether the number is neither infinite nor a NaN.
    pub fn is_finite(self) -> (r: bool)
        ensures
            r == self.finite(),
    {
        self.unsigned() < INFINITY_BITS
    }

    /// Whether the number is not a number.
    pub fn is_nan(self) -> (r: bool)
        ensures
            r == self.nan(),
    {
        self.unsigned() > INFINITY_BITS
    }

    /// Numeric "less than".
    pub fn less(self, other: Scalar) -> (r: bool)
        ensures
            r == self.below(other),
    {
        !self.is_nan() && !other.is_nan() && self.order() < other.order()
    }

    /// Numeric equality.
    pub fn same(self, other: Scalar) -> (r: bool)
        ensures
            r == self.equals(other),
    {
        !self.is_nan() && !other.is_nan() && self.order() == other.order()
    }

    /// The smaller of two numbers; where one is a NaN, the other.
    pub fn min(self, other: Scalar) -> (r: Scalar)
        ensures
            r == self.lesser(other),
    {
        if self.is_nan() || other.less(self) {
            other
        } else {
            self
        }
    }

    /// The larger of two numbers; where one is a NaN, the other.
    pub fn max(self, other: Scalar) -> (r: Scalar)
        ensures
            r == self.greater(other),
    {
        if self.is_nan() || self.less(other) {
            other
        } else {
            self
        }
    }

    /// Clamps to `low..=high`; a NaN stays as it is.
    ///
    /// The range has to be one: its ends are numbers, `low` not above `high`.
    pub fn clamp_to(self, low: Scalar, high: Scalar) -> (r: Scalar)
        requires
            !low.nan(),
            !high.nan(),
            low.key() <= high.key(),
        ensures
            r == self.clamped(low, high),
    {
        if self.less(low) {
            low
        } else if high.less(self) {
            high
        } else {
            self
        }
    }
}

/// A clamped number lies in the range, and clamping it again changes nothing.
pub proof fn lemma_clamped_in_range(value: Scalar, low: Scalar, high: Scalar)
    requires
        !value.nan(),
        !low.nan(),
        !high.nan(),
        low.key() <= high.key(),
    ensures
        !value.clamped(low, high).nan(),
        low.key() <= value.clamped(low, high).key() <= high.key(),
        value.clamped(low, high).clamped(low, high) == value.clamped(low, high),
        low.key() <= value.key() <= high.key() ==> value.clamped(low, high) == value,
{
}

/// A number is finite unless all bits of its exponent are set; with those set it is not a
/// number exactly where a bit of the fraction is set too.
pub proof fn lemma_exponent_tells_the_kind(value: Scalar)
    ensures
        value.finite() <==> value.bits & 0x7f80_0000 != 0x7f80_0000,
        value.nan() <==> value.bits & 0x7f80_0000 == 0x7f80_0000 && value.bits & 0x007f_ffff != 0,
        !(value.finite() && value.nan()),
{
    let b = value.bits;
    assert(b < 0x8000_0000 ==> (b < 0x7f80_0000 <==> b & 0x7f80_0000 != 0x7f80_0000)) by (bit_vector);
    assert(b >= 0x8000_0000 ==> (b - 0x8000_0000 < 0x7f80_0000 <==> b & 0x7f80_0000
        != 0x7f80_0000)) by (bit_vector);
    assert(b < 0x8000_0000 ==> (b > 0x7f80_0000 <==> b & 0x7f80_0000 == 0x7f80_0000 && b
        & 0x007f_ffff != 0)) by (bit_vector);
    assert(b >= 0x8000_0000 ==> (b - 0x8000_0000 > 0x7f80_0000 <==> b & 0x7f80_0000 == 0x7f80_0000
        && b & 0x007f_ffff != 0)) by (bit_vector);
}

/// Numbers without a sign are ordered as their patterns, numbers with one against theirs, and
/// those with a sign lie below those without. Both zeros are equal. What is not a number is
/// neither below, nor above, nor equal to anything.
pub proof fn lemma_patterns_are_ordered(a: Scalar, b: Scalar)
    ensures
        a.nan() || b.nan() ==> !a.below(b) && !b.below(a) && !a.equals(b),
        !a.nan() && !b.nan() ==> {
            &&& a.bits < 0x8000_0000 && b.bits < 0x8000_0000 ==> (a.below(b) <==> a.bits < b.bits)
            &&& a.bits >= 0x8000_0000 && b.bits >= 0x8000_0000 ==> (a.below(b) <==> a.bits
                > b.bits)
            &&& a.bits >= 0x8000_0000 && b.bits < 0x8000_0000 ==> !b.below(a)
            &&& a.bits > 0x8000_0000 && b.bits < 0x8000_0000 ==> a.below(b)
            &&& a.bits == 0x8000_0000 && b.bits == 0 ==> a.equals(b)
            &&& a.equals(b) <==> !a.below(b) && !b.below(a)
        },
{
}

/// The smaller of two numbers is one of them and not above either; the larger is one of them
/// and not below either. Beside what is not a number the other one counts.
pub proof fn lemma_lesser_and_greater(a: Scalar, b: Scalar)
    ensures
        !a.nan() && !b.nan() ==> {
            &&& a.lesser(b) == a || a.lesser(b) == b
            &&& !a.below(a.lesser(b)) && !b.below(a.lesser(b))
            &&& a.greater(b) == a || a.greater(b) == b
            &&& !a.greater(b).below(a) && !a.greater(b).below(b)
        },
        a.nan() ==> a.lesser(b) == b && a.greater(b) == b,
        b.nan() && !a.nan() ==> a.lesser(b) == a && a.greater(b) == a,
{
}

/// A number outside of a range goes to the end that is nearer.
pub proof fn lemma_clamped_to_the_nearer_end(value: Scalar, low: Scalar, high: Scalar)
    requires
        !low.nan(),
        !high.nan(),
        low.key() <= high.key(),
    ensures
        value.below(low) ==> value.clamped(low, high) == low,
        high.below(value) ==> value.clamped(low, high) == high,
        value.nan() ==> value.clamped(low, high) == value,
{
}

} // verus!
