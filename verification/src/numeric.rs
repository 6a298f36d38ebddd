//! Double-precision numbers as raw IEEE-754 bit patterns.
//!
//! The numeric core of this crate never performs floating-point arithmetic
//! itself: every `f64` a caller owns is handed over as its raw 64-bit word
//! (`f64::to_bits`) and travels through the library as a [`Real`].  What the
//! library *decides* on such values — is it a NaN, is it positive, how do two
//! values order — is implemented here directly on the bit layout and verified
//! against the spec-level reading of IEEE-754 binary64:
//!
//! * bit 63 is the sign,
//! * bits 52..63 are the biased exponent (`0x7FF` marks infinities and NaNs),
//! * bits 0..52 are the fraction,
//! * NaN compares false with everything, `-0.0` equals `+0.0`, and otherwise
//!   two values of one sign order by their magnitude bits, two values of
//!   different sign order by sign.

use vstd::prelude::*;

verus! {

/// Mask of the sign bit; also the count of bit patterns sharing one sign.
pub const SIGN_MASK: u64 = 0x8000_0000_0000_0000;

/// Weight of the lowest biased-exponent bit: 2^52.
pub const FRAC_MODULUS: u64 = 0x10_0000_0000_0000;

/// The biased exponent reserved for infinities and NaNs.
pub const EXP_SPECIAL: u64 = 0x7FF;

/// Bit pattern of `0.0`.
pub const ZERO_BITS: u64 = 0x0;

/// Bit pattern of `1.0`.
pub const ONE_BITS: u64 = 0x3FF0_0000_0000_0000;

/// Bit pattern of positive infinity.
pub const INFINITY_BITS: u64 = 0x7FF0_0000_0000_0000;

/// Bit pattern of negative infinity.
pub const NEG_INFINITY_BITS: u64 = 0xFFF0_0000_0000_0000;

/// An IEEE-754 double-precision value carried as its raw bit pattern.
///
/// Derived equality is *bit* equality: in contracts `a == b` says the two
/// words coincide.  Value equality of the denoted doubles (which differs on
/// `-0.0 == 0.0` and on NaN) is [`Real::spec_eq_value`].
#[derive(Clone, Copy, PartialEq, Eq, Structural, Debug)]
pub struct Real {
    /// The raw IEEE-754 binary64 word, as `f64::to_bits` yields it.
    pub bits: u64,
}

impl Real {
    /// Wraps a raw bit pattern.
    pub fn from_bits(bits: u64) -> (r: Real)
        ensures
            r.bits == bits,
    {
        Real { bits }
    }

    /// The raw bit pattern.
    pub fn to_bits(self) -> (r: u64)
        ensures
            r == self.bits,
    {
        self.bits
    }

    /// True when the sign bit is set.
    pub open spec fn spec_sign_negative(self) -> bool {
        self.bits / SIGN_MASK == 1
    }

    /// The 63 magnitude bits: biased exponent and fraction together.
    ///
    /// For two doubles of one (non-NaN) sign, the one with the larger
    /// magnitude word is the one farther from zero.
    pub open spec fn spec_magnitude(self) -> int {
        (self.bits % SIGN_MASK) as int
    }

    /// The 11 biased-exponent bits.
    pub open spec fn spec_biased_exponent(self) -> int {
        ((self.bits / FRAC_MODULUS) % 0x800) as int
    }

    /// The 52 fraction bits.
    pub open spec fn spec_fraction(self) -> int {
        (self.bits % FRAC_MODULUS) as int
    }

    /// The pattern denotes a NaN: special exponent and a non-zero fraction.
    pub open spec fn spec_is_nan(self) -> bool {
        self.spec_biased_exponent() == EXP_SPECIAL && self.spec_fraction() != 0
    }

    /// The pattern denotes one of the two infinities.
    pub open spec fn spec_is_infinite(self) -> bool {
        self.spec_biased_exponent() == EXP_SPECIAL && self.spec_fraction() == 0
    }

    /// The pattern denotes `0.0` or `-0.0`.
    pub open spec fn spec_is_zero(self) -> bool {
        self.spec_magnitude() == 0
    }

    /// Value order `self < other` of the denoted doubles.
    ///
    /// False whenever either side is a NaN; the two zeros are equal; values
    /// of one sign order by magnitude, values of different sign by sign.
    pub open spec fn spec_lt(self, other: Real) -> bool {
        &&& !self.spec_is_nan()
        &&& !other.spec_is_nan()
        &&& if self.spec_sign_negative() != other.spec_sign_negative() {
                self.spec_sign_negative() && !(self.spec_is_zero() && other.spec_is_zero())
            } else if !self.spec_sign_negative() {
                self.spec_magnitude() < other.spec_magnitude()
            } else {
                other.spec_magnitude() < self.spec_magnitude()
            }
    }

    /// Value equality `self == other` of the denoted doubles: false for NaN,
    /// true for the two zeros, otherwise bit equality.
    pub open spec fn spec_eq_value(self, other: Real) -> bool {
        &&& !self.spec_is_nan()
        &&& !other.spec_is_nan()
        &&& (self.bits == other.bits || (self.spec_is_zero() && other.spec_is_zero()))
    }

    /// Value order `self <= other` of the denoted doubles.
    pub open spec fn spec_le(self, other: Real) -> bool {
        self.spec_lt(other) || self.spec_eq_value(other)
    }

    /// Value order `self > other` of the denoted doubles.
    pub open spec fn spec_gt(self, other: Real) -> bool {
        other.spec_lt(self)
    }

    /// Value order `self >= other` of the denoted doubles.
    pub open spec fn spec_ge(self, other: Real) -> bool {
        other.spec_le(self)
    }

    /// Decides whether the pattern denotes a NaN.
    #[verifier::when_used_as_spec(spec_is_nan)]
    pub fn is_nan(self) -> (r: bool)
        ensures
            r == self.spec_is_nan(),
    {
        let exponent: u64 = (self.bits / FRAC_MODULUS) % 0x800;
        let fraction: u64 = self.bits % FRAC_MODULUS;
        exponent == EXP_SPECIAL && fraction != 0
    }

    /// Decides whether the pattern denotes `0.0` or `-0.0`.
    #[verifier::when_used_as_spec(spec_is_zero)]
    pub fn is_zero(self) -> (r: bool)
        ensures
            r == self.spec_is_zero(),
    {
        self.bits % SIGN_MASK == 0
    }

    /// Decides the value order `self < other`.
    #[verifier::when_used_as_spec(spec_lt)]
    pub fn lt(self, other: Real) -> (r: bool)
        ensures
            r == self.spec_lt(other),
    {
        if self.is_nan() || other.is_nan() {
            false
        } else {
            let self_negative: bool = self.bits / SIGN_MASK == 1;
            let other_negative: bool = other.bits / SIGN_MASK == 1;
            let self_magnitude: u64 = self.bits % SIGN_MASK;
            let other_magnitude: u64 = other.bits % SIGN_MASK;
            if self_negative != other_negative {
                self_negative && !(self_magnitude == 0 && other_magnitude == 0)
            } else if !self_negative {
                self_magnitude < other_magnitude
            } else {
                other_magnitude < self_magnitude
            }
        }
    }

    /// Decides value equality `self == other` of the denoted doubles.
    #[verifier::when_used_as_spec(spec_eq_value)]
    pub fn eq_value(self, other: Real) -> (r: bool)
        ensures
            r == self.spec_eq_value(other),
    {
        if self.is_nan() || other.is_nan() {
            false
        } else {
            self.bits == other.bits || (self.is_zero() && other.is_zero())
        }
    }

    /// Decides the value order `self <= other`.
    #[verifier::when_used_as_spec(spec_le)]
    pub fn le(self, other: Real) -> (r: bool)
        ensures
            r == self.spec_le(other),
    {
        self.lt(other) || self.eq_value(other)
    }

    /// Decides the value order `self > other`.
    #[verifier::when_used_as_spec(spec_gt)]
    pub fn gt(self, other: Real) -> (r: bool)
        ensures
            r == self.spec_gt(other),
    {
        other.lt(self)
    }

    /// Decides the value order `self >= other`.
    #[verifier::when_used_as_spec(spec_ge)]
    pub fn ge(self, other: Real) -> (r: bool)
        ensures
            r == self.spec_ge(other),
    {
        other.le(self)
    }

    /// Orders a pair of non-NaN values with the greater first.
    ///
    /// When the two are value-equal (including `0.0` beside `-0.0`), the
    /// first argument keeps the lead.
    pub fn descending_pair(self, other: Real) -> (r: (Real, Real))
        requires
            !self.spec_is_nan(),
            !other.spec_is_nan(),
        ensures
            r == (if self.spec_lt(other) {
                (other, self)
            } else {
                (self, other)
            }),
            r.1.spec_le(r.0),
            r.0 == self || r.0 == other,
            r.1 == self || r.1 == other,
    {
        proof {
            lemma_le_total(self, other);
        }
        if self.lt(other) {
            (other, self)
        } else {
            (self, other)
        }
    }

    /// The double `0.0`.
    pub fn zero() -> (r: Real)
        ensures
            r.bits == ZERO_BITS,
    {
        Real { bits: ZERO_BITS }
    }

    /// The double `1.0`.
    pub fn one() -> (r: Real)
        ensures
            r.bits == ONE_BITS,
    {
        Real { bits: ONE_BITS }
    }

    /// The double positive infinity.
    pub fn infinity() -> (r: Real)
        ensures
            r.bits == INFINITY_BITS,
    {
        Real { bits: INFINITY_BITS }
    }

    /// The double negative infinity.
    pub fn neg_infinity() -> (r: Real)
        ensures
            r.bits == NEG_INFINITY_BITS,
    {
        Real { bits: NEG_INFINITY_BITS }
    }
}

/// Non-NaN doubles are totally ordered: where `x < y` fails, `y <= x` holds.
pub proof fn lemma_le_total(x: Real, y: Real)
    requires
        !x.spec_is_nan(),
        !y.spec_is_nan(),
    ensures
        x.spec_lt(y) || y.spec_le(x),
        x.spec_le(y) <==> !y.spec_lt(x),
{
}

} // verus!
