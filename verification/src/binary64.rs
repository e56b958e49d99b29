//! IEEE 754 binary64 numbers held as their bit patterns.
//!
//! A pattern has one sign bit, eleven exponent bits and fifty-two fraction
//! bits. Everything the engine has to decide about a number (its class, its
//! sign, how it compares with another number or with a tolerance) is a
//! property of the pattern, so it is decided here with integer arithmetic and
//! proved against the number that the pattern denotes. Arithmetic that rounds
//! is left to the caller.

use vstd::arithmetic::mul::*;
use vstd::arithmetic::power2::*;
use vstd::prelude::*;
use vstd::std_specs::cmp::PartialEqSpecImpl;

verus! {

/// The sign bit of a pattern.
pub const SIGN_BIT: u64 = 0x8000_0000_0000_0000;

/// The weight of the lowest exponent bit: two to the power fifty-two.
pub const FRACTION_RADIX: u64 = 0x0010_0000_0000_0000;

/// The pattern of positive zero.
pub const ZERO_BITS: u64 = 0;

/// The pattern of one.
pub const ONE_BITS: u64 = 0x3ff0_0000_0000_0000;

/// The pattern of one half.
pub const HALF_BITS: u64 = 0x3fe0_0000_0000_0000;

/// The pattern of the binary64 number nearest to one thousandth.
pub const THOUSANDTH_BITS: u64 = 0x3f50_624d_d2f1_a9fc;

/// The pattern of positive infinity.
pub const INFINITY_BITS: u64 = 0x7ff0_0000_0000_0000;

/// The pattern of the machine epsilon, two to the power minus fifty-two.
pub const EPSILON_BITS: u64 = 0x3cb0_0000_0000_0000;

/// The pattern of one hundred times the machine epsilon.
pub const HUNDRED_EPSILON_BITS: u64 = 0x3d19_0000_0000_0000;

/// A binary64 number, held as its bit pattern.
///
/// `==` on two numbers is the equality of IEEE 754: a NaN equals nothing, not
/// even itself, and the two zeros are equal.
#[derive(Clone, Copy, Debug)]
pub struct Binary64 {
    pub bits: u64,
}

impl Binary64 {
    /// Whether the sign bit is set. This is so for negative numbers, for
    /// negative zero, and for half of the NaN patterns.
    pub open spec fn spec_is_sign_negative(&self) -> bool {
        self.bits >= SIGN_BIT
    }

    /// The pattern without its sign bit.
    pub open spec fn abs_bits(self) -> u64 {
        if self.bits >= SIGN_BIT {
            (self.bits - SIGN_BIT) as u64
        } else {
            self.bits
        }
    }

    /// The biased exponent field, from 0 to 2047.
    pub open spec fn exponent(self) -> nat {
        (self.abs_bits() / FRACTION_RADIX) as nat
    }

    /// The fraction field, below two to the power fifty-two.
    pub open spec fn fraction(self) -> nat {
        (self.abs_bits() % FRACTION_RADIX) as nat
    }

    /// Not a number: the exponent field is all ones and the fraction is not
    /// zero.
    pub open spec fn spec_is_nan(&self) -> bool {
        self.exponent() == 2047 && self.fraction() != 0
    }

    /// Positive or negative infinity: the exponent field is all ones and the
    /// fraction is zero.
    pub open spec fn spec_is_infinite(&self) -> bool {
        self.exponent() == 2047 && self.fraction() == 0
    }

    /// Zero, subnormal or normal: the exponent field is not all ones.
    pub open spec fn spec_is_finite(&self) -> bool {
        self.exponent() < 2047
    }

    /// Positive or negative zero.
    pub open spec fn spec_is_zero(&self) -> bool {
        self.abs_bits() == 0
    }

    /// The absolute value of the number, counted in units of two to the power
    /// minus 1074, the smallest positive binary64 number. Every finite
    /// binary64 number is a whole multiple of that unit, so for them the count
    /// is exact. An infinity counts as two to the power 2098, which is above
    /// every finite number; the count of a NaN has no meaning.
    pub open spec fn magnitude(self) -> nat {
        if self.exponent() == 0 {
            self.fraction()
        } else {
            ((FRACTION_RADIX + self.fraction()) * pow2((self.exponent() - 1) as nat)) as nat
        }
    }

    /// The number in the same units, with its sign.
    pub open spec fn scaled(self) -> int {
        if self.spec_is_sign_negative() {
            -(self.magnitude() as int)
        } else {
            self.magnitude() as int
        }
    }

    /// The comparison `self < other` of IEEE 754: false when either side is a
    /// NaN, and the two zeros are equal.
    pub open spec fn spec_lt(&self, other: &Binary64) -> bool {
        !self.spec_is_nan() && !other.spec_is_nan() && self.scaled() < other.scaled()
    }

    /// The comparison `self <= other` of IEEE 754: false when either side is
    /// a NaN, and the two zeros are equal.
    pub open spec fn spec_le(&self, other: &Binary64) -> bool {
        !self.spec_is_nan() && !other.spec_is_nan() && self.scaled() <= other.scaled()
    }

    /// The negation: the same pattern with the sign bit flipped.
    pub open spec fn spec_neg(&self) -> Binary64 {
        if self.bits >= SIGN_BIT {
            Binary64 { bits: (self.bits - SIGN_BIT) as u64 }
        } else {
            Binary64 { bits: (self.bits + SIGN_BIT) as u64 }
        }
    }

    /// The equality of IEEE 754: false when either side is a NaN, and the two
    /// zeros are equal.
    pub open spec fn spec_same_number(&self, other: &Binary64) -> bool {
        !self.spec_is_nan() && !other.spec_is_nan() && self.scaled() == other.scaled()
    }

    /// Wraps a bit pattern.
    pub fn from_bits(bits: u64) -> (r: Self)
        ensures
            r.bits == bits,
    {
        Binary64 { bits }
    }

    /// The bit pattern.
    pub fn to_bits(&self) -> (r: u64)
        ensures
            r == self.bits,
    {
        self.bits
    }

    /// Positive zero.
    pub fn zero() -> (r: Self)
        ensures
            r.bits == ZERO_BITS,
    {
        Binary64 { bits: ZERO_BITS }
    }

    /// The number one.
    pub fn one() -> (r: Self)
        ensures
            r.bits == ONE_BITS,
    {
        Binary64 { bits: ONE_BITS }
    }

    /// Positive infinity.
    pub fn infinity() -> (r: Self)
        ensures
            r.bits == INFINITY_BITS,
    {
        Binary64 { bits: INFINITY_BITS }
    }

    /// The machine epsilon: the gap between one and the next number above it.
    pub fn epsilon() -> (r: Self)
        ensures
            r.bits == EPSILON_BITS,
    {
        Binary64 { bits: EPSILON_BITS }
    }

    /// Whether the sign bit is set.
    #[verifier::when_used_as_spec(spec_is_sign_negative)]
    pub fn is_sign_negative(&self) -> (r: bool)
        ensures
            r == self.spec_is_sign_negative(),
    {
        self.bits >= SIGN_BIT
    }

    /// The absolute value: the same pattern with the sign bit cleared.
    pub fn abs(&self) -> (r: Self)
        ensures
            !r.spec_is_sign_negative(),
            r.bits == self.abs_bits(),
            r.abs_bits() == self.abs_bits(),
    {
        if self.bits >= SIGN_BIT {
            Binary64 { bits: self.bits - SIGN_BIT }
        } else {
            Binary64 { bits: self.bits }
        }
    }

    /// The negation: the same pattern with the sign bit flipped. This is
    /// exact for every pattern, a NaN included.
    #[verifier::when_used_as_spec(spec_neg)]
    pub fn neg(&self) -> (r: Self)
        ensures
            r == self.spec_neg(),
            r.spec_is_sign_negative() != self.spec_is_sign_negative(),
            r.abs_bits() == self.abs_bits(),
            r.scaled() == -self.scaled(),
    {
        if self.bits >= SIGN_BIT {
            Binary64 { bits: self.bits - SIGN_BIT }
        } else {
            Binary64 { bits: self.bits + SIGN_BIT }
        }
    }

    /// Whether the number is a NaN.
    #[verifier::when_used_as_spec(spec_is_nan)]
    pub fn is_nan(&self) -> (r: bool)
        ensures
            r == self.spec_is_nan(),
    {
        self.abs().bits > INFINITY_BITS
    }

    /// Whether the number is positive or negative infinity.
    #[verifier::when_used_as_spec(spec_is_infinite)]
    pub fn is_infinite(&self) -> (r: bool)
        ensures
            r == self.spec_is_infinite(),
    {
        self.abs().bits == INFINITY_BITS
    }

    /// Whether the number is neither infinite nor a NaN.
    #[verifier::when_used_as_spec(spec_is_finite)]
    pub fn is_finite(&self) -> (r: bool)
        ensures
            r == self.spec_is_finite(),
    {
        self.abs().bits < INFINITY_BITS
    }

    /// Whether the number is positive or negative zero.
    #[verifier::when_used_as_spec(spec_is_zero)]
    pub fn is_zero(&self) -> (r: bool)
        ensures
            r == self.spec_is_zero(),
            r == (!self.spec_is_nan() && self.scaled() == 0),
    {
        proof {
            lemma_magnitude_zero(*self);
        }
        self.abs().bits == 0
    }

    /// The comparison `self < other` of IEEE 754.
    #[verifier::when_used_as_spec(spec_lt)]
    pub fn lt(&self, other: &Binary64) -> (r: bool)
        ensures
            r == self.spec_lt(other),
    {
        if self.is_nan() || other.is_nan() {
            return false;
        }
        let a: u64 = self.abs().bits;
        let b: u64 = other.abs().bits;
        proof {
            lemma_magnitude_order(*self, *other);
            lemma_magnitude_order(*other, *self);
            lemma_magnitude_zero(*self);
            lemma_magnitude_zero(*other);
        }
        if self.is_sign_negative() {
            if other.is_sign_negative() {
                b < a
            } else {
                a != 0 || b != 0
            }
        } else {
            if other.is_sign_negative() {
                false
            } else {
                a < b
            }
        }
    }

    /// The comparison `self <= other` of IEEE 754.
    #[verifier::when_used_as_spec(spec_le)]
    pub fn le(&self, other: &Binary64) -> (r: bool)
        ensures
            r == self.spec_le(other),
    {
        if self.is_nan() || other.is_nan() {
            return false;
        }
        let a: u64 = self.abs().bits;
        let b: u64 = other.abs().bits;
        proof {
            lemma_magnitude_order(*self, *other);
            lemma_magnitude_order(*other, *self);
            lemma_magnitude_zero(*self);
            lemma_magnitude_zero(*other);
        }
        if self.is_sign_negative() {
            if other.is_sign_negative() {
                b <= a
            } else {
                true
            }
        } else {
            if other.is_sign_negative() {
                a == 0 && b == 0
            } else {
                a <= b
            }
        }
    }
}

impl PartialEq for Binary64 {
    fn eq(&self, other: &Binary64) -> (r: bool) {
        proof {
            lemma_magnitude_order(*self, *other);
            lemma_magnitude_order(*other, *self);
            lemma_magnitude_zero(*self);
            lemma_magnitude_zero(*other);
        }
        if self.is_nan() || other.is_nan() {
            false
        } else {
            self.bits == other.bits || (self.is_zero() && other.is_zero())
        }
    }
}

impl PartialEqSpecImpl for Binary64 {
    open spec fn obeys_eq_spec() -> bool {
        true
    }

    open spec fn eq_spec(&self, other: &Binary64) -> bool {
        self.spec_same_number(other)
    }
}

/// The count of a pattern is zero exactly for the two zeros.
pub proof fn lemma_magnitude_zero(x: Binary64)
    ensures
        x.magnitude() == 0 <==> x.spec_is_zero(),
        x.scaled() == 0 <==> x.spec_is_zero(),
{
    if x.exponent() != 0 {
        let p = pow2((x.exponent() - 1) as nat);
        lemma_pow2_pos((x.exponent() - 1) as nat);
        lemma_mul_strictly_positive((FRACTION_RADIX + x.fraction()) as int, p as int);
    }
}

/// The count grows with the pattern: of two patterns, the one that is smaller
/// once the sign bits are cleared denotes the number of smaller absolute
/// value.
pub proof fn lemma_magnitude_order(x: Binary64, y: Binary64)
    ensures
        x.abs_bits() < y.abs_bits() ==> x.magnitude() < y.magnitude(),
        x.abs_bits() == y.abs_bits() ==> x.magnitude() == y.magnitude(),
{
    if x.abs_bits() < y.abs_bits() {
        let ex = x.exponent();
        let ey = y.exponent();
        let fx = x.fraction() as int;
        let fy = y.fraction() as int;
        let radix = FRACTION_RADIX as int;
        assert(ex <= ey);
        if ex == ey {
            assert(fx < fy);
            if ex != 0 {
                let p = pow2((ex - 1) as nat) as int;
                lemma_pow2_pos((ex - 1) as nat);
                lemma_mul_strict_inequality(radix + fx, radix + fy, p);
            }
        } else {
            let q = pow2((ey - 1) as nat) as int;
            lemma_pow2_pos((ey - 1) as nat);
            assert(radix * q <= (radix + fy) * q) by {
                lemma_mul_inequality(radix, radix + fy, q);
            }
            if ex == 0 {
                assert(radix * 1 <= radix * q) by {
                    lemma_mul_left_inequality(radix, 1, q);
                }
            } else {
                let p = pow2((ex - 1) as nat) as int;
                lemma_pow2_pos((ex - 1) as nat);
                lemma_pow2_unfold(ex);
                assert((radix + fx) * p < (2 * radix) * p) by {
                    lemma_mul_strict_inequality(radix + fx, 2 * radix, p);
                }
                assert((2 * radix) * p == radix * (2 * p)) by {
                    lemma_mul_is_associative(radix, 2, p);
                    lemma_mul_is_commutative(radix, 2);
                }
                assert(pow2(ex) <= q) by {
                    if ex < ey - 1 {
                        lemma_pow2_strictly_increases(ex, (ey - 1) as nat);
                    }
                }
                assert(radix * (2 * p) <= radix * q) by {
                    lemma_mul_left_inequality(radix, 2 * p, q);
                }
            }
        }
    }
}

/// A pattern is of exactly one class: NaN, infinite or finite.
pub proof fn lemma_classes_partition(x: Binary64)
    ensures
        x.spec_is_nan() || x.spec_is_infinite() || x.spec_is_finite(),
        !(x.spec_is_nan() && x.spec_is_infinite()),
        !(x.spec_is_nan() && x.spec_is_finite()),
        !(x.spec_is_infinite() && x.spec_is_finite()),
{
}

/// The constants denote what their names say: zero, one (two to the power
/// 1074 units), one half, the machine epsilon (two to the power 1022 units),
/// a hundred times that, and an infinity. A thousand times the thousandth is
/// one and 96 units of two to the power minus 62: no binary64 number is
/// nearer to the true thousandth.
pub proof fn lemma_constants()
    ensures
        (Binary64 { bits: ZERO_BITS }).scaled() == 0,
        (Binary64 { bits: ONE_BITS }).scaled() == pow2(1074),
        (Binary64 { bits: HALF_BITS }).scaled() == pow2(1073),
        1000 * (Binary64 { bits: THOUSANDTH_BITS }).scaled() == pow2(1074) + 96 * pow2(1012),
        (Binary64 { bits: HALF_BITS }).spec_is_finite(),
        (Binary64 { bits: THOUSANDTH_BITS }).spec_is_finite(),
        (Binary64 { bits: EPSILON_BITS }).scaled() == pow2(1022),
        (Binary64 { bits: HUNDRED_EPSILON_BITS }).scaled() == 100 * pow2(1022),
        (Binary64 { bits: INFINITY_BITS }).spec_is_infinite(),
        !(Binary64 { bits: INFINITY_BITS }).spec_is_sign_negative(),
        (Binary64 { bits: ZERO_BITS }).spec_is_finite(),
        (Binary64 { bits: ONE_BITS }).spec_is_finite(),
        (Binary64 { bits: EPSILON_BITS }).spec_is_finite(),
        (Binary64 { bits: HUNDRED_EPSILON_BITS }).spec_is_finite(),
{
    let radix = FRACTION_RADIX as nat;
    assert(radix == pow2(52)) by {
        lemma2_to64_rest();
    }
    let one = Binary64 { bits: ONE_BITS };
    assert(one.exponent() == 1023 && one.fraction() == 0);
    assert(radix * pow2(1022) == pow2(1074)) by {
        lemma_pow2_adds(52, 1022);
    }
    let half = Binary64 { bits: HALF_BITS };
    assert(half.exponent() == 1022 && half.fraction() == 0);
    assert(radix * pow2(1021) == pow2(1073)) by {
        lemma_pow2_adds(52, 1021);
    }
    let thousandth = Binary64 { bits: THOUSANDTH_BITS };
    assert(thousandth.exponent() == 1013 && thousandth.fraction() == 0x624d_d2f1_a9fc);
    assert(1000 * ((radix + 0x624d_d2f1_a9fc) * pow2(1012)) == pow2(1074) + 96 * pow2(1012)) by {
        assert(1000 * (radix + 0x624d_d2f1_a9fc) == pow2(62) + 96) by {
            lemma2_to64_rest();
        }
        lemma_pow2_adds(62, 1012);
        lemma_mul_is_associative(1000, (radix + 0x624d_d2f1_a9fc) as int, pow2(1012) as int);
        lemma_mul_is_distributive_add_other_way(pow2(1012) as int, pow2(62) as int, 96);
    }
    let eps = Binary64 { bits: EPSILON_BITS };
    assert(eps.exponent() == 971 && eps.fraction() == 0);
    assert(radix * pow2(970) == pow2(1022)) by {
        lemma_pow2_adds(52, 970);
    }
    let hundred = Binary64 { bits: HUNDRED_EPSILON_BITS };
    assert(hundred.exponent() == 977 && hundred.fraction() == 0x9_0000_0000_0000);
    assert((radix + 0x9_0000_0000_0000) * pow2(976) == 100 * pow2(1022)) by {
        // radix + fraction = 25 * 2^48, and 2^48 * 2^976 = 4 * 2^1022
        assert(radix + 0x9_0000_0000_0000 == 25 * pow2(48)) by {
            lemma2_to64_rest();
        }
        lemma_pow2_adds(48, 976);
        lemma_pow2_adds(2, 1022);
        assert(pow2(2) == 4) by {
            lemma2_to64();
        }
        lemma_mul_is_associative(25, pow2(48) as int, pow2(976) as int);
        lemma_mul_is_associative(25, 4, pow2(1022) as int);
    }
}

/// The constants stand in the order of the numbers that they name: zero,
/// the machine epsilon, a hundred times that, the thousandth, one half, one
/// and infinity.
pub proof fn lemma_constants_order()
    ensures
        (Binary64 { bits: ZERO_BITS }).spec_lt(&Binary64 { bits: EPSILON_BITS }),
        (Binary64 { bits: EPSILON_BITS }).spec_lt(&Binary64 { bits: HUNDRED_EPSILON_BITS }),
        (Binary64 { bits: HUNDRED_EPSILON_BITS }).spec_lt(&Binary64 { bits: THOUSANDTH_BITS }),
        (Binary64 { bits: THOUSANDTH_BITS }).spec_lt(&Binary64 { bits: HALF_BITS }),
        (Binary64 { bits: HALF_BITS }).spec_lt(&Binary64 { bits: ONE_BITS }),
        (Binary64 { bits: ONE_BITS }).spec_lt(&Binary64 { bits: INFINITY_BITS }),
{
    lemma_magnitude_order(Binary64 { bits: ZERO_BITS }, Binary64 { bits: EPSILON_BITS });
    lemma_magnitude_order(Binary64 { bits: EPSILON_BITS }, Binary64 { bits: HUNDRED_EPSILON_BITS });
    lemma_magnitude_order(
        Binary64 { bits: HUNDRED_EPSILON_BITS },
        Binary64 { bits: THOUSANDTH_BITS },
    );
    lemma_magnitude_order(Binary64 { bits: THOUSANDTH_BITS }, Binary64 { bits: HALF_BITS });
    lemma_magnitude_order(Binary64 { bits: HALF_BITS }, Binary64 { bits: ONE_BITS });
    lemma_magnitude_order(Binary64 { bits: ONE_BITS }, Binary64 { bits: INFINITY_BITS });
}

} // verus!
