//! The values of the engine: complex numbers, points of the extended plane,
//! matrices and curves.

use crate::binary64::Binary64;
use crate::binary64::INFINITY_BITS;
use crate::binary64::ONE_BITS;
use crate::binary64::ZERO_BITS;
use vstd::prelude::*;

verus! {

/// A complex number: a real and an imaginary part.
#[derive(Clone, Copy, Debug, PartialEq)]
pub struct Complex {
    pub re: Binary64,
    pub im: Binary64,
}

impl Complex {
    /// The complex number zero.
    pub open spec fn spec_zero() -> Complex {
        Complex { re: Binary64 { bits: ZERO_BITS }, im: Binary64 { bits: ZERO_BITS } }
    }

    /// The complex number one.
    pub open spec fn spec_one() -> Complex {
        Complex { re: Binary64 { bits: ONE_BITS }, im: Binary64 { bits: ZERO_BITS } }
    }

    /// The imaginary unit.
    pub open spec fn spec_i() -> Complex {
        Complex { re: Binary64 { bits: ZERO_BITS }, im: Binary64 { bits: ONE_BITS } }
    }

    /// Positive real infinity as a complex number: its imaginary part is
    /// zero.
    pub open spec fn spec_infinity() -> Complex {
        Complex { re: Binary64 { bits: INFINITY_BITS }, im: Binary64 { bits: ZERO_BITS } }
    }

    /// Either part is a NaN.
    pub open spec fn spec_is_nan(&self) -> bool {
        self.re.spec_is_nan() || self.im.spec_is_nan()
    }

    /// Neither part is a NaN and at least one is infinite.
    pub open spec fn spec_is_infinite(&self) -> bool {
        !self.spec_is_nan() && (self.re.spec_is_infinite() || self.im.spec_is_infinite())
    }

    /// Both parts are finite.
    pub open spec fn spec_is_finite(&self) -> bool {
        self.re.spec_is_finite() && self.im.spec_is_finite()
    }

    /// The negation: both parts with their sign bits flipped.
    pub open spec fn spec_neg(&self) -> Complex {
        Complex { re: self.re.spec_neg(), im: self.im.spec_neg() }
    }

    /// A complex number from its parts.
    pub fn new(re: Binary64, im: Binary64) -> (r: Self)
        ensures
            r == (Complex { re, im }),
    {
        Complex { re, im }
    }

    /// The complex number zero.
    #[verifier::when_used_as_spec(spec_zero)]
    pub fn zero() -> (r: Self)
        ensures
            r == Complex::spec_zero(),
    {
        Complex { re: Binary64::zero(), im: Binary64::zero() }
    }

    /// The complex number one.
    #[verifier::when_used_as_spec(spec_one)]
    pub fn one() -> (r: Self)
        ensures
            r == Complex::spec_one(),
    {
        Complex { re: Binary64::one(), im: Binary64::zero() }
    }

    /// The imaginary unit.
    #[verifier::when_used_as_spec(spec_i)]
    pub fn i() -> (r: Self)
        ensures
            r == Complex::spec_i(),
    {
        Complex { re: Binary64::zero(), im: Binary64::one() }
    }

    /// Positive real infinity as a complex number.
    #[verifier::when_used_as_spec(spec_infinity)]
    pub fn infinity() -> (r: Self)
        ensures
            r == Complex::spec_infinity(),
    {
        Complex { re: Binary64::infinity(), im: Binary64::zero() }
    }

    /// Whether either part is a NaN.
    #[verifier::when_used_as_spec(spec_is_nan)]
    pub fn is_nan(&self) -> (r: bool)
        ensures
            r == self.spec_is_nan(),
    {
        self.re.is_nan() || self.im.is_nan()
    }

    /// Whether the number is infinite: no part is a NaN and at least one is
    /// infinite.
    #[verifier::when_used_as_spec(spec_is_infinite)]
    pub fn is_infinite(&self) -> (r: bool)
        ensures
            r == self.spec_is_infinite(),
    {
        !self.is_nan() && (self.re.is_infinite() || self.im.is_infinite())
    }

    /// Whether both parts are finite.
    #[verifier::when_used_as_spec(spec_is_finite)]
    pub fn is_finite(&self) -> (r: bool)
        ensures
            r == self.spec_is_finite(),
    {
        self.re.is_finite() && self.im.is_finite()
    }

    /// The negation, part by part.
    #[verifier::when_used_as_spec(spec_neg)]
    pub fn neg(&self) -> (r: Self)
        ensures
            r == self.spec_neg(),
            r.re.scaled() == -self.re.scaled(),
            r.im.scaled() == -self.im.scaled(),
    {
        Complex { re: self.re.neg(), im: self.im.neg() }
    }
}

/// A point of the extended complex plane: a complex number or the point at
/// infinity.
#[derive(Clone, Copy, Debug, PartialEq)]
pub enum ExtComplex {
    Inf,
    Val(Complex),
}

impl ExtComplex {
    /// The form that the engine hands out: the point at infinity, or a
    /// number whose parts are both finite.
    pub open spec fn is_canonical(&self) -> bool {
        match *self {
            ExtComplex::Inf => true,
            ExtComplex::Val(c) => c.spec_is_finite(),
        }
    }

    /// The number with which the point enters a difference: itself, or
    /// positive real infinity for the point at infinity.
    pub open spec fn spec_lift(&self) -> Complex {
        match *self {
            ExtComplex::Inf => Complex::spec_infinity(),
            ExtComplex::Val(c) => c,
        }
    }

    /// The point that a computed number stands for: the number itself where
    /// both parts are finite, else the point at infinity.
    pub open spec fn spec_from_complex(c: Complex) -> ExtComplex {
        if c.spec_is_finite() {
            ExtComplex::Val(c)
        } else {
            ExtComplex::Inf
        }
    }

    /// A point from a real and an imaginary part, kept as they are given.
    /// Two finite parts give a point in canonical form. A part that is
    /// infinite or a NaN is kept too: where such a point is written for a
    /// peer it is written as the point at infinity, or refused.
    pub fn new(re: Binary64, im: Binary64) -> (r: Self)
        ensures
            r == ExtComplex::Val(Complex { re, im }),
            re.spec_is_finite() && im.spec_is_finite() ==> r.is_canonical(),
    {
        ExtComplex::Val(Complex { re, im })
    }

    /// The number with which the point enters a difference.
    #[verifier::when_used_as_spec(spec_lift)]
    pub fn lift(&self) -> (r: Complex)
        ensures
            r == self.spec_lift(),
    {
        match *self {
            ExtComplex::Inf => Complex::infinity(),
            ExtComplex::Val(c) => c,
        }
    }

    /// The point that a computed number stands for. A number with a part
    /// that is infinite or a NaN, such as a quotient by zero, stands for the
    /// point at infinity.
    #[verifier::when_used_as_spec(spec_from_complex)]
    pub fn from_complex(c: Complex) -> (r: Self)
        ensures
            r == ExtComplex::spec_from_complex(c),
            r.is_canonical(),
    {
        if c.is_finite() {
            ExtComplex::Val(c)
        } else {
            ExtComplex::Inf
        }
    }
}

/// A two-by-two matrix of complex numbers, `[[m11, m12], [m21, m22]]`. It
/// stands for the map that sends `z` to `(m11 z + m12) / (m21 z + m22)`, or
/// for the curve on which that quotient has absolute value one.
#[derive(Clone, Copy, Debug, PartialEq)]
pub struct Matrix2 {
    pub m11: Complex,
    pub m12: Complex,
    pub m21: Complex,
    pub m22: Complex,
}

/// A line or a circle.
#[derive(Clone, Copy, Debug, PartialEq)]
pub enum Curve {
    /// The points `point + slope * t` for real `t`.
    Line { point: Complex, slope: Complex },
    /// The points at distance `radius` from `center`.
    Circle { center: Complex, radius: Binary64 },
}

} // verus!
