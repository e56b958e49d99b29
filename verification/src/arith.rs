//! The arithmetic that rounds.
//!
//! Sums, products, quotients and roots of binary64 numbers round their
//! results, and nothing here computes them. The engine takes them from its
//! caller, through [`Arithmetic`], and is proved for whatever they return:
//! its contracts say which operation was asked, of which operands, and what
//! was done with the answer.

use crate::binary64::Binary64;
use crate::model::Complex;
use crate::model::Matrix2;
use vstd::prelude::*;

verus! {

/// The operations that the engine asks of its caller.
pub trait Arithmetic {
    /// `a + b`.
    fn sum(&self, a: Complex, b: Complex) -> Complex;

    /// `a - b`.
    fn difference(&self, a: Complex, b: Complex) -> Complex;

    /// `a * b`.
    fn product(&self, a: Complex, b: Complex) -> Complex;

    /// `a / b`.
    fn quotient(&self, a: Complex, b: Complex) -> Complex;

    /// The complex number `a` multiplied by the real number `factor`.
    fn scale(&self, factor: Binary64, a: Complex) -> Complex;

    /// The square of the absolute value of `a`.
    fn norm_sqr(&self, a: Complex) -> Binary64;

    /// The absolute value of `a`.
    fn modulus(&self, a: Complex) -> Binary64;

    /// `a - b`, of real numbers.
    fn real_difference(&self, a: Binary64, b: Binary64) -> Binary64;

    /// `a * b`, of real numbers.
    fn real_product(&self, a: Binary64, b: Binary64) -> Binary64;

    /// `a / b`, of real numbers.
    fn real_quotient(&self, a: Binary64, b: Binary64) -> Binary64;

    /// `1 / a`, of a real number.
    fn recip(&self, a: Binary64) -> Binary64;

    /// The square root of a real number.
    fn sqrt(&self, a: Binary64) -> Binary64;

    /// Whether `a` and `b` are equal within the relative tolerance
    /// `max_relative`.
    fn relative_eq(&self, a: Binary64, b: Binary64, max_relative: Binary64) -> bool;

    /// The inverse of a matrix, or nothing where it has none.
    fn try_inverse(&self, m: Matrix2) -> Option<Matrix2>;

    /// The matrix product `a b`.
    fn matrix_product(&self, a: Matrix2, b: Matrix2) -> Matrix2;

    /// The determinant of a matrix.
    fn determinant(&self, m: Matrix2) -> Complex;

    /// The product of a matrix with the column vector `v`.
    fn transform(&self, m: Matrix2, v: (Complex, Complex)) -> (Complex, Complex);
}

/// `r` is what `k` returned for `a + b`.
pub open spec fn is_sum<K: Arithmetic>(k: &K, a: Complex, b: Complex, r: Complex) -> bool {
    call_ensures(K::sum, (k, a, b), r)
}

/// `r` is what `k` returned for `a - b`.
pub open spec fn is_difference<K: Arithmetic>(k: &K, a: Complex, b: Complex, r: Complex) -> bool {
    call_ensures(K::difference, (k, a, b), r)
}

/// `r` is what `k` returned for `a * b`.
pub open spec fn is_product<K: Arithmetic>(k: &K, a: Complex, b: Complex, r: Complex) -> bool {
    call_ensures(K::product, (k, a, b), r)
}

/// `r` is what `k` returned for `a / b`.
pub open spec fn is_quotient<K: Arithmetic>(k: &K, a: Complex, b: Complex, r: Complex) -> bool {
    call_ensures(K::quotient, (k, a, b), r)
}

/// `r` is what `k` returned for `a` multiplied by the real `factor`.
pub open spec fn is_scaled<K: Arithmetic>(k: &K, factor: Binary64, a: Complex, r: Complex) -> bool {
    call_ensures(K::scale, (k, factor, a), r)
}

/// `r` is what `k` returned for the squared absolute value of `a`.
pub open spec fn is_norm_sqr<K: Arithmetic>(k: &K, a: Complex, r: Binary64) -> bool {
    call_ensures(K::norm_sqr, (k, a), r)
}

/// `r` is what `k` returned for the absolute value of `a`.
pub open spec fn is_modulus<K: Arithmetic>(k: &K, a: Complex, r: Binary64) -> bool {
    call_ensures(K::modulus, (k, a), r)
}

/// `r` is what `k` returned for the real difference `a - b`.
pub open spec fn is_real_difference<K: Arithmetic>(k: &K, a: Binary64, b: Binary64, r: Binary64)
    -> bool {
    call_ensures(K::real_difference, (k, a, b), r)
}

/// `r` is what `k` returned for the real product `a * b`.
pub open spec fn is_real_product<K: Arithmetic>(k: &K, a: Binary64, b: Binary64, r: Binary64)
    -> bool {
    call_ensures(K::real_product, (k, a, b), r)
}

/// `r` is what `k` returned for the real quotient `a / b`.
pub open spec fn is_real_quotient<K: Arithmetic>(k: &K, a: Binary64, b: Binary64, r: Binary64)
    -> bool {
    call_ensures(K::real_quotient, (k, a, b), r)
}

/// `r` is what `k` returned for `1 / a`.
pub open spec fn is_recip<K: Arithmetic>(k: &K, a: Binary64, r: Binary64) -> bool {
    call_ensures(K::recip, (k, a), r)
}

/// `r` is what `k` returned for the square root of `a`.
pub open spec fn is_sqrt<K: Arithmetic>(k: &K, a: Binary64, r: Binary64) -> bool {
    call_ensures(K::sqrt, (k, a), r)
}

/// `r` is what `k` answered when asked whether `a` and `b` are equal within
/// the relative tolerance `max_relative`.
pub open spec fn is_relative_eq<K: Arithmetic>(
    k: &K,
    a: Binary64,
    b: Binary64,
    max_relative: Binary64,
    r: bool,
) -> bool {
    call_ensures(K::relative_eq, (k, a, b, max_relative), r)
}

/// `r` is what `k` returned for the inverse of `m`.
pub open spec fn is_inverse<K: Arithmetic>(k: &K, m: Matrix2, r: Option<Matrix2>) -> bool {
    call_ensures(K::try_inverse, (k, m), r)
}

/// `r` is what `k` returned for the matrix product `a b`.
pub open spec fn is_matrix_product<K: Arithmetic>(k: &K, a: Matrix2, b: Matrix2, r: Matrix2)
    -> bool {
    call_ensures(K::matrix_product, (k, a, b), r)
}

/// `r` is what `k` returned for the determinant of `m`.
pub open spec fn is_determinant<K: Arithmetic>(k: &K, m: Matrix2, r: Complex) -> bool {
    call_ensures(K::determinant, (k, m), r)
}

/// `r` is what `k` returned for the product of `m` with the column `v`.
pub open spec fn is_transformed<K: Arithmetic>(
    k: &K,
    m: Matrix2,
    v: (Complex, Complex),
    r: (Complex, Complex),
) -> bool {
    call_ensures(K::transform, (k, m, v), r)
}

} // verus!
