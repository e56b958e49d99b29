//! The Möbius engine.
//!
//! A Möbius transformation is fixed by three points and their images. The
//! engine builds, for a triple of points, the matrix of the map that sends
//! them to zero, to infinity and to one; it joins two such matrices into the
//! map from one triple to the other; it maps points; and it reads a matrix
//! that stands for a curve back into a line or a circle.
//!
//! The sums, products, quotients and roots of that work round their results.
//! They are asked of the caller's [`Arithmetic`], and each function here is
//! proved for whatever comes back: its contract names every operation that
//! is asked, with its operands, and says what is decided on the answers.
//! What is decided is exact: which row a point gives, what becomes of a
//! factor that is infinite or no number, when a transformation counts as
//! singular, which point a quotient stands for, and which kind of curve a
//! matrix holds.

use crate::api::Error;
use crate::arith::is_determinant;
use crate::arith::is_difference;
use crate::arith::is_inverse;
use crate::arith::is_matrix_product;
use crate::arith::is_modulus;
use crate::arith::is_norm_sqr;
use crate::arith::is_product;
use crate::arith::is_quotient;
use crate::arith::is_real_difference;
use crate::arith::is_real_product;
use crate::arith::is_real_quotient;
use crate::arith::is_recip;
use crate::arith::is_relative_eq;
use crate::arith::is_scaled;
use crate::arith::is_sqrt;
use crate::arith::is_sum;
use crate::arith::is_transformed;
use crate::arith::Arithmetic;
use crate::binary64::Binary64;
use crate::binary64::EPSILON_BITS;
use crate::binary64::HALF_BITS;
use crate::binary64::HUNDRED_EPSILON_BITS;
use crate::binary64::ONE_BITS;
use crate::binary64::THOUSANDTH_BITS;
use crate::model::Complex;
use crate::model::Curve;
use crate::model::ExtComplex;
use crate::model::Matrix2;
use vstd::prelude::*;

verus! {

/// What is fixed of the map that sends `z1` to zero, `z2` to infinity and
/// `z3` to one before anything is rounded.
///
/// The map is `((z - z1) (z3 - z2)) / ((z - z2) (z3 - z1))`. Its matrix is
/// `rows`, with the top row multiplied by the guarded difference
/// `pivot - top` and the bottom row by the guarded difference
/// `pivot - bottom`.
#[derive(Clone, Copy, Debug, PartialEq)]
pub struct CanonicalPlan {
    /// The rows before they are scaled: the top one stands for `z - z1`, the
    /// bottom one for `z - z2`.
    pub rows: Matrix2,
    /// `z3`, as it enters both differences.
    pub pivot: Complex,
    /// `z2`, as it is taken from `pivot` for the factor of the top row.
    pub top: Complex,
    /// `z1`, as it is taken from `pivot` for the factor of the bottom row.
    pub bottom: Complex,
}

/// The row that stands for `z - p`: `[1, -p]`, or `[0, 1]` where `p` is the
/// point at infinity.
pub open spec fn spec_canonical_row(p: ExtComplex) -> (Complex, Complex) {
    match p {
        ExtComplex::Inf => (Complex::spec_zero(), Complex::spec_one()),
        ExtComplex::Val(v) => (Complex::spec_one(), v.spec_neg()),
    }
}

/// The plan for a triple of points.
pub open spec fn spec_canonical_plan(z1: ExtComplex, z2: ExtComplex, z3: ExtComplex)
    -> CanonicalPlan {
    CanonicalPlan {
        rows: Matrix2 {
            m11: spec_canonical_row(z1).0,
            m12: spec_canonical_row(z1).1,
            m21: spec_canonical_row(z2).0,
            m22: spec_canonical_row(z2).1,
        },
        pivot: z3.spec_lift(),
        top: z2.spec_lift(),
        bottom: z1.spec_lift(),
    }
}

/// The factor that a row is multiplied by, given the difference that was
/// computed for it: zero where the real part of the difference is a NaN,
/// one where it is infinite, and else the difference itself.
pub open spec fn spec_guard_factor(difference: Complex) -> Complex {
    if difference.re.spec_is_nan() {
        Complex::spec_zero()
    } else if difference.re.spec_is_infinite() {
        Complex::spec_one()
    } else {
        difference
    }
}

/// Whether a transformation counts as singular, given the absolute value of
/// its determinant: it does where that is below one hundred times the
/// machine epsilon.
pub open spec fn spec_is_singular(modulus: Binary64) -> bool {
    modulus.spec_lt(&Binary64 { bits: HUNDRED_EPSILON_BITS })
}

/// What becomes of a candidate transformation, given with the absolute
/// value of its determinant.
pub open spec fn spec_select_transform(candidate: Option<(Matrix2, Binary64)>) -> Result<
    Matrix2,
    Error,
> {
    match candidate {
        None => Err(Error::DoesNotExist),
        Some((t, modulus)) => if spec_is_singular(modulus) {
            Err(Error::DoesNotExist)
        } else {
            Ok(t)
        },
    }
}

/// Whether a squared norm counts as zero: it does where its absolute value
/// is at most the machine epsilon.
pub open spec fn spec_is_negligible(norm_sqr: Binary64) -> bool {
    !norm_sqr.spec_is_nan() && norm_sqr.magnitude() <= (Binary64 {
        bits: EPSILON_BITS,
    }).magnitude()
}

/// The row that a point gives: `[1, -p]`, or `[0, 1]` for the point at
/// infinity.
pub fn canonical_row(p: &ExtComplex) -> (r: (Complex, Complex))
    ensures
        r == spec_canonical_row(*p),
{
    match *p {
        ExtComplex::Inf => (Complex::zero(), Complex::one()),
        ExtComplex::Val(v) => (Complex::one(), v.neg()),
    }
}

/// Lays out the map that sends the first point to zero, the second to
/// infinity and the third to one.
///
/// Nothing is rounded here: the plan holds the rows as the points give
/// them, and the operands of the two differences that scale them.
pub fn canonical_plan(inputs: &[ExtComplex; 3]) -> (plan: CanonicalPlan)
    ensures
        plan == spec_canonical_plan(inputs@[0], inputs@[1], inputs@[2]),
{
    let top_row = canonical_row(&inputs[0]);
    let bottom_row = canonical_row(&inputs[1]);
    CanonicalPlan {
        rows: Matrix2 { m11: top_row.0, m12: top_row.1, m21: bottom_row.0, m22: bottom_row.1 },
        pivot: inputs[2].lift(),
        top: inputs[1].lift(),
        bottom: inputs[0].lift(),
    }
}

/// Turns a computed difference into the factor of a row.
///
/// A difference of two infinities is no number: the factor is zero, which
/// makes the row zero and the matrix singular. A difference with one
/// infinity is infinite: the factor is one, as the row needs no factor then.
/// The real part of the factor is finite in every case.
pub fn guard_factor(difference: Complex) -> (r: Complex)
    ensures
        r == spec_guard_factor(difference),
        r.re.spec_is_finite(),
{
    proof {
        crate::binary64::lemma_classes_partition(difference.re);
    }
    if difference.re.is_nan() {
        Complex::zero()
    } else if difference.re.is_infinite() {
        Complex::one()
    } else {
        difference
    }
}

/// Whether a transformation counts as singular, given the absolute value of
/// its determinant.
#[verifier::when_used_as_spec(spec_is_singular)]
pub fn is_singular(modulus: Binary64) -> (r: bool)
    ensures
        r == spec_is_singular(modulus),
{
    modulus.lt(&Binary64::from_bits(HUNDRED_EPSILON_BITS))
}

/// Decides whether a transformation exists.
///
/// The candidate is absent where the matrix of the images has no inverse;
/// else it is the product of that inverse with the matrix of the points,
/// given with the absolute value of its determinant. The candidate is the
/// transformation unless it is absent or singular.
pub fn select_transform(candidate: Option<(Matrix2, Binary64)>) -> (r: Result<Matrix2, Error>)
    ensures
        r == spec_select_transform(candidate),
        r is Ok <==> (candidate matches Some(c) && !spec_is_singular(c.1)),
        r matches Ok(t) ==> candidate matches Some(c) && c.0 == t,
        r matches Err(e) ==> e == Error::DoesNotExist,
{
    match candidate {
        None => Err(Error::DoesNotExist),
        Some((t, modulus)) => {
            if is_singular(modulus) {
                Err(Error::DoesNotExist)
            } else {
                Ok(t)
            }
        },
    }
}

/// `out` is `row` multiplied by the guarded difference of `minuend` and
/// `subtrahend`: some `d` is what `k` returned for the difference, and each
/// entry of `out` is what `k` returned for the product of the entry of `row`
/// with the factor that `d` gives.
pub open spec fn is_scaled_row<K: Arithmetic>(
    k: &K,
    row: (Complex, Complex),
    minuend: Complex,
    subtrahend: Complex,
    out: (Complex, Complex),
) -> bool {
    exists|d: Complex|
        {
            &&& #[trigger] is_difference(k, minuend, subtrahend, d)
            &&& is_product(k, row.0, spec_guard_factor(d), out.0)
            &&& is_product(k, row.1, spec_guard_factor(d), out.1)
        }
}

/// `m` is the matrix that the engine builds for the map sending `z1` to
/// zero, `z2` to infinity and `z3` to one: the rows of the plan, the top one
/// multiplied by the guarded `z3 - z2`, the bottom one by the guarded
/// `z3 - z1`.
pub open spec fn is_partial_mobius_tform<K: Arithmetic>(
    k: &K,
    z1: ExtComplex,
    z2: ExtComplex,
    z3: ExtComplex,
    m: Matrix2,
) -> bool {
    let plan = spec_canonical_plan(z1, z2, z3);
    &&& is_scaled_row(
        k,
        (plan.rows.m11, plan.rows.m12),
        plan.pivot,
        plan.top,
        (m.m11, m.m12),
    )
    &&& is_scaled_row(
        k,
        (plan.rows.m21, plan.rows.m22),
        plan.pivot,
        plan.bottom,
        (m.m21, m.m22),
    )
}

/// Multiplies a row by the guarded difference of two numbers.
fn scale_row<K: Arithmetic>(
    k: &K,
    row: (Complex, Complex),
    minuend: Complex,
    subtrahend: Complex,
) -> (out: (Complex, Complex))
    ensures
        is_scaled_row(k, row, minuend, subtrahend, out),
{
    let d = k.difference(minuend, subtrahend);
    let factor = guard_factor(d);
    let first = k.product(row.0, factor);
    let second = k.product(row.1, factor);
    assert(is_difference(k, minuend, subtrahend, d));
    (first, second)
}

/// Builds the matrix of the map that sends the first point to zero, the
/// second to infinity and the third to one.
///
/// The points are not compared with each other: for every triple there is a
/// matrix. Where two of the points coincide it is singular, as far as the
/// arithmetic of `k` makes the difference of a number with itself zero and
/// the difference of two infinities no number.
pub fn compute_partial_mobius_tform<K: Arithmetic>(k: &K, inputs: &[ExtComplex; 3]) -> (m: Matrix2)
    ensures
        is_partial_mobius_tform(k, inputs@[0], inputs@[1], inputs@[2], m),
{
    let plan = canonical_plan(inputs);
    let top = scale_row(k, (plan.rows.m11, plan.rows.m12), plan.pivot, plan.top);
    let bottom = scale_row(k, (plan.rows.m21, plan.rows.m22), plan.pivot, plan.bottom);
    Matrix2 { m11: top.0, m12: top.1, m21: bottom.0, m22: bottom.1 }
}

/// `r` is what the engine answers when asked for the transformation that
/// sends each of `inputs` to the one of `outputs` in its place.
///
/// With `min` the matrix built for `inputs` and `mout` the one built for
/// `outputs`: there is no transformation where `k` found no inverse of
/// `mout`. Else the candidate is what `k` returned for the product of that
/// inverse with `min`, and it is the transformation unless the absolute
/// value of its determinant, both as `k` returned them, is below the
/// tolerance.
pub open spec fn is_mobius_tform<K: Arithmetic>(
    k: &K,
    inputs: Seq<ExtComplex>,
    outputs: Seq<ExtComplex>,
    r: Result<Matrix2, Error>,
) -> bool {
    exists|min: Matrix2, mout: Matrix2, inverse: Option<Matrix2>|
        {
            &&& #[trigger] is_partial_mobius_tform(k, inputs[0], inputs[1], inputs[2], min)
            &&& #[trigger] is_partial_mobius_tform(k, outputs[0], outputs[1], outputs[2], mout)
            &&& #[trigger] is_inverse(k, mout, inverse)
            &&& match inverse {
                None => r == Err::<Matrix2, Error>(Error::DoesNotExist),
                Some(inv) => is_selected_product(k, inv, min, r),
            }
        }
}

/// `r` is what becomes of the product of `inv` and `min`: the product
/// itself, unless the absolute value of its determinant is below the
/// tolerance.
pub open spec fn is_selected_product<K: Arithmetic>(
    k: &K,
    inv: Matrix2,
    min: Matrix2,
    r: Result<Matrix2, Error>,
) -> bool {
    exists|t: Matrix2, det: Complex, modulus: Binary64|
        {
            &&& #[trigger] is_matrix_product(k, inv, min, t)
            &&& #[trigger] is_determinant(k, t, det)
            &&& #[trigger] is_modulus(k, det, modulus)
            &&& r == spec_select_transform(Some((t, modulus)))
        }
}

/// Computes the Möbius transformation that sends each of three points to
/// the image in its place.
///
/// Three distinct points and three distinct images fix one transformation.
/// There is none where two of the images coincide, so that their matrix has
/// no inverse, or where points or images lie so close together that the
/// determinant of the result is below one hundred times the machine
/// epsilon.
pub fn compute_mobius_tform<K: Arithmetic>(
    k: &K,
    inputs: &[ExtComplex; 3],
    outputs: &[ExtComplex; 3],
) -> (r: Result<Matrix2, Error>)
    ensures
        is_mobius_tform(k, inputs@, outputs@, r),
        r matches Err(e) ==> e == Error::DoesNotExist,
{
    let map_from_inputs = compute_partial_mobius_tform(k, inputs);
    let map_to_canonical = compute_partial_mobius_tform(k, outputs);
    let inverse = k.try_inverse(map_to_canonical);
    assert(is_inverse(k, map_to_canonical, inverse));
    match inverse {
        None => Err(Error::DoesNotExist),
        Some(inv) => {
            let t = k.matrix_product(inv, map_from_inputs);
            let det = k.determinant(t);
            let modulus = k.modulus(det);
            let r = select_transform(Some((t, modulus)));
            assert(is_matrix_product(k, inv, map_from_inputs, t));
            assert(is_determinant(k, t, det));
            assert(is_modulus(k, det, modulus));
            assert(is_selected_product(k, inv, map_from_inputs, r));
            r
        },
    }
}

/// `r` is the image of the point `p` under the map of `tform`.
///
/// For the point at infinity the image is what the quotient `m11 / m21`
/// stands for. For a number `v` it is what the quotient of the two entries
/// of `tform (v, 1)` stands for. A quotient with a part that is infinite or
/// no number stands for the point at infinity.
pub open spec fn is_image<K: Arithmetic>(k: &K, tform: Matrix2, p: ExtComplex, r: ExtComplex)
    -> bool {
    exists|q: Complex|
        {
            &&& #[trigger] is_mapped_quotient(k, tform, p, q)
            &&& r == ExtComplex::spec_from_complex(q)
        }
}

/// `q` is the quotient that the map of `tform` gives for the point `p`:
/// `m11 / m21` for the point at infinity, and for a number `v` the quotient
/// of the two entries of `tform (v, 1)`.
pub open spec fn is_mapped_quotient<K: Arithmetic>(k: &K, tform: Matrix2, p: ExtComplex, q: Complex)
    -> bool {
    match p {
        ExtComplex::Inf => is_quotient(k, tform.m11, tform.m21, q),
        ExtComplex::Val(v) => is_projected_quotient(k, tform, v, q),
    }
}

/// `q` is the quotient of the two entries of `tform (v, 1)`.
pub open spec fn is_projected_quotient<K: Arithmetic>(k: &K, tform: Matrix2, v: Complex, q: Complex)
    -> bool {
    exists|image: (Complex, Complex)|
        {
            &&& #[trigger] is_transformed(k, tform, (v, Complex::spec_one()), image)
            &&& is_quotient(k, image.0, image.1, q)
        }
}

/// Maps a point of the extended plane by a Möbius transformation.
///
/// The image is in canonical form: the point at infinity, or a number with
/// two finite parts.
pub fn apply_mobius_tform<K: Arithmetic>(k: &K, tform: &Matrix2, p: &ExtComplex) -> (r: ExtComplex)
    ensures
        is_image(k, *tform, *p, r),
        r.is_canonical(),
{
    let mapped = match *p {
        ExtComplex::Inf => k.quotient(tform.m11, tform.m21),
        ExtComplex::Val(v) => {
            let image = k.transform(*tform, (v, Complex::one()));
            let q = k.quotient(image.0, image.1);
            assert(is_transformed(k, *tform, (v, Complex::spec_one()), image));
            assert(is_projected_quotient(k, *tform, v, q));
            q
        },
    };
    let r = ExtComplex::from_complex(mapped);
    assert(is_mapped_quotient(k, *tform, *p, mapped));
    r
}

/// The rows of a matrix that stands for a curve, told apart by the squared
/// norms of their first entries.
#[derive(Clone, Copy, Debug, PartialEq)]
pub struct LabeledRows {
    /// The first entry of the row whose first entry is the smaller one.
    pub min0: Complex,
    /// The second entry of that row.
    pub min1: Complex,
    /// The first entry of the other row.
    pub maj0: Complex,
    /// The second entry of the other row.
    pub maj1: Complex,
    /// The squared norm of `min0`.
    pub min_norm_sqr: Binary64,
    /// The squared norm of `maj0`.
    pub maj_norm_sqr: Binary64,
}

/// The rows of `m`, labeled: the top row is the minor one where the squared
/// norm of its first entry is at most that of the bottom row's.
pub open spec fn spec_label_rows(m: Matrix2, top_norm_sqr: Binary64, bottom_norm_sqr: Binary64)
    -> LabeledRows {
    if top_norm_sqr.spec_le(&bottom_norm_sqr) {
        LabeledRows {
            min0: m.m11,
            min1: m.m12,
            maj0: m.m21,
            maj1: m.m22,
            min_norm_sqr: top_norm_sqr,
            maj_norm_sqr: bottom_norm_sqr,
        }
    } else {
        LabeledRows {
            min0: m.m21,
            min1: m.m22,
            maj0: m.m11,
            maj1: m.m12,
            min_norm_sqr: bottom_norm_sqr,
            maj_norm_sqr: top_norm_sqr,
        }
    }
}

/// Tells the rows of a matrix apart, given the squared norms of the first
/// entries of its top and bottom rows.
///
/// Unless one of the norms is a NaN, the minor row is the one with the
/// smaller norm.
pub fn label_rows(m: &Matrix2, top_norm_sqr: Binary64, bottom_norm_sqr: Binary64) -> (r:
    LabeledRows)
    ensures
        r == spec_label_rows(*m, top_norm_sqr, bottom_norm_sqr),
        !top_norm_sqr.spec_is_nan() && !bottom_norm_sqr.spec_is_nan() ==> r.min_norm_sqr.spec_le(
            &r.maj_norm_sqr,
        ),
{
    if top_norm_sqr.le(&bottom_norm_sqr) {
        LabeledRows {
            min0: m.m11,
            min1: m.m12,
            maj0: m.m21,
            maj1: m.m22,
            min_norm_sqr: top_norm_sqr,
            maj_norm_sqr: bottom_norm_sqr,
        }
    } else {
        LabeledRows {
            min0: m.m21,
            min1: m.m22,
            maj0: m.m11,
            maj1: m.m12,
            min_norm_sqr: bottom_norm_sqr,
            maj_norm_sqr: top_norm_sqr,
        }
    }
}

/// Whether a squared norm counts as zero.
#[verifier::when_used_as_spec(spec_is_negligible)]
pub fn is_negligible(norm_sqr: Binary64) -> (r: bool)
    ensures
        r == spec_is_negligible(norm_sqr),
{
    norm_sqr.abs().le(&Binary64::epsilon())
}

/// The curve is the circle that a matrix with a negligible first entry in
/// its minor row holds: its center is the quotient `-maj1 / maj0`, its
/// radius the root of the quotient of the squared norm of `min1` by the
/// squared norm of `maj0`, each as `k` returned it.
pub open spec fn is_pole_circle<K: Arithmetic>(k: &K, rows: LabeledRows, curve: Curve) -> bool {
    exists|center: Complex, norm_sqr: Binary64, ratio_sqr: Binary64, radius: Binary64|
        {
            &&& #[trigger] is_quotient(k, rows.maj1.spec_neg(), rows.maj0, center)
            &&& #[trigger] is_norm_sqr(k, rows.min1, norm_sqr)
            &&& #[trigger] is_real_quotient(k, norm_sqr, rows.maj_norm_sqr, ratio_sqr)
            &&& #[trigger] is_sqrt(k, ratio_sqr, radius)
            &&& curve == Curve::Circle { center, radius }
        }
}

/// The curve is the line between the points `maj_pt` and `min_pt`: it
/// passes through one half of their sum, and its direction is their
/// difference multiplied by the imaginary unit, each as `k` returned it.
pub open spec fn is_bisector<K: Arithmetic>(k: &K, maj_pt: Complex, min_pt: Complex, curve: Curve)
    -> bool {
    exists|total: Complex, point: Complex, chord: Complex, slope: Complex|
        {
            &&& #[trigger] is_sum(k, maj_pt, min_pt, total)
            &&& #[trigger] is_scaled(k, Binary64 { bits: HALF_BITS }, total, point)
            &&& #[trigger] is_difference(k, maj_pt, min_pt, chord)
            &&& #[trigger] is_product(k, chord, Complex::spec_i(), slope)
            &&& curve == Curve::Line { point, slope }
        }
}

/// The center is that of the circle of Apollonius about `maj_pt` and
/// `min_pt` with squared ratio `ratio_sqr`: with `coeff` the reciprocal of
/// `1 - ratio_sqr`, it is `coeff * maj_pt + (1 - coeff) * min_pt`, each step
/// as `k` returned it.
pub open spec fn is_apollonius_center<K: Arithmetic>(
    k: &K,
    maj_pt: Complex,
    min_pt: Complex,
    coeff: Binary64,
    center: Complex,
) -> bool {
    exists|major: Complex, rest: Binary64, minor: Complex|
        {
            &&& #[trigger] is_scaled(k, coeff, maj_pt, major)
            &&& #[trigger] is_real_difference(k, Binary64 { bits: ONE_BITS }, coeff, rest)
            &&& #[trigger] is_scaled(k, rest, min_pt, minor)
            &&& is_sum(k, major, minor, center)
        }
}

/// The radius is that of the circle of Apollonius about `maj_pt` and
/// `min_pt`: the root of `ratio_sqr`, multiplied by `coeff` and then by the
/// distance of the two points, each step as `k` returned it.
pub open spec fn is_apollonius_radius<K: Arithmetic>(
    k: &K,
    maj_pt: Complex,
    min_pt: Complex,
    ratio_sqr: Binary64,
    coeff: Binary64,
    radius: Binary64,
) -> bool {
    exists|ratio: Binary64, weight: Binary64, chord: Complex, distance: Binary64|
        {
            &&& #[trigger] is_sqrt(k, ratio_sqr, ratio)
            &&& #[trigger] is_real_product(k, ratio, coeff, weight)
            &&& #[trigger] is_difference(k, maj_pt, min_pt, chord)
            &&& #[trigger] is_modulus(k, chord, distance)
            &&& is_real_product(k, weight, distance, radius)
        }
}

/// The curve is the circle of Apollonius about `maj_pt` and `min_pt` with
/// squared ratio `ratio_sqr`: the points whose distances to the two are in
/// that ratio.
pub open spec fn is_apollonius_circle<K: Arithmetic>(
    k: &K,
    maj_pt: Complex,
    min_pt: Complex,
    ratio_sqr: Binary64,
    curve: Curve,
) -> bool {
    exists|gap: Binary64, coeff: Binary64, center: Complex, radius: Binary64|
        {
            &&& #[trigger] is_real_difference(k, Binary64 { bits: ONE_BITS }, ratio_sqr, gap)
            &&& #[trigger] is_recip(k, gap, coeff)
            &&& #[trigger] is_apollonius_center(k, maj_pt, min_pt, coeff, center)
            &&& #[trigger] is_apollonius_radius(k, maj_pt, min_pt, ratio_sqr, coeff, radius)
            &&& curve == Curve::Circle { center, radius }
        }
}

/// The curve is the one that labeled rows hold whose minor first entry is
/// not negligible. With `maj_pt` the quotient `-maj1 / maj0`, `min_pt` the
/// quotient `-min1 / min0` and `ratio_sqr` the quotient of the two squared
/// norms: a line where `k` finds `ratio_sqr` equal to one within a relative
/// tolerance of a thousandth, and else a circle of Apollonius.
pub open spec fn is_two_point_curve<K: Arithmetic>(k: &K, rows: LabeledRows, curve: Curve) -> bool {
    exists|maj_pt: Complex, min_pt: Complex, ratio_sqr: Binary64, unit: bool|
        {
            &&& #[trigger] is_quotient(k, rows.maj1.spec_neg(), rows.maj0, maj_pt)
            &&& #[trigger] is_quotient(k, rows.min1.spec_neg(), rows.min0, min_pt)
            &&& #[trigger] is_real_quotient(k, rows.min_norm_sqr, rows.maj_norm_sqr, ratio_sqr)
            &&& #[trigger] is_relative_eq(
                k,
                Binary64 { bits: ONE_BITS },
                ratio_sqr,
                Binary64 { bits: THOUSANDTH_BITS },
                unit,
            )
            &&& if unit {
                is_bisector(k, maj_pt, min_pt, curve)
            } else {
                is_apollonius_circle(k, maj_pt, min_pt, ratio_sqr, curve)
            }
        }
}

/// The curve is the one that labeled rows hold.
pub open spec fn is_curve_of_rows<K: Arithmetic>(k: &K, rows: LabeledRows, curve: Curve) -> bool {
    if spec_is_negligible(rows.min_norm_sqr) {
        is_pole_circle(k, rows, curve)
    } else {
        is_two_point_curve(k, rows, curve)
    }
}

/// The curve is the one that the matrix `m` holds: the one of its rows,
/// labeled by the squared norms of their first entries as `k` returned
/// them.
pub open spec fn is_curve<K: Arithmetic>(k: &K, m: Matrix2, curve: Curve) -> bool {
    exists|top_norm_sqr: Binary64, bottom_norm_sqr: Binary64|
        {
            &&& #[trigger] is_norm_sqr(k, m.m11, top_norm_sqr)
            &&& #[trigger] is_norm_sqr(k, m.m21, bottom_norm_sqr)
            &&& is_curve_of_rows(k, spec_label_rows(m, top_norm_sqr, bottom_norm_sqr), curve)
        }
}

/// The circle of rows whose minor first entry is negligible.
fn pole_circle<K: Arithmetic>(k: &K, rows: &LabeledRows) -> (curve: Curve)
    ensures
        is_pole_circle(k, *rows, curve),
{
    let center = k.quotient(rows.maj1.neg(), rows.maj0);
    let norm_sqr = k.norm_sqr(rows.min1);
    let ratio_sqr = k.real_quotient(norm_sqr, rows.maj_norm_sqr);
    let radius = k.sqrt(ratio_sqr);
    assert(is_quotient(k, rows.maj1.spec_neg(), rows.maj0, center));
    assert(is_norm_sqr(k, rows.min1, norm_sqr));
    assert(is_real_quotient(k, norm_sqr, rows.maj_norm_sqr, ratio_sqr));
    assert(is_sqrt(k, ratio_sqr, radius));
    Curve::Circle { center, radius }
}

/// The line between two points.
fn bisector<K: Arithmetic>(k: &K, maj_pt: Complex, min_pt: Complex) -> (curve: Curve)
    ensures
        is_bisector(k, maj_pt, min_pt, curve),
{
    let total = k.sum(maj_pt, min_pt);
    let point = k.scale(Binary64::from_bits(HALF_BITS), total);
    let chord = k.difference(maj_pt, min_pt);
    let slope = k.product(chord, Complex::i());
    assert(is_sum(k, maj_pt, min_pt, total));
    assert(is_scaled(k, Binary64 { bits: HALF_BITS }, total, point));
    assert(is_difference(k, maj_pt, min_pt, chord));
    assert(is_product(k, chord, Complex::spec_i(), slope));
    Curve::Line { point, slope }
}

/// The circle of Apollonius about two points.
fn apollonius_circle<K: Arithmetic>(k: &K, maj_pt: Complex, min_pt: Complex, ratio_sqr: Binary64)
    -> (curve: Curve)
    ensures
        is_apollonius_circle(k, maj_pt, min_pt, ratio_sqr, curve),
{
    let ratio = k.sqrt(ratio_sqr);
    let gap = k.real_difference(Binary64::one(), ratio_sqr);
    let coeff = k.recip(gap);
    let major = k.scale(coeff, maj_pt);
    let rest = k.real_difference(Binary64::one(), coeff);
    let minor = k.scale(rest, min_pt);
    let center = k.sum(major, minor);
    let weight = k.real_product(ratio, coeff);
    let chord = k.difference(maj_pt, min_pt);
    let distance = k.modulus(chord);
    let radius = k.real_product(weight, distance);
    assert(is_scaled(k, coeff, maj_pt, major));
    assert(is_real_difference(k, Binary64 { bits: ONE_BITS }, coeff, rest));
    assert(is_scaled(k, rest, min_pt, minor));
    assert(is_apollonius_center(k, maj_pt, min_pt, coeff, center));
    assert(is_sqrt(k, ratio_sqr, ratio));
    assert(is_real_product(k, ratio, coeff, weight));
    assert(is_difference(k, maj_pt, min_pt, chord));
    assert(is_modulus(k, chord, distance));
    assert(is_apollonius_radius(k, maj_pt, min_pt, ratio_sqr, coeff, radius));
    assert(is_real_difference(k, Binary64 { bits: ONE_BITS }, ratio_sqr, gap));
    assert(is_recip(k, gap, coeff));
    Curve::Circle { center, radius }
}

/// Reads the matrix of a curve back into a line or a circle.
///
/// The matrix `[[a, b], [c, d]]` stands for the points `z` at which
/// `(a z + b) / (c z + d)` has absolute value one. The rows are labeled by
/// the size of their first entries. A minor first entry that counts as zero
/// gives a circle at once. Else the two points `-b / a` and `-d / c` are
/// taken: where the first entries are of the same size within a relative
/// tolerance of a thousandth, the curve is the line half way between the
/// two points; else it is the circle of Apollonius about them.
///
/// A singular matrix holds no curve. The answer for one is still what the
/// contract says, and means nothing.
pub fn matrix_to_curve<K: Arithmetic>(k: &K, m: &Matrix2) -> (curve: Curve)
    ensures
        is_curve(k, *m, curve),
{
    let top_norm_sqr = k.norm_sqr(m.m11);
    let bottom_norm_sqr = k.norm_sqr(m.m21);
    let rows = label_rows(m, top_norm_sqr, bottom_norm_sqr);
    assert(is_norm_sqr(k, m.m11, top_norm_sqr));
    assert(is_norm_sqr(k, m.m21, bottom_norm_sqr));
    if is_negligible(rows.min_norm_sqr) {
        pole_circle(k, &rows)
    } else {
        let maj_pt = k.quotient(rows.maj1.neg(), rows.maj0);
        let min_pt = k.quotient(rows.min1.neg(), rows.min0);
        let ratio_sqr = k.real_quotient(rows.min_norm_sqr, rows.maj_norm_sqr);
        let unit = k.relative_eq(
            Binary64::one(),
            ratio_sqr,
            Binary64::from_bits(THOUSANDTH_BITS),
        );
        let curve = if unit {
            bisector(k, maj_pt, min_pt)
        } else {
            apollonius_circle(k, maj_pt, min_pt, ratio_sqr)
        };
        assert(is_quotient(k, rows.maj1.spec_neg(), rows.maj0, maj_pt));
        assert(is_quotient(k, rows.min1.spec_neg(), rows.min0, min_pt));
        assert(is_real_quotient(k, rows.min_norm_sqr, rows.maj_norm_sqr, ratio_sqr));
        assert(is_relative_eq(
            k,
            Binary64 { bits: ONE_BITS },
            ratio_sqr,
            Binary64 { bits: THOUSANDTH_BITS },
            unit,
        ));
        assert(is_two_point_curve(k, rows, curve));
        curve
    }
}

} // verus!
