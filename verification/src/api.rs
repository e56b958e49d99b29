//! The one operation that the engine offers to a front end: the curves of
//! the named families, as a Möbius transformation maps them.

use crate::arith::is_matrix_product;
use crate::arith::Arithmetic;
use crate::engine::compute_mobius_tform;
use crate::engine::is_curve;
use crate::engine::is_mobius_tform;
use crate::engine::matrix_to_curve;
use crate::model::Curve;
use crate::model::ExtComplex;
use crate::model::Matrix2;
use crate::text::same_text;
use vstd::prelude::*;

verus! {

/// Why no transformation was produced.
#[derive(Clone, Copy, Debug, PartialEq, Eq, Structural)]
pub enum Error {
    /// No Möbius transformation maps the three given points to the three
    /// given images: two of the points, or two of the images, coincide or
    /// nearly do, so the matrix is singular.
    DoesNotExist,
}

impl Error {
    /// The name under which the error is reported.
    pub fn kind(&self) -> (r: &'static str)
        ensures
            r@ == "DoesNotExist"@,
    {
        match self {
            Error::DoesNotExist => "DoesNotExist",
        }
    }
}

/// A family of curves that can be asked for by name.
#[derive(Clone, Copy, Debug, PartialEq, Eq, Structural)]
pub enum CurveFamily {
    /// The lines of the rectangular grid, named `xy`.
    Xy,
    /// The circles and rays of the polar grid, named `polar`.
    Polar,
    /// The two pencils of Apollonian circles, named `apollo`.
    Apollo,
}

impl CurveFamily {
    /// The family that a name stands for, if any.
    pub open spec fn spec_from_name(name: Seq<char>) -> Option<CurveFamily> {
        if name == "xy"@ {
            Some(CurveFamily::Xy)
        } else if name == "polar"@ {
            Some(CurveFamily::Polar)
        } else if name == "apollo"@ {
            Some(CurveFamily::Apollo)
        } else {
            None
        }
    }

    /// The family that a name stands for, if any.
    pub fn from_name(name: &str) -> (r: Option<CurveFamily>)
        ensures
            r == CurveFamily::spec_from_name(name@),
    {
        if same_text(name, "xy") {
            Some(CurveFamily::Xy)
        } else if same_text(name, "polar") {
            Some(CurveFamily::Polar)
        } else if same_text(name, "apollo") {
            Some(CurveFamily::Apollo)
        } else {
            None
        }
    }

    /// The name of the family.
    pub fn name(&self) -> (r: &'static str)
        ensures
            CurveFamily::spec_from_name(r@) == Some(*self),
    {
        proof {
            reveal_strlit("xy");
            reveal_strlit("polar");
            reveal_strlit("apollo");
            assert("xy"@.len() == 2);
            assert("polar"@.len() == 5);
            assert("apollo"@.len() == 6);
        }
        match self {
            CurveFamily::Xy => "xy",
            CurveFamily::Polar => "polar",
            CurveFamily::Apollo => "apollo",
        }
    }
}

/// The matrices of the curves of each family, as the provider of the
/// families hands them to the engine.
#[derive(Debug)]
pub struct CurveTables {
    pub xy: Vec<Matrix2>,
    pub polar: Vec<Matrix2>,
    pub apollo: Vec<Matrix2>,
}

impl CurveTables {
    /// The matrices of a family.
    pub open spec fn spec_family(&self, family: CurveFamily) -> Seq<Matrix2> {
        match family {
            CurveFamily::Xy => self.xy@,
            CurveFamily::Polar => self.polar@,
            CurveFamily::Apollo => self.apollo@,
        }
    }

    /// The matrices of a family.
    pub fn family(&self, family: CurveFamily) -> (r: &Vec<Matrix2>)
        ensures
            r@ == self.spec_family(family),
    {
        match family {
            CurveFamily::Xy => &self.xy,
            CurveFamily::Polar => &self.polar,
            CurveFamily::Apollo => &self.apollo,
        }
    }
}

/// The matrices of the family that a name stands for. A name that stands
/// for no family gives nothing, which is no error.
pub fn lookup_curve_family<'a>(tables: &'a CurveTables, name: &str) -> (r: Option<&'a Vec<Matrix2>>)
    ensures
        match CurveFamily::spec_from_name(name@) {
            Some(family) => r matches Some(found) && found@ == tables.spec_family(family),
            None => r is None,
        },
{
    match CurveFamily::from_name(name) {
        Some(family) => Some(tables.family(family)),
        None => None,
    }
}

/// The curves of the families that were asked for, each list in the order
/// of the family's matrices. A family that was not asked for has no list.
#[derive(Debug, PartialEq)]
pub struct GenerateMobiusResponse {
    pub xy: Option<Vec<Curve>>,
    pub polar: Option<Vec<Curve>>,
    pub apollo: Option<Vec<Curve>>,
}

impl GenerateMobiusResponse {
    /// The curves of a family, where it has a list.
    pub open spec fn spec_curves(&self, family: CurveFamily) -> Option<Seq<Curve>> {
        match family {
            CurveFamily::Xy => match self.xy {
                Some(list) => Some(list@),
                None => None,
            },
            CurveFamily::Polar => match self.polar {
                Some(list) => Some(list@),
                None => None,
            },
            CurveFamily::Apollo => match self.apollo {
                Some(list) => Some(list@),
                None => None,
            },
        }
    }

    /// The response that holds no list.
    pub fn new() -> (r: Self)
        ensures
            forall|family: CurveFamily| r.spec_curves(family) is None,
    {
        GenerateMobiusResponse { xy: None, polar: None, apollo: None }
    }

    /// The curves of a family, where it has a list.
    pub fn curves(&self, family: CurveFamily) -> (r: Option<&Vec<Curve>>)
        ensures
            match self.spec_curves(family) {
                Some(list) => r matches Some(found) && found@ == list,
                None => r is None,
            },
    {
        match family {
            CurveFamily::Xy => self.xy.as_ref(),
            CurveFamily::Polar => self.polar.as_ref(),
            CurveFamily::Apollo => self.apollo.as_ref(),
        }
    }

    /// Gives a family its list, in place of the one it had.
    pub fn insert(&mut self, family: CurveFamily, list: Vec<Curve>)
        ensures
            final(self).spec_curves(family) == Some(list@),
            forall|other: CurveFamily|
                other != family ==> final(self).spec_curves(other) == old(self).spec_curves(other),
    {
        match family {
            CurveFamily::Xy => {
                self.xy = Some(list);
            },
            CurveFamily::Polar => {
                self.polar = Some(list);
            },
            CurveFamily::Apollo => {
                self.apollo = Some(list);
            },
        }
    }
}

/// `curve` is what the engine reads from the matrix `m` once it is carried
/// along by the matrix `by`: the curve of what `k` returned for the product
/// `m by`.
pub open spec fn is_transformed_curve<K: Arithmetic>(k: &K, m: Matrix2, by: Matrix2, curve: Curve)
    -> bool {
    exists|carried: Matrix2| #[trigger] is_matrix_product(k, m, by, carried) && is_curve(k, carried, curve)
}

/// `curves` holds, place by place, what the engine reads from `matrices`
/// carried along by `by`.
pub open spec fn are_transformed_curves<K: Arithmetic>(
    k: &K,
    matrices: Seq<Matrix2>,
    by: Matrix2,
    curves: Seq<Curve>,
) -> bool {
    &&& curves.len() == matrices.len()
    &&& forall|j: int|
        0 <= j < matrices.len() ==> is_transformed_curve(k, matrices[j], by, #[trigger] curves[j])
}

/// Whether one of the first `n` names stands for the family.
pub open spec fn is_requested(names: Seq<&str>, n: int, family: CurveFamily) -> bool {
    exists|i: int| 0 <= i < n && CurveFamily::spec_from_name((#[trigger] names[i])@) == Some(family)
}

/// `answer` is what the response holds for a family, given the first `n`
/// names of the request: nothing where none of them stands for the family,
/// and else the curves of the family's matrices carried along by `by`.
pub open spec fn is_answer<K: Arithmetic>(
    k: &K,
    tables: &CurveTables,
    by: Matrix2,
    names: Seq<&str>,
    n: int,
    family: CurveFamily,
    answer: Option<Seq<Curve>>,
) -> bool {
    match answer {
        None => !is_requested(names, n, family),
        Some(curves) => is_requested(names, n, family) && are_transformed_curves(
            k,
            tables.spec_family(family),
            by,
            curves,
        ),
    }
}

/// Carries each matrix of a family along by a matrix and reads the curve it
/// then holds.
pub fn transform_curves<K: Arithmetic>(k: &K, matrices: &Vec<Matrix2>, by: &Matrix2) -> (curves:
    Vec<Curve>)
    ensures
        are_transformed_curves(k, matrices@, *by, curves@),
{
    let mut curves: Vec<Curve> = Vec::new();
    let mut j: usize = 0;
    while j < matrices.len()
        invariant
            0 <= j <= matrices@.len(),
            curves@.len() == j,
            forall|i: int|
                0 <= i < j ==> is_transformed_curve(k, matrices@[i], *by, #[trigger] curves@[i]),
        decreases matrices@.len() - j,
    {
        let carried = k.matrix_product(matrices[j], *by);
        let curve = matrix_to_curve(k, &carried);
        assert(is_matrix_product(k, matrices@[j as int], *by, carried));
        curves.push(curve);
        j = j + 1;
    }
    curves
}

/// Computes the transformation fixed by three points and their images, and
/// the curves of the named families as it maps them.
///
/// The curves of a family are given by conditions on points, so they are
/// carried along by the transformation that sends the images back to the
/// points: that is the one computed here, and there is no answer where it
/// does not exist. A name that stands for no family is passed over.
pub fn generate_mobius_transformation<K: Arithmetic>(
    k: &K,
    tables: &CurveTables,
    inputs: [ExtComplex; 3],
    outputs: [ExtComplex; 3],
    curves: Vec<&str>,
) -> (r: Result<GenerateMobiusResponse, Error>)
    ensures
        match r {
            Err(e) => e == Error::DoesNotExist && is_mobius_tform(
                k,
                outputs@,
                inputs@,
                Err::<Matrix2, Error>(Error::DoesNotExist),
            ),
            Ok(response) => exists|back: Matrix2|
                {
                    &&& #[trigger] is_mobius_tform(k, outputs@, inputs@, Ok::<Matrix2, Error>(back))
                    &&& forall|family: CurveFamily|
                        is_answer(
                            k,
                            tables,
                            back,
                            curves@,
                            curves@.len() as int,
                            family,
                            #[trigger] response.spec_curves(family),
                        )
                },
        },
{
    let back = match compute_mobius_tform(k, &outputs, &inputs) {
        Ok(t) => t,
        Err(e) => {
            return Err(e);
        },
    };
    let mut response = GenerateMobiusResponse::new();
    let mut i: usize = 0;
    while i < curves.len()
        invariant
            0 <= i <= curves@.len(),
            forall|family: CurveFamily|
                is_answer(
                    k,
                    tables,
                    back,
                    curves@,
                    i as int,
                    family,
                    #[trigger] response.spec_curves(family),
                ),
        decreases curves@.len() - i,
    {
        let ghost before = response;
        let found = CurveFamily::from_name(curves[i]);
        match found {
            Some(family) => {
                let list = transform_curves(k, tables.family(family), &back);
                response.insert(family, list);
            },
            None => {},
        }
        proof {
            assert forall|family: CurveFamily|
                is_answer(
                    k,
                    tables,
                    back,
                    curves@,
                    i + 1,
                    family,
                    #[trigger] response.spec_curves(family),
                ) by {
                assert(is_answer(k, tables, back, curves@, i as int, family, before.spec_curves(family)));
                if found == Some(family) {
                    assert(CurveFamily::spec_from_name(curves@[i as int]@) == Some(family));
                } else {
                    assert(response.spec_curves(family) == before.spec_curves(family));
                    if is_requested(curves@, i as int, family) {
                        let w = choose|w: int|
                            0 <= w < i && CurveFamily::spec_from_name((#[trigger] curves@[w])@)
                                == Some(family);
                        assert(CurveFamily::spec_from_name(curves@[w]@) == Some(family));
                    }
                }
            }
        }
        i = i + 1;
    }
    Ok(response)
}

} // verus!
