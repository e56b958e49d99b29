//! How a point of the extended plane is written for a peer and read back.
//!
//! A point is written either as the text `inf` or as a pair of two numbers.
//! This module decides which of the two it is, and what a text, a pair or a
//! failure of the number reader means when a point is read. Turning numbers
//! into digits and back is the caller's part.

use crate::model::Complex;
use crate::model::ExtComplex;
use crate::text::contains_text;
use crate::text::occurs_in;
use crate::text::same_text;
use vstd::prelude::*;
use vstd::string::*;

verus! {

/// What is written for a point.
#[derive(Clone, Copy, Debug, PartialEq)]
pub enum WireForm {
    /// The text `inf`.
    Marker,
    /// The real and the imaginary part, both finite.
    Pair(Complex),
}

/// Why a point cannot be written.
#[derive(Clone, Copy, Debug, PartialEq, Eq, Structural)]
pub enum EncodeError {
    /// A part of the number is a NaN.
    ContainsNan,
}

/// What was found where a point is to be read.
#[derive(Clone, Copy, Debug)]
pub enum WireInput<'a> {
    /// A text.
    Text(&'a str),
    /// A pair of two numbers.
    Pair(Complex),
    /// A sequence that the number reader refused, with what it said.
    Failure(&'a str),
    /// Anything else.
    Other,
}

/// Why nothing could be read as a point.
#[derive(Clone, Copy, Debug, PartialEq, Eq, Structural)]
pub enum DecodeError {
    /// A text other than `inf`.
    UnknownText,
    /// A sequence that is no pair of two numbers; what the number reader
    /// said of it stands.
    BadPair,
    /// Neither a text nor a sequence.
    WrongShape,
}

/// What is written for a point: `inf` for the point at infinity and for a
/// number with an infinite part, nothing for a number with a NaN part, and
/// else the two parts.
pub open spec fn spec_serialize(z: ExtComplex) -> Result<WireForm, EncodeError> {
    match z {
        ExtComplex::Inf => Ok(WireForm::Marker),
        ExtComplex::Val(c) => if c.spec_is_infinite() {
            Ok(WireForm::Marker)
        } else if c.spec_is_nan() {
            Err(EncodeError::ContainsNan)
        } else {
            Ok(WireForm::Pair(c))
        },
    }
}

/// The point that an input stands for.
pub open spec fn spec_deserialize(input: WireInput) -> Result<ExtComplex, DecodeError> {
    match input {
        WireInput::Text(text) => if text@ == "inf"@ {
            Ok(ExtComplex::Inf)
        } else {
            Err(DecodeError::UnknownText)
        },
        WireInput::Pair(c) => if c.spec_is_infinite() {
            Ok(ExtComplex::Inf)
        } else {
            Ok(ExtComplex::Val(c))
        },
        WireInput::Failure(said) => if occurs_in(
            said.spec_bytes(),
            "number out of range".spec_bytes(),
        ) {
            Ok(ExtComplex::Inf)
        } else {
            Err(DecodeError::BadPair)
        },
        WireInput::Other => Err(DecodeError::WrongShape),
    }
}

/// Whether an input is what a reader finds where `form` was written.
pub open spec fn reads_as(form: WireForm, input: WireInput) -> bool {
    match form {
        WireForm::Marker => input matches WireInput::Text(text) && text@ == "inf"@,
        WireForm::Pair(c) => input matches WireInput::Pair(d) && d == c,
    }
}

/// The text that stands for the point at infinity.
pub fn marker() -> (r: &'static str)
    ensures
        r@ == "inf"@,
{
    "inf"
}

/// What a reader of points accepts, in words, for its complaints.
pub fn expecting() -> (r: &'static str)
    ensures
        r@ == "the string \"inf\" or a tuple of 2 numbers"@,
{
    "the string \"inf\" or a tuple of 2 numbers"
}

impl EncodeError {
    /// The complaint, in words.
    pub fn message(&self) -> (r: &'static str)
        ensures
            r@ == "value contains nan"@,
    {
        match self {
            EncodeError::ContainsNan => "value contains nan",
        }
    }
}

impl ExtComplex {
    /// Decides what is written for the point.
    ///
    /// The point at infinity is written as the marker, and so is a number
    /// of which no part is a NaN and at least one is infinite. A number with
    /// a NaN part is refused. Any other number is written as its two parts,
    /// which are then both finite.
    pub fn serialize(&self) -> (r: Result<WireForm, EncodeError>)
        ensures
            r == spec_serialize(*self),
            r is Err <==> (self matches ExtComplex::Val(c) && c.spec_is_nan()),
            r matches Ok(WireForm::Pair(c)) ==> c.spec_is_finite() && *self == ExtComplex::Val(c),
    {
        match *self {
            ExtComplex::Inf => Ok(WireForm::Marker),
            ExtComplex::Val(c) => {
                if c.is_infinite() {
                    Ok(WireForm::Marker)
                } else if c.is_nan() {
                    Err(EncodeError::ContainsNan)
                } else {
                    proof {
                        crate::binary64::lemma_classes_partition(c.re);
                        crate::binary64::lemma_classes_partition(c.im);
                    }
                    Ok(WireForm::Pair(c))
                }
            },
        }
    }

    /// Decides which point an input stands for.
    ///
    /// The text `inf` stands for the point at infinity, and no other text
    /// stands for a point. A pair stands for its number, or for the point at
    /// infinity where the number is infinite. Where the number reader
    /// refused a sequence because a number in it is out of range, the
    /// sequence stands for the point at infinity; any other refusal stands.
    /// Nothing else stands for a point.
    pub fn deserialize(input: WireInput) -> (r: Result<ExtComplex, DecodeError>)
        ensures
            r == spec_deserialize(input),
    {
        match input {
            WireInput::Text(text) => {
                if same_text(text, "inf") {
                    Ok(ExtComplex::Inf)
                } else {
                    Err(DecodeError::UnknownText)
                }
            },
            WireInput::Pair(c) => {
                if c.is_infinite() {
                    Ok(ExtComplex::Inf)
                } else {
                    Ok(ExtComplex::Val(c))
                }
            },
            WireInput::Failure(said) => {
                if contains_text(said, "number out of range") {
                    Ok(ExtComplex::Inf)
                } else {
                    Err(DecodeError::BadPair)
                }
            },
            WireInput::Other => Err(DecodeError::WrongShape),
        }
    }
}

/// A number with an infinite part and no NaN part is written exactly as the
/// point at infinity is.
pub proof fn lemma_infinite_value_is_written_as_infinity(c: Complex)
    requires
        c.re.spec_is_infinite() || c.im.spec_is_infinite(),
        !c.re.spec_is_nan(),
        !c.im.spec_is_nan(),
    ensures
        spec_serialize(ExtComplex::Val(c)) == spec_serialize(ExtComplex::Inf),
        spec_serialize(ExtComplex::Inf) == Ok::<WireForm, EncodeError>(WireForm::Marker),
{
}

/// A number with a NaN part is never written.
pub proof fn lemma_nan_is_refused(c: Complex)
    requires
        c.re.spec_is_nan() || c.im.spec_is_nan(),
    ensures
        spec_serialize(ExtComplex::Val(c)) == Err::<WireForm, EncodeError>(EncodeError::ContainsNan),
{
}

/// What is written for a point in canonical form is read back as that
/// point.
pub proof fn lemma_written_point_reads_back(z: ExtComplex, input: WireInput)
    requires
        z.is_canonical(),
        spec_serialize(z) matches Ok(form) && reads_as(form, input),
    ensures
        spec_deserialize(input) == Ok::<ExtComplex, DecodeError>(z),
{
    match z {
        ExtComplex::Inf => {},
        ExtComplex::Val(c) => {
            crate::binary64::lemma_classes_partition(c.re);
            crate::binary64::lemma_classes_partition(c.im);
        },
    }
}

/// Whatever is read is in canonical form, unless it is a pair with a NaN
/// part.
pub proof fn lemma_read_point_is_canonical(input: WireInput)
    requires
        !(input matches WireInput::Pair(c) && c.spec_is_nan()),
    ensures
        spec_deserialize(input) matches Ok(z) ==> z.is_canonical(),
{
    match input {
        WireInput::Pair(c) => {
            crate::binary64::lemma_classes_partition(c.re);
            crate::binary64::lemma_classes_partition(c.im);
        },
        _ => {},
    }
}

} // verus!
