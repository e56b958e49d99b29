//! Points written as JSON and read back, through the decisions of the
//! library.

use mobius::api::Error;
use mobius::binary64::Binary64;
use mobius::model::Complex;
use mobius::model::ExtComplex;
use mobius::text::contains_bytes;
use mobius::text::contains_text;
use mobius::text::same_bytes;
use mobius::text::same_text;
use mobius::wire::expecting;
use mobius::wire::marker;
use mobius::wire::DecodeError;
use mobius::wire::EncodeError;
use mobius::wire::WireForm;
use mobius::wire::WireInput;
use serde::de::Error as DeError;
use serde::ser::Error as SerError;

fn pack(x: f64) -> Binary64 {
    Binary64::from_bits(x.to_bits())
}

fn unpack(x: Binary64) -> f64 {
    f64::from_bits(x.to_bits())
}

fn point(re: f64, im: f64) -> ExtComplex {
    ExtComplex::new(pack(re), pack(im))
}

/// A point as a serializer and a deserializer see it.
#[derive(Debug, PartialEq)]
struct Point(ExtComplex);

impl serde::Serialize for Point {
    fn serialize<S>(&self, serializer: S) -> Result<S::Ok, S::Error>
    where
        S: serde::Serializer,
    {
        match self.0.serialize() {
            Ok(WireForm::Marker) => serializer.serialize_str(marker()),
            Ok(WireForm::Pair(c)) => {
                serde::Serialize::serialize(&(unpack(c.re), unpack(c.im)), serializer)
            }
            Err(e) => Err(S::Error::custom(e.message())),
        }
    }
}

struct PointVisitor;

impl<'de> serde::de::Visitor<'de> for PointVisitor {
    type Value = Point;

    fn expecting(&self, formatter: &mut std::fmt::Formatter) -> std::fmt::Result {
        formatter.write_str(expecting())
    }

    fn visit_str<E>(self, v: &str) -> Result<Self::Value, E>
    where
        E: serde::de::Error,
    {
        match ExtComplex::deserialize(WireInput::Text(v)) {
            Ok(z) => Ok(Point(z)),
            Err(_) => Err(E::invalid_value(serde::de::Unexpected::Str(v), &self)),
        }
    }

    fn visit_seq<A>(self, seq: A) -> Result<Self::Value, A::Error>
    where
        A: serde::de::SeqAccess<'de>,
    {
        let pair: Result<(f64, f64), A::Error> =
            serde::Deserialize::deserialize(serde::de::value::SeqAccessDeserializer::new(seq));
        match pair {
            Ok((re, im)) => match ExtComplex::deserialize(WireInput::Pair(Complex::new(pack(re), pack(im)))) {
                Ok(z) => Ok(Point(z)),
                Err(_) => Err(A::Error::custom("no point")),
            },
            Err(err) => match ExtComplex::deserialize(WireInput::Failure(&err.to_string())) {
                Ok(z) => Ok(Point(z)),
                Err(_) => Err(err),
            },
        }
    }
}

impl<'de> serde::Deserialize<'de> for Point {
    fn deserialize<D>(deserializer: D) -> Result<Self, D::Error>
    where
        D: serde::Deserializer<'de>,
    {
        deserializer.deserialize_any(PointVisitor)
    }
}

#[test]
fn serialize_error_nexist() {
    let err = Error::DoesNotExist;
    let mut object = serde_json::Map::new();
    object.insert("kind".to_string(), serde_json::Value::String(err.kind().to_string()));
    let json = serde_json::to_string(&serde_json::Value::Object(object))
        .expect("serialization should succeed");

    assert_eq!(json, "{\"kind\":\"DoesNotExist\"}");
}

#[test]
fn serialize_extcomplex_inf_variant() {
    let c = Point(ExtComplex::Inf);
    let json = serde_json::to_string(&c).expect("serialization should succeed");

    assert_eq!(json, "\"inf\"");
}

#[test]
fn serialize_extcomplex_inf_value() {
    let c = Point(point(0.0, f64::INFINITY));
    let json = serde_json::to_string(&c).expect("serialization should succeed");

    assert_eq!(json, "\"inf\"");
}

#[test]
fn serialize_extcomplex_finite_value() {
    let c = Point(point(1.0, 2.0));
    let json = serde_json::to_string(&c).expect("serialization should succeed");

    assert_eq!(json, "[1.0,2.0]");
}

#[test]
fn serialize_extcomplex_nan_failure() {
    let c = Point(point(f64::NAN, 0.0));
    let err = serde_json::to_string(&c).expect_err("serialization should fail");

    assert!(err.to_string().contains("value contains nan"));
}

#[test]
fn deserialize_extcomplex_inf_variant() {
    let c = serde_json::from_str::<Point>("\"inf\"").expect("deserialization should succeed");

    assert_eq!(c.0, ExtComplex::Inf);
}

#[test]
fn deserialize_extcomplex_inf_value() {
    let c = serde_json::from_str::<Point>("[1, 1e1000]").expect("deserialization should succeed");

    assert_eq!(c.0, ExtComplex::Inf);
}

#[test]
fn deserialize_extcomplex_finite_value() {
    let c = serde_json::from_str::<Point>("[1, 2.0]").expect("deserialization should succeed");
    let expected = point(1.0, 2.0);

    assert_eq!(c.0, expected);
}

#[test]
fn deserialize_extcomplex_invalid_value_failure() {
    let err = serde_json::from_str::<Point>("{}").expect_err("deserialization should fail");

    assert!(err
        .to_string()
        .contains("the string \"inf\" or a tuple of 2 numbers"));
}

#[test]
fn deserialize_extcomplex_nan_failure() {
    let err = serde_json::from_str::<Point>("[null, null]").expect_err("deserialization should fail");

    assert!(err.is_data());
}

#[test]
fn deserialize_extcomplex_other_text_failure() {
    let err = serde_json::from_str::<Point>("\"infinity\"").expect_err("deserialization should fail");

    assert!(err
        .to_string()
        .contains("the string \"inf\" or a tuple of 2 numbers"));
}

#[test]
fn serialize_decides_between_marker_pair_and_refusal() {
    let nan = f64::NAN;
    let inf = f64::INFINITY;
    assert_eq!(ExtComplex::serialize(&ExtComplex::Inf), Ok(WireForm::Marker));
    assert_eq!(ExtComplex::serialize(&point(inf, 1.0)), Ok(WireForm::Marker));
    assert_eq!(ExtComplex::serialize(&point(1.0, -inf)), Ok(WireForm::Marker));
    assert_eq!(ExtComplex::serialize(&point(inf, inf)), Ok(WireForm::Marker));
    assert_eq!(ExtComplex::serialize(&point(nan, 1.0)), Err(EncodeError::ContainsNan));
    assert_eq!(ExtComplex::serialize(&point(1.0, nan)), Err(EncodeError::ContainsNan));
    assert_eq!(ExtComplex::serialize(&point(nan, inf)), Err(EncodeError::ContainsNan));
    assert_eq!(ExtComplex::serialize(&point(inf, nan)), Err(EncodeError::ContainsNan));
    assert_eq!(
        ExtComplex::serialize(&point(1.5, -2.0)),
        Ok(WireForm::Pair(Complex::new(pack(1.5), pack(-2.0))))
    );
    assert_eq!(EncodeError::ContainsNan.message(), "value contains nan");
    assert_eq!(marker(), "inf");
}

#[test]
fn deserialize_decides_for_each_input() {
    assert_eq!(ExtComplex::deserialize(WireInput::Text("inf")), Ok(ExtComplex::Inf));
    assert_eq!(ExtComplex::deserialize(WireInput::Text("Inf")), Err(DecodeError::UnknownText));
    assert_eq!(ExtComplex::deserialize(WireInput::Text("")), Err(DecodeError::UnknownText));
    assert_eq!(ExtComplex::deserialize(WireInput::Text("inf ")), Err(DecodeError::UnknownText));
    let c = Complex::new(pack(1.0), pack(2.0));
    assert_eq!(ExtComplex::deserialize(WireInput::Pair(c)), Ok(ExtComplex::Val(c)));
    let far = Complex::new(pack(f64::INFINITY), pack(2.0));
    assert_eq!(ExtComplex::deserialize(WireInput::Pair(far)), Ok(ExtComplex::Inf));
    assert_eq!(
        ExtComplex::deserialize(WireInput::Failure("number out of range at line 1 column 11")),
        Ok(ExtComplex::Inf)
    );
    assert_eq!(
        ExtComplex::deserialize(WireInput::Failure("invalid type: null, expected f64")),
        Err(DecodeError::BadPair)
    );
    assert_eq!(ExtComplex::deserialize(WireInput::Failure("")), Err(DecodeError::BadPair));
    assert_eq!(ExtComplex::deserialize(WireInput::Other), Err(DecodeError::WrongShape));
}

#[test]
fn written_points_read_back() {
    for z in [ExtComplex::Inf, point(0.0, 0.0), point(-1.25, 3e200), point(5e-324, -0.0)] {
        let json = serde_json::to_string(&Point(z)).expect("serialization should succeed");
        let back = serde_json::from_str::<Point>(&json).expect("deserialization should succeed");
        assert_eq!(back.0, z);
    }
}

#[test]
fn texts_are_compared_and_searched() {
    assert!(same_text("inf", "inf"));
    assert!(!same_text("inf", "in"));
    assert!(!same_text("inf", "ing"));
    assert!(same_text("", ""));
    assert!(same_bytes(b"abc", b"abc"));
    assert!(!same_bytes(b"abc", b"abd"));
    assert!(contains_text("a number out of range here", "number out of range"));
    assert!(contains_text("number out of range", "number out of range"));
    assert!(!contains_text("number out of rang", "number out of range"));
    assert!(!contains_text("", "number out of range"));
    assert!(contains_text("anything", ""));
    assert!(contains_text("", ""));
    assert!(contains_bytes(b"xxabxxabc", b"abc"));
    assert!(!contains_bytes(b"xxabxxab", b"abc"));
    assert!(contains_bytes(b"abc", b"c"));
    assert!(contains_bytes(b"abc", b"a"));
}
