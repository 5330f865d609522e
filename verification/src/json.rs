//! Model of the JSON documents that travel through the pipeline.
//!
//! Every ingress line and every opaque payload is a `serde_json::Value`.
//! The verified code never looks inside such a value directly; instead each
//! value carries a mathematical model (`Json`), and every call into
//! serde_json is a trusted wrapper whose contract is stated over that model.

use vstd::prelude::*;

verus! {

/// Declares serde_json's value type so it can stand in signatures and fields.
#[verifier::external_type_specification]
#[verifier::external_body]
pub struct ExValue(serde_json::Value);

/// Mathematical model of one JSON document.
///
/// A number is modelled by its serialized text, which pins the number down
/// exactly, together with the result of reading it as a `u64` (`None` for
/// negative or fractional numbers). Object keys are unordered; serde_json's
/// default map is ordered by key, so serialization is still a function of
/// this model.
pub enum Json {
    Null,
    Bool(bool),
    Num { text: Seq<char>, uint: Option<u64> },
    Str(Seq<char>),
    Arr(Seq<Json>),
    Obj(Map<Seq<char>, Json>),
}

/// The decimal text of an integer, as serde_json serializes a `u64`:
/// no sign, no leading zeroes.
pub open spec fn spec_u64_digits(n: u64) -> Seq<char>
    decreases n,
{
    if n < 10 {
        seq![((48 + n) as u8) as char]
    } else {
        spec_u64_digits((n / 10) as u64) + seq![((48 + n % 10) as u8) as char]
    }
}

/// The model of a given `serde_json::Value`.
pub uninterp spec fn json_model(v: serde_json::Value) -> Json;

/// What parsing a text as JSON yields: `None` exactly on malformed input.
pub uninterp spec fn json_src(s: Seq<char>) -> Option<Json>;

/// The compact serialization of a document (object keys in sorted order).
pub uninterp spec fn json_text(j: Json) -> Seq<char>;

/// Indexing an object by key: the member if present, `Null` for a missing
/// key or a non-object, as serde_json's `Index` does.
pub open spec fn spec_index(j: Json, key: Seq<char>) -> Json {
    match j {
        Json::Obj(m) => if m.dom().contains(key) {
            m[key]
        } else {
            Json::Null
        },
        _ => Json::Null,
    }
}

pub open spec fn spec_as_str(j: Json) -> Option<Seq<char>> {
    match j {
        Json::Str(s) => Some(s),
        _ => None,
    }
}

pub open spec fn spec_as_u64(j: Json) -> Option<u64> {
    match j {
        Json::Num { text, uint } => uint,
        _ => None,
    }
}

pub open spec fn spec_is_null(j: Json) -> bool {
    j is Null
}

pub open spec fn spec_is_object(j: Json) -> bool {
    j is Obj
}

pub open spec fn spec_is_string(j: Json) -> bool {
    j is Str
}

/// Relies on serde_json::from_str::<Value>: parses a text as one JSON
/// document. The outcome depends on the text alone; `json_src` names it,
/// with `None` for every text the parser rejects.
#[verifier::external_body]
pub fn parse_json(s: &str) -> (r: Option<serde_json::Value>)
    ensures
        match r {
            Some(v) => json_src(s@) == Some(json_model(v)),
            None => json_src(s@) is None,
        },
{
    serde_json::from_str::<serde_json::Value>(s).ok()
}

/// Relies on serde_json's `Index<&str>` for `Value`: yields the member for a
/// key of an object, and `Null` for a missing key or a non-object.
#[verifier::external_body]
pub fn index_str<'a>(v: &'a serde_json::Value, key: &str) -> (r: &'a serde_json::Value)
    ensures
        json_model(*r) == spec_index(json_model(*v), key@),
{
    &v[key]
}

/// Relies on serde_json::Value::as_str: the string contents iff the value is
/// a JSON string.
#[verifier::external_body]
pub fn as_str_opt<'a>(v: &'a serde_json::Value) -> (r: Option<&'a str>)
    ensures
        match r {
            Some(s) => spec_as_str(json_model(*v)) == Some(s@),
            None => spec_as_str(json_model(*v)) is None,
        },
{
    v.as_str()
}

/// Relies on serde_json::Value::as_u64: `Some` iff the value is a number
/// that is a non-negative integer fitting in a `u64`.
#[verifier::external_body]
pub fn as_u64_opt(v: &serde_json::Value) -> (r: Option<u64>)
    ensures
        r == spec_as_u64(json_model(*v)),
{
    v.as_u64()
}

/// Relies on serde_json::Value::is_null.
#[verifier::external_body]
pub fn is_null_value(v: &serde_json::Value) -> (r: bool)
    ensures
        r == spec_is_null(json_model(*v)),
{
    v.is_null()
}

/// Relies on serde_json::Value::is_object.
#[verifier::external_body]
pub fn is_object_value(v: &serde_json::Value) -> (r: bool)
    ensures
        r == spec_is_object(json_model(*v)),
{
    v.is_object()
}

/// Relies on serde_json::Value::is_string.
#[verifier::external_body]
pub fn is_string_value(v: &serde_json::Value) -> (r: bool)
    ensures
        r == spec_is_string(json_model(*v)),
{
    v.is_string()
}

/// Relies on serde_json::Value's `Clone`: the copy has the same model.
#[verifier::external_body]
pub fn clone_value(v: &serde_json::Value) -> (r: serde_json::Value)
    ensures
        json_model(r) == json_model(*v),
{
    v.clone()
}

/// Relies on serde_json::to_string: the compact serialization. Serializing
/// a `Value` cannot fail (its maps have string keys), so the error branch is
/// unreachable.
#[verifier::external_body]
pub fn dump_value(v: &serde_json::Value) -> (r: String)
    ensures
        r@ == json_text(json_model(*v)),
{
    serde_json::to_string(v).unwrap_or_else(|_| std::string::String::new())
}

/// Relies on serde_json::Map::new: a value holding an empty object.
#[verifier::external_body]
pub fn empty_object() -> (r: serde_json::Value)
    ensures
        json_model(r) == Json::Obj(Map::<Seq<char>, Json>::empty()),
{
    serde_json::Value::Object(serde_json::Map::new())
}

/// Relies on serde_json::Map::insert: adds or replaces one member of an
/// object; a non-object is left unchanged.
#[verifier::external_body]
pub fn object_insert(v: &mut serde_json::Value, key: &str, item: serde_json::Value)
    ensures
        json_model(*final(v)) == match json_model(*old(v)) {
            Json::Obj(m) => Json::Obj(m.insert(key@, json_model(item))),
            other => other,
        },
{
    if let serde_json::Value::Object(m) = v {
        m.insert(key.to_owned(), item);
    }
}

/// Relies on serde_json::Value::String: a value holding the given text.
#[verifier::external_body]
pub fn string_value(s: &str) -> (r: serde_json::Value)
    ensures
        json_model(r) == Json::Str(s@),
{
    serde_json::Value::String(s.to_owned())
}

/// Relies on serde_json's `From<u64>` for `Value`: a number value that
/// reads back as the given integer and serializes as its plain decimal
/// text.
#[verifier::external_body]
pub fn u64_value(n: u64) -> (r: serde_json::Value)
    ensures
        json_model(r) == (Json::Num { text: spec_u64_digits(n), uint: Some(n) }),
{
    serde_json::Value::from(n)
}

/// Relies on serde_json::Value::Null.
#[verifier::external_body]
pub fn null_value() -> (r: serde_json::Value)
    ensures
        json_model(r) == Json::Null,
{
    serde_json::Value::Null
}

} // verus!
