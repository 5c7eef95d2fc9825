//! The JSON pass-through: parsing a response body, re-serializing it for the
//! output artifact, and reading the one member used for diagnostics.
//!
//! The body is never validated against a schema; it is carried as an opaque
//! `serde_json::Value`. The library's contracts speak of that value through
//! three names: what the parser returns for a text, what a value serializes
//! to, and what an object holds under a key.

use vstd::prelude::*;

verus! {

#[verifier::external_type_specification]
#[verifier::external_body]
pub struct ExValue(serde_json::Value);

#[verifier::external_type_specification]
#[verifier::external_body]
pub struct ExError(serde_json::Error);

/// What `serde_json::from_str::<Value>` returns for a text: `Some(v)` when
/// the parser accepts the text as a JSON document reading `v`, `None` when
/// it rejects it. The result depends on the text alone.
pub uninterp spec fn json_value(s: Seq<char>) -> Option<serde_json::Value>;

/// What `serde_json::to_string` returns for a value: its serialization as
/// JSON text, a function of the value alone.
pub uninterp spec fn json_text(v: serde_json::Value) -> Seq<char>;

/// What `serde_json::Value::get` returns for a value and a string key: the
/// member of a JSON object under that key, `None` for a missing member or
/// for a value that is not an object.
pub uninterp spec fn json_member(v: serde_json::Value, key: Seq<char>) -> Option<
    serde_json::Value,
>;

/// Relies on `serde_json::from_str::<Value>`: it returns `Ok` exactly on the
/// texts it accepts as JSON, and the value it returns is a function of the
/// text alone. A value the parser produced lies within the parser's own
/// nesting bound, so serializing it gives a text the parser accepts again,
/// and reading that text back yields an equal value. For numbers this needs
/// serde_json's `float_roundtrip` feature, which the crate is built with:
/// only the correctly rounded float parser it enables re-reads the shortest
/// serialization of a float to the identical float; the default parser can
/// come back one ulp off.
#[verifier::external_body]
pub(crate) fn parse_json(s: &str) -> (r: Result<serde_json::Value, serde_json::Error>)
    ensures
        r is Ok <==> json_value(s@) is Some,
        r is Ok ==> r->Ok_0 == json_value(s@)->Some_0,
        r is Ok ==> json_value(json_text(json_value(s@)->Some_0)) == Some(
            json_value(s@)->Some_0,
        ),
{
    serde_json::from_str::<serde_json::Value>(s)
}

/// Relies on `serde_json::to_string`: on a `Value` it cannot fail, since every
/// key of a JSON object is a string, and its result is a function of the value
/// alone.
#[verifier::external_body]
pub(crate) fn serialize_json(v: &serde_json::Value) -> (r: String)
    ensures
        r@ == json_text(*v),
{
    serde_json::to_string(v).expect("a JSON value serializes")
}

/// Relies on `serde_json::Value::get` with a string key: it returns the member
/// of a JSON object under that key, and `None` when the key is absent or the
/// value is not an object.
#[verifier::external_body]
pub(crate) fn json_get<'a>(v: &'a serde_json::Value, key: &str) -> (r: Option<
    &'a serde_json::Value,
>)
    ensures
        r is Some <==> json_member(*v, key@) is Some,
        r is Some ==> *r->Some_0 == json_member(*v, key@)->Some_0,
{
    v.get(key)
}

} // verus!
