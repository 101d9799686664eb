//! Structured payloads. Module and model rows carry a body that is parsed as
//! structured (JSON) data; when parsing fails the decoder falls back to a
//! structured string value holding the raw body, so a malformed payload never
//! halts the stream. The value representation and the parser are outside
//! collaborators; only the parse-or-fallback decision is this crate's logic.

use vstd::prelude::*;

verus! {

/// Relies on `serde_json::Value` as the structured-value representation.
/// Declared so values of it can run through chunks; they stay opaque here.
#[verifier::external_type_specification]
#[verifier::external_body]
pub struct ExValue(serde_json::Value);

/// Relies on the `Clone` derive of `serde_json::Value`: a clone is a copy of
/// the same structured value.
pub assume_specification[ <serde_json::Value as Clone>::clone ](v: &serde_json::Value) -> (r:
    serde_json::Value)
    ensures
        r == *v,
;

/// What `serde_json::from_str::<Value>` returns on a text: `Some` of the
/// parsed value when the text is well-formed JSON, `None` otherwise. The
/// result depends on the text alone.
pub uninterp spec fn json_of(s: Seq<char>) -> Option<serde_json::Value>;

/// What `serde_json::Value::String` built over a text holds. The result
/// depends on the text alone.
pub uninterp spec fn json_string_of(s: Seq<char>) -> serde_json::Value;

/// The structured value a module or model row decodes to: the parsed body, or
/// the string fallback over the raw body when it is not well-formed JSON.
pub open spec fn structured_value_of(s: Seq<char>) -> serde_json::Value {
    match json_of(s) {
        Some(v) => v,
        None => json_string_of(s),
    }
}

/// Relies on `serde_json::from_str::<serde_json::Value>`: a pure parse of the
/// text, succeeding exactly on well-formed JSON.
#[verifier::external_body]
fn json_from_str(s: &str) -> (r: Option<serde_json::Value>)
    ensures
        r == json_of(s@),
{
    serde_json::from_str::<serde_json::Value>(s).ok()
}

/// Relies on `serde_json::Value::String`: wraps the text as a structured
/// string value.
#[verifier::external_body]
fn json_string_value(s: &str) -> (r: serde_json::Value)
    ensures
        r == json_string_of(s@),
{
    serde_json::Value::String(s.to_string())
}

/// Parses a row body as structured data, falling back to a structured string
/// value equal to the raw body when the parse fails. Never errs: a malformed
/// payload degrades to its string form.
pub fn parse_structured(s: &str) -> (r: serde_json::Value)
    ensures
        r == structured_value_of(s@),
{
    match json_from_str(s) {
        Some(v) => v,
        None => json_string_value(s),
    }
}

} // verus!
