//! The JSON layer: validation and canonical re-encoding of a text,
//! through `serde_json`.
//!
//! The store never writes caller-supplied bytes verbatim: every save
//! re-serializes the parsed structure to pretty-printed JSON, so the
//! stored bytes are a canonical re-encoding of the record. The functions
//! here name that re-encoding and perform it.

use vstd::prelude::*;

verus! {

/// What `serde_json` makes of a text: `None` when the text is not valid
/// JSON, and otherwise the pretty-printed re-serialization of the value
/// it parses to. Parsing and serialization depend on the characters of
/// the text alone.
pub uninterp spec fn json_normal_form(s: Seq<char>) -> Option<Seq<char>>;

/// A text is valid JSON exactly when it has a normal form.
pub open spec fn json_valid(s: Seq<char>) -> bool {
    json_normal_form(s) is Some
}

/// The canonical pretty-printed re-encoding of a valid JSON text.
pub open spec fn json_canon(s: Seq<char>) -> Seq<char>
    recommends
        json_valid(s),
{
    json_normal_form(s)->Some_0
}

/// Two texts are structurally equal JSON when both are valid and their
/// canonical re-encodings coincide.
pub open spec fn json_struct_eq(a: Seq<char>, b: Seq<char>) -> bool {
    &&& json_valid(a)
    &&& json_valid(b)
    &&& json_canon(a) == json_canon(b)
}

/// Relies on `serde_json::from_str::<serde_json::Value>` and
/// `serde_json::to_string_pretty`: `from_str` succeeds exactly on
/// syntactically valid JSON, and `to_string_pretty` on a `Value` (whose
/// maps have string keys) cannot fail and returns a deterministic
/// pretty-printed encoding of the value. That encoding parses back to an
/// equal value — for numbers this needs the correctly-rounded parser of
/// serde_json's `float_roundtrip` feature, which this crate enables, so
/// that the shortest printed form of a double reads back as the same
/// double — and therefore re-normalizing a normal form returns it
/// unchanged. On failure the result carries `serde_json`'s own message.
#[verifier::external_body]
pub(crate) fn normalize_json(s: &str) -> (r: Result<String, String>)
    ensures
        r is Ok <==> json_valid(s@),
        r matches Ok(t) ==> t@ == json_canon(s@),
        r is Ok ==> json_normal_form(json_canon(s@)) == Some(json_canon(s@)),
{
    match serde_json::from_str::<serde_json::Value>(s) {
        Ok(value) => match serde_json::to_string_pretty(&value) {
            Ok(text) => Ok(text),
            Err(error) => Err(format!("{error}")),
        },
        Err(error) => Err(format!("{error}")),
    }
}

/// Relies on `serde_json::from_str::<serde_json::Value>`: it succeeds
/// exactly on syntactically valid JSON. On failure the result carries
/// `serde_json`'s own message.
#[verifier::external_body]
pub(crate) fn check_json(s: &str) -> (r: Result<(), String>)
    ensures
        r is Ok <==> json_valid(s@),
{
    match serde_json::from_str::<serde_json::Value>(s) {
        Ok(_) => Ok(()),
        Err(error) => Err(format!("{error}")),
    }
}

} // verus!
