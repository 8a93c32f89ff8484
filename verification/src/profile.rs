//! The typed payment profile record and its JSON codec.
//!
//! The typed variant of the store keeps a fixed set of named string
//! fields. Encoding and decoding go through `serde_json`, so the on-disk
//! form is the same canonical pretty-printed JSON as the opaque variant's.

use vstd::prelude::*;
use crate::json::{json_normal_form, json_valid};

verus! {

/// The single payment profile record the store persists: a fixed set of
/// named string fields. A decode fails if a required field is absent or
/// is not a string.
#[derive(Debug)]
pub struct Profile {
    pub card_number: String,
    pub card_expiration: String,
    pub zip_code: String,
    pub license: String,
}

/// What `serde_json` makes of a profile: the pretty-printed JSON object
/// holding the four fields, under the keys `cardNumber`, `cardExpiration`,
/// `zipCode` and `license`. The encoding depends on the field characters
/// alone.
pub uninterp spec fn profile_json(
    card_number: Seq<char>,
    card_expiration: Seq<char>,
    zip_code: Seq<char>,
    license: Seq<char>,
) -> Seq<char>;

/// What decoding a text as a profile yields: `None` when the text is not
/// valid JSON carrying the four required string fields, and otherwise the
/// characters of the four fields, in declaration order.
pub uninterp spec fn profile_fields(s: Seq<char>) -> Option<
    (Seq<char>, Seq<char>, Seq<char>, Seq<char>),
>;

/// Relies on `serde_json::Map::insert`, `serde_json::Value` and
/// `serde_json::to_string_pretty`: serializing a `Value` object with
/// string keys cannot fail and returns a deterministic pretty-printed
/// encoding. That encoding parses back to an equal value, so it is its
/// own normal form, and decoding it recovers exactly the four fields
/// that were inserted.
#[verifier::external_body]
pub(crate) fn encode_profile(profile: &Profile) -> (r: String)
    ensures
        r@ == profile_json(
            profile.card_number@,
            profile.card_expiration@,
            profile.zip_code@,
            profile.license@,
        ),
        json_normal_form(r@) == Some(r@),
        profile_fields(r@) == Some(
            (
                profile.card_number@,
                profile.card_expiration@,
                profile.zip_code@,
                profile.license@,
            ),
        ),
{
    let mut fields = serde_json::Map::new();
    fields.insert("cardNumber".to_owned(), serde_json::Value::String(profile.card_number.clone()));
    fields.insert(
        "cardExpiration".to_owned(),
        serde_json::Value::String(profile.card_expiration.clone()),
    );
    fields.insert("zipCode".to_owned(), serde_json::Value::String(profile.zip_code.clone()));
    fields.insert("license".to_owned(), serde_json::Value::String(profile.license.clone()));
    serde_json::to_string_pretty(&serde_json::Value::Object(fields))
        .expect("serializing a JSON object with string keys cannot fail")
}

/// Relies on `serde_json::from_str::<serde_json::Value>`,
/// `serde_json::Value::get` and `serde_json::Value::as_str`: parsing
/// succeeds exactly on valid JSON, `get` finds a key of an object, and
/// `as_str` accepts exactly the string values, so the decode succeeds
/// exactly when the text is valid JSON carrying the four required string
/// fields, and then yields their characters.
#[verifier::external_body]
pub(crate) fn decode_profile(s: &str) -> (r: Option<Profile>)
    ensures
        r is Some <==> profile_fields(s@) is Some,
        r matches Some(p) ==> profile_fields(s@) == Some(
            (p.card_number@, p.card_expiration@, p.zip_code@, p.license@),
        ),
        r is Some ==> json_valid(s@),
{
    let value: serde_json::Value = match serde_json::from_str(s) {
        Ok(v) => v,
        Err(_) => return None,
    };
    Some(Profile {
        card_number: value.get("cardNumber")?.as_str()?.to_owned(),
        card_expiration: value.get("cardExpiration")?.as_str()?.to_owned(),
        zip_code: value.get("zipCode")?.as_str()?.to_owned(),
        license: value.get("license")?.as_str()?.to_owned(),
    })
}

} // verus!
