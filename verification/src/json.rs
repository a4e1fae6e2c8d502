//! Reading the fields of a JSON command text. The parsing itself is done by
//! `serde_json`; each reader parses the text and looks up one field.
use vstd::prelude::*;

verus! {

/// The message `serde_json` gives when `text` is not one JSON value, or
/// nothing when it is.
pub uninterp spec fn json_error_text(text: Seq<char>) -> Option<Seq<char>>;

/// The string held by the field `key` of the JSON object in `text`, when
/// `text` parses, is an object, has that field and the field is a string.
pub uninterp spec fn json_str_at(text: Seq<char>, key: Seq<char>) -> Option<Seq<char>>;

/// The integer held by the field `key` of the JSON object in `text`, when
/// there is one that fits an `i64`.
pub uninterp spec fn json_i64_at(text: Seq<char>, key: Seq<char>) -> Option<i64>;

/// The integer held by the field `key` of the JSON object in `text`, when
/// there is one that fits a `u64`.
pub uninterp spec fn json_u64_at(text: Seq<char>, key: Seq<char>) -> Option<u64>;

/// The compact JSON text of the field `key` of the object in `text` (`null`
/// where there is no such field).
pub uninterp spec fn json_text_at(text: Seq<char>, key: Seq<char>) -> Seq<char>;

/// Parses `text` with `serde_json::from_str` into a `serde_json::Value` and
/// gives the parser's error message, through `to_string`, when it fails.
/// Claimed: the message is a function of the text alone.
#[verifier::external_body]
pub(crate) fn json_error(text: &str) -> (r: Option<String>)
    ensures
        (match r {
            Some(m) => json_error_text(text@) == Some(m@),
            None => json_error_text(text@) is None,
        }),
{
    match serde_json::from_str::<serde_json::Value>(text) {
        Ok(_) => None,
        Err(e) => Some(e.to_string()),
    }
}

/// Parses `text` with `serde_json::from_str` and reads `value[key].as_str()`
/// (nothing when the text does not parse). Claimed: a function of the text
/// and the key alone.
#[verifier::external_body]
pub(crate) fn json_str_field(text: &str, key: &str) -> (r: Option<String>)
    ensures
        (match r {
            Some(s) => json_str_at(text@, key@) == Some(s@),
            None => json_str_at(text@, key@) is None,
        }),
{
    match serde_json::from_str::<serde_json::Value>(text) {
        Ok(v) => v[key].as_str().map(|s| s.to_string()),
        Err(_) => None,
    }
}

/// Parses `text` with `serde_json::from_str` and reads `value[key].as_i64()`
/// (nothing when the text does not parse). Claimed: a function of the text
/// and the key alone.
#[verifier::external_body]
pub(crate) fn json_i64_field(text: &str, key: &str) -> (r: Option<i64>)
    ensures
        r == json_i64_at(text@, key@),
{
    match serde_json::from_str::<serde_json::Value>(text) {
        Ok(v) => v[key].as_i64(),
        Err(_) => None,
    }
}

/// Parses `text` with `serde_json::from_str` and reads `value[key].as_u64()`
/// (nothing when the text does not parse). Claimed: a function of the text
/// and the key alone.
#[verifier::external_body]
pub(crate) fn json_u64_field(text: &str, key: &str) -> (r: Option<u64>)
    ensures
        r == json_u64_at(text@, key@),
{
    match serde_json::from_str::<serde_json::Value>(text) {
        Ok(v) => v[key].as_u64(),
        Err(_) => None,
    }
}

/// Parses `text` with `serde_json::from_str` and writes `value[key]` back
/// out with `to_string` (the text `null` when the text does not parse).
/// Claimed: a function of the text and the key alone.
#[verifier::external_body]
pub(crate) fn json_field_text(text: &str, key: &str) -> (r: String)
    ensures
        r@ == json_text_at(text@, key@),
{
    match serde_json::from_str::<serde_json::Value>(text) {
        Ok(v) => v[key].to_string(),
        Err(_) => serde_json::Value::Null.to_string(),
    }
}

} // verus!
