use vstd::prelude::*;
use vstd::utf8::{decode_utf8, valid_utf8};
use crate::div_trunc;

verus! {

/// Why a context payload yielded no playtime value.
#[derive(Clone, Copy, PartialEq, Eq, Structural, Debug)]
pub enum DecodeError {
    /// The payload is not valid UTF-8 text.
    InvalidUtf8,
    /// The text is not a well-formed structured document.
    InvalidDocument,
    /// The document has no field of the requested name.
    MissingField,
    /// The field is not a whole number that an `i64` can hold.
    NotAnInteger,
}

/// The integer field named `key` of the structured document `doc`, as
/// serde_json resolves it: `Err(InvalidDocument)` when `doc` is not
/// well-formed JSON, `Err(MissingField)` when the document exposes no such
/// field, `Err(NotAnInteger)` when the field is not an integer an `i64` can
/// hold, and the field's value otherwise. Determined by `doc` and `key`
/// alone; `Err(InvalidUtf8)` never occurs here.
pub uninterp spec fn json_i64_field_of(doc: Seq<char>, key: Seq<char>) -> Result<i64, DecodeError>;

/// Relies on serde_json::from_str::<Value>, Value::get and Value::as_i64:
/// parsing and field lookup are determined by the text and the key alone.
#[verifier::external_body]
fn json_i64_field(doc: &str, key: &str) -> (r: Result<i64, DecodeError>)
    ensures
        r == json_i64_field_of(doc@, key@),
{
    match serde_json::from_str::<serde_json::Value>(doc) {
        Err(_) => Err(DecodeError::InvalidDocument),
        Ok(v) => match v.get(key) {
            None => Err(DecodeError::MissingField),
            Some(field) => match field.as_i64() {
                None => Err(DecodeError::NotAnInteger),
                Some(n) => Ok(n),
            },
        },
    }
}

/// Relies on String::from_utf8: returns the decoded text exactly when the
/// bytes are valid UTF-8, and nothing otherwise.
#[verifier::external_body]
fn utf8_to_string(bytes: &Vec<u8>) -> (r: Option<String>)
    ensures
        (r is Some) == valid_utf8(bytes@),
        r matches Some(s) ==> s@ == decode_utf8(bytes@),
{
    match String::from_utf8(bytes.clone()) {
        Ok(s) => Some(s),
        Err(_) => None,
    }
}

/// What extracting the playtime field from a context payload yields: the
/// payload must decode as UTF-8 text and parse as a structured document
/// exposing an integer field named `playtime`.
pub open spec fn spec_playtime(context: Seq<u8>) -> Result<i64, DecodeError> {
    if valid_utf8(context) {
        json_i64_field_of(decode_utf8(context), "playtime"@)
    } else {
        Err(DecodeError::InvalidUtf8)
    }
}

/// Decode an event's context payload and extract the elapsed play time in
/// milliseconds. Failure is recoverable: the caller falls back to the
/// history intervals.
pub fn parse_playtime_from_context(context: &Vec<u8>) -> (r: Result<i64, DecodeError>)
    ensures
        r == spec_playtime(context@),
{
    match utf8_to_string(context) {
        None => Err(DecodeError::InvalidUtf8),
        Some(s) => json_i64_field(s.as_str(), "playtime"),
    }
}

/// A playtime in milliseconds, converted to whole minutes, truncated toward
/// zero.
pub fn playtime_ms_to_minutes(ms: i64) -> (r: i64)
    ensures
        r as int == div_trunc(ms as int, 60000),
{
    let q: i128 = crate::div_trunc_i128(ms as i128, 60000);
    proof {
        if ms >= 0 {
            vstd::arithmetic::div_mod::lemma_div_nonincreasing(ms as int, 60000);
            vstd::arithmetic::div_mod::lemma_div_pos_is_pos(ms as int, 60000);
        } else {
            vstd::arithmetic::div_mod::lemma_div_nonincreasing(-(ms as int), 60000);
            vstd::arithmetic::div_mod::lemma_div_pos_is_pos(-(ms as int), 60000);
        }
    }
    q as i64
}

} // verus!
