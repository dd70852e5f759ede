//! Single values out of a JSON document.
use crate::config::optional_text;
use vstd::prelude::*;

verus! {

/// The error of the JSON parser.
#[verifier::external_type_specification]
#[verifier::external_body]
pub struct ExJsonError(serde_json::Error);

/// The text that a JSON document holds at a pointer: `Some(Some(text))` where the value there is a
/// string, `Some(None)` where there is no value or another kind of value, and `None` where the
/// parser does not take the bytes for a JSON document.
pub uninterp spec fn json_text(body: Seq<u8>, pointer: Seq<char>) -> Option<Option<Seq<char>>>;

/// The truth value that a JSON document holds at a pointer, as [`json_text`] for texts.
pub uninterp spec fn json_bool(body: Seq<u8>, pointer: Seq<char>) -> Option<Option<bool>>;

/// `serde_json::from_slice` to a `serde_json::Value`, then `Value::pointer` and `Value::as_str`.
/// The result depends on the bytes and the pointer alone; it is an error exactly where the
/// parser does not take the bytes for a JSON document.
#[verifier::external_body]
pub(crate) fn text_at(body: &[u8], pointer: &str) -> (r: Result<Option<String>, serde_json::Error>)
    ensures
        match r {
            Ok(t) => json_text(body@, pointer@) == Some(optional_text(t)),
            Err(_) => json_text(body@, pointer@) is None,
        },
{
    let document: serde_json::Value = serde_json::from_slice(body)?;
    Ok(document.pointer(pointer).and_then(serde_json::Value::as_str).map(str::to_owned))
}

/// `serde_json::from_slice` to a `serde_json::Value`, then `Value::pointer` and `Value::as_bool`.
/// The result depends on the bytes and the pointer alone; it is an error exactly where the
/// parser does not take the bytes for a JSON document.
#[verifier::external_body]
pub(crate) fn bool_at(body: &[u8], pointer: &str) -> (r: Result<Option<bool>, serde_json::Error>)
    ensures
        match r {
            Ok(b) => json_bool(body@, pointer@) == Some(b),
            Err(_) => json_bool(body@, pointer@) is None,
        },
{
    let document: serde_json::Value = serde_json::from_slice(body)?;
    Ok(document.pointer(pointer).and_then(serde_json::Value::as_bool))
}

} // verus!
