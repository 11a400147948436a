//! One line of the child's output, parsed into the fields the aggregator
//! recognizes.
//!
//! The stream protocol is one JSON object per line; the recognized
//! sub-fields are `thread_id`, `item.type`, `item.text`, `type`,
//! `error.message` and `message`.  Parsing is the one place the library
//! leans on an outside crate: the two functions below are trusted, and
//! everything decided from an `Event` is verified.

use serde_json::{from_str, to_string, Value};
use vstd::prelude::*;

verus! {

/// The recognized fields of one parsed line, each as a plain value: a field
/// is `None` when it is absent or not a string.  `has_error_object` records
/// whether an `error` field exists and is an object; `object_json` is the
/// line's canonical serialization when the line is a JSON object, for the
/// raw event list and its size accounting.
#[derive(Debug)]
pub struct Event {
    pub thread_id: Option<String>,
    pub item_type: Option<String>,
    pub item_text: Option<String>,
    pub event_type: Option<String>,
    pub has_error_object: bool,
    pub error_message: Option<String>,
    pub message: Option<String>,
    pub object_json: Option<String>,
}

/// What parsing a line yields: the recognized fields, or the parser's error
/// text.  The outcome is a function of the line's characters alone; nothing
/// more is assumed of it.
pub uninterp spec fn spec_extract(line: Seq<char>) -> Result<Event, String>;

/// The characters that lossy decoding makes of a byte sequence.  The
/// outcome is a function of the bytes alone.
pub uninterp spec fn spec_lossy(bytes: Seq<u8>) -> Seq<char>;

/// Relies on `String::from_utf8_lossy`: the result is determined by the
/// bytes, and valid UTF-8 input decodes exactly (invalid sequences are
/// replaced with the replacement character).
#[verifier::external_body]
pub(crate) fn utf8_lossy(bytes: &[u8]) -> (r: String)
    ensures
        r@ == spec_lossy(bytes@),
        vstd::utf8::valid_utf8(bytes@) ==> r@ == vstd::utf8::decode_utf8(bytes@),
{
    String::from_utf8_lossy(bytes).into_owned()
}

/// Relies on `serde_json::from_str` to parse the line as one JSON value, on
/// `serde_json::Value::get`, `Value::pointer`, `Value::as_str` and
/// `Value::is_object` to pick out the recognized fields, and on
/// `serde_json::to_string` for the canonical serialization of an object
/// line.
#[verifier::external_body]
pub(crate) fn extract_event(line: &str) -> (r: Result<Event, String>)
    ensures
        r == spec_extract(line@),
{
    let v: Value = match from_str(line) { Ok(v) => v, Err(e) => return Err(e.to_string()) };
    let s = |x: &Value| x.as_str().map(String::from);
    Ok(Event {
        thread_id: v.get("thread_id").and_then(s),
        item_type: v.pointer("/item/type").and_then(s),
        item_text: v.pointer("/item/text").and_then(s),
        event_type: v.get("type").and_then(s),
        has_error_object: v.get("error").is_some_and(|e| e.is_object()),
        error_message: v.pointer("/error/message").and_then(s),
        message: v.get("message").and_then(s),
        object_json: if v.is_object() { to_string(&v).ok() } else { None },
    })
}

} // verus!
