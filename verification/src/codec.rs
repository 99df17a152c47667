//! JSON text of the tool protocol: decoding a message body, encoding a
//! message, and the indented text of a tool's answer, all by `serde_json`.

use vstd::prelude::*;
use vstd::utf8::encode_utf8;

use serde_json::Value;

use crate::framing::{frame_header_text, frame_message, FrameError};
use crate::json::{JsonNumber, JsonValue, JsonView, NumberView};
use crate::store::json_error_text;

verus! {

/// A document in `serde_json`'s own model, opaque to proofs.
#[verifier::external_type_specification]
#[verifier::external_body]
pub struct ExJsonDocument(serde_json::Value);

/// The document, in the library's model, that `serde_json::from_slice`
/// reads from `bytes`, or `None` where it reports an error.
pub uninterp spec fn json_of_bytes(bytes: Seq<u8>) -> Option<JsonView>;

/// The compact JSON text that `serde_json::to_vec` writes for a document.
pub uninterp spec fn json_bytes_of(doc: JsonView) -> Seq<u8>;

/// The indented JSON text that `serde_json::to_string_pretty` writes for a
/// document.
pub uninterp spec fn pretty_json_of(doc: JsonView) -> Seq<char>;

/// Whether text `a` sorts before text `b` as `String`s do: by code point
/// (UTF-8 bytes sort the same way), a proper prefix first.
pub open spec fn text_before(a: Seq<char>, b: Seq<char>) -> bool
    decreases a.len(),
{
    if a.len() == 0 {
        b.len() > 0
    } else if b.len() == 0 {
        false
    } else if a[0] != b[0] {
        (a[0] as int) < (b[0] as int)
    } else {
        text_before(a.drop_first(), b.drop_first())
    }
}

/// Whether a document is in the form that `serde_json` writes and reads
/// back unchanged, nested at most `depth` arrays and objects deep: every
/// number an integer, a negative one only below zero, and object keys
/// strictly in `String` order.
pub open spec fn canonical_within(d: JsonView, depth: nat) -> bool
    decreases d,
{
    match d {
        JsonView::Null => true,
        JsonView::Bool(_) => true,
        JsonView::Str(_) => true,
        JsonView::Number(n) => match n {
            NumberView::PosInt(_) => true,
            NumberView::NegInt(i) => i < 0,
            NumberView::Float(_) => false,
        },
        JsonView::Array(items) => depth > 0 && forall|i: int|
            0 <= i < items.len() ==> #[trigger] canonical_within(items[i], (depth - 1) as nat),
        JsonView::Object(m) => depth > 0 && (forall|i: int, j: int|
            0 <= i < j < m.len() ==> text_before(#[trigger] m[i].0, #[trigger] m[j].0)) && (forall|i: int|
            0 <= i < m.len() ==> #[trigger] canonical_within(m[i].1, (depth - 1) as nat)),
    }
}

/// Whether a document survives being written by `serde_json` and read
/// again: canonical, and nested at most 127 deep (the decoder refuses the
/// 128th level).
pub open spec fn plain_document(d: JsonView) -> bool {
    canonical_within(d, 127)
}

/// Converts a `serde_json` document into the library's model, variant for
/// variant; a number becomes an unsigned integer where `as_u64` gives one,
/// else a signed one where `as_i64` does, else its decimal text. Nothing is
/// claimed of it here: the names of the wrappers that call it cover it.
#[verifier::external_body]
fn json_from_serde(v: Value) -> (r: JsonValue) {
    match v {
        Value::Null => JsonValue::Null,
        Value::Bool(b) => JsonValue::Bool(b),
        Value::Number(n) => JsonValue::Number(match (n.as_u64(), n.as_i64()) {
            (Some(u), _) => JsonNumber::PosInt(u),
            (None, Some(i)) => JsonNumber::NegInt(i),
            (None, None) => JsonNumber::Float(n.to_string()),
        }),
        Value::String(s) => JsonValue::Str(s),
        Value::Array(a) => JsonValue::Array(a.into_iter().map(json_from_serde).collect()),
        Value::Object(m) => JsonValue::Object(m.into_iter().map(|(k, x)| (k, json_from_serde(x))).collect()),
    }
}

/// Converts a document of the library's model into `serde_json`'s, variant
/// for variant; a number kept by its text is parsed back with
/// `serde_json::Number`'s `from_str`. Nothing is claimed of it here: the
/// names of the wrappers that call it cover it.
#[verifier::external_body]
fn json_to_serde(v: &JsonValue) -> (r: Value) {
    match v {
        JsonValue::Null => Value::Null,
        JsonValue::Bool(b) => Value::Bool(*b),
        JsonValue::Number(JsonNumber::PosInt(u)) => Value::from(*u),
        JsonValue::Number(JsonNumber::NegInt(i)) => Value::from(*i),
        JsonValue::Number(JsonNumber::Float(t)) => t.parse().map_or(Value::Null, Value::Number),
        JsonValue::Str(s) => Value::String(s.clone()),
        JsonValue::Array(a) => Value::Array(a.iter().map(json_to_serde).collect()),
        JsonValue::Object(m) => Value::Object(m.iter().map(|(k, x)| (k.clone(), json_to_serde(x))).collect()),
    }
}

/// Calls `serde_json::from_slice::<serde_json::Value>` and converts the
/// document it reads. It succeeds exactly when `json_of_bytes` names a
/// document, and then gives that document.
#[verifier::external_body]
fn parse_json_body(bytes: &[u8]) -> (r: Result<JsonValue, serde_json::Error>)
    ensures
        r is Ok <==> json_of_bytes(bytes@) is Some,
        r matches Ok(v) ==> json_of_bytes(bytes@) == Some(v@),
{
    serde_json::from_slice::<serde_json::Value>(bytes).map(json_from_serde)
}

/// Calls `serde_json::to_vec` on the converted document. Writing a document
/// into memory cannot fail, so it succeeds, with the text `json_bytes_of`
/// names. Reading that text back with `parse_json_body` gives a plain
/// document back unchanged: integers are written in decimal and read as
/// the same integers, strings are escaped and unescaped losslessly, an
/// object's keys are written in the order its map keeps them (sorted, which
/// a plain document already is), and the nesting stays within the
/// decoder's limit.
#[verifier::external_body]
fn json_body_bytes(v: &JsonValue) -> (r: Result<Vec<u8>, serde_json::Error>)
    ensures
        r is Ok,
        r matches Ok(b) ==> b@ == json_bytes_of(v@),
        r matches Ok(b) ==> (plain_document(v@) ==> json_of_bytes(b@) == Some(v@)),
{
    serde_json::to_vec(&json_to_serde(v))
}

/// Calls `serde_json::to_string_pretty` on the converted document. Writing
/// a document into memory cannot fail, so it succeeds, with the text
/// `pretty_json_of` names.
#[verifier::external_body]
pub(crate) fn pretty_json_text(v: &JsonValue) -> (r: Result<String, serde_json::Error>)
    ensures
        r is Ok,
        r matches Ok(t) ==> t@ == pretty_json_of(v@),
{
    serde_json::to_string_pretty(&json_to_serde(v))
}

/// Decodes the body of one message: the document it holds, or the
/// decoder's complaint.
pub fn read_message_body(body: &[u8]) -> (r: Result<JsonValue, FrameError>)
    ensures
        match json_of_bytes(body@) {
            Some(doc) => r matches Ok(v) && v@ == doc,
            None => r matches Err(FrameError::InvalidJson(_)),
        },
{
    match parse_json_body(body) {
        Ok(v) => Ok(v),
        Err(e) => Err(FrameError::InvalidJson(json_error_text(&e))),
    }
}

/// The bytes written for one message: the header block announcing the
/// length of the document's JSON text, then that text, which reads back
/// as the same document when the document is plain.
pub fn encode_message(v: &JsonValue) -> (r: Vec<u8>)
    ensures
        r@ == encode_utf8(frame_header_text(json_bytes_of(v@).len() as usize)) + json_bytes_of(v@),
        plain_document(v@) ==> json_of_bytes(json_bytes_of(v@)) == Some(v@),
{
    let body = match json_body_bytes(v) {
        Ok(b) => b,
        // Unreachable: encoding a document always succeeds.
        Err(_) => Vec::new(),
    };
    frame_message(body.as_slice())
}

} // verus!
