//! The wire codec: raw transport messages in, typed envelopes out, and
//! typed envelopes back to outbound text.
//!
//! The JSON syntax itself is done by an outside crate behind the trusted
//! items below; their results are named by uninterpreted functions, so that
//! everything this module states about a frame is a function of the frame's
//! bytes alone. The interpretation of the parsed tree — the envelope, the
//! opcodes, the payload shapes — is verified code in `event` and friends.

use std::io::Read;

use vstd::prelude::*;

use crate::error::{CloseFrame, Error};
use crate::event::{envelope_ok, is_envelope, is_wire_envelope, Event};
use crate::json::JsonValue;

verus! {

/// An inbound transport message, as plain values: the text or bytes of a
/// frame, the close signal, or any other frame kind the codec ignores.
#[derive(Debug, PartialEq, Eq)]
pub enum WsMessage {
    /// A text frame.
    Text(String),
    /// A binary frame: deflated UTF-8 JSON.
    Binary(Vec<u8>),
    /// The close signal, with the close frame the remote end sent, if any.
    Close(Option<CloseFrame>),
    /// Any other frame kind; it carries no event.
    Other,
}

/// The JSON document a text reads as, if it reads as one.
pub uninterp spec fn json_parsed(s: Seq<char>) -> Option<JsonValue>;

/// The serialized text of a JSON document.
pub uninterp spec fn json_text_of(v: JsonValue) -> Seq<char>;

/// The UTF-8 text a byte string inflates to, when it is a well-formed
/// deflate stream of well-formed UTF-8.
pub uninterp spec fn inflated(b: Seq<u8>) -> Option<Seq<char>>;

#[verifier::external_type_specification]
#[verifier::external_body]
pub struct ExSerdeJsonValue(serde_json::Value);

/// Relies on serde_json::Value's accessors: maps each JSON node to the
/// library's wire value, variant for variant; a number that is no unsigned
/// 64-bit integer keeps only its marker.
#[verifier::external_body]
fn value_to_node(v: &serde_json::Value) -> JsonValue {
    match v {
        serde_json::Value::Null => JsonValue::Null,
        serde_json::Value::Bool(b) => JsonValue::Bool(*b),
        serde_json::Value::Number(n) => match n.as_u64() {
            Some(u) => JsonValue::UInt(u),
            None => JsonValue::OtherNumber,
        },
        serde_json::Value::String(s) => JsonValue::Text(s.clone()),
        serde_json::Value::Array(a) => JsonValue::Array(a.iter().map(value_to_node).collect()),
        serde_json::Value::Object(o) => JsonValue::Object(
            o.iter().map(|(k, x)| (k.clone(), value_to_node(x))).collect(),
        ),
    }
}

/// Relies on serde_json::Value's constructors: maps the library's wire
/// value back, variant for variant.
#[verifier::external_body]
fn node_to_value(v: &JsonValue) -> serde_json::Value {
    match v {
        JsonValue::Null => serde_json::Value::Null,
        JsonValue::Bool(b) => serde_json::Value::Bool(*b),
        JsonValue::UInt(n) => serde_json::Value::from(*n),
        JsonValue::OtherNumber => serde_json::Value::Null,
        JsonValue::Text(s) => serde_json::Value::String(s.clone()),
        JsonValue::Array(items) => serde_json::Value::Array(
            items.iter().map(node_to_value).collect(),
        ),
        JsonValue::Object(fields) => serde_json::Value::Object(
            fields.iter().map(|(k, x)| (k.clone(), node_to_value(x))).collect(),
        ),
    }
}

/// Relies on serde_json::from_str: a well-formed document parses to its
/// tree, anything else is refused, and what comes back is a function of
/// the text alone.
#[verifier::external_body]
pub fn parse_json(s: &str) -> (r: Option<JsonValue>)
    ensures
        r == json_parsed(s@),
{
    match serde_json::from_str::<serde_json::Value>(s) {
        Ok(v) => Some(value_to_node(&v)),
        Err(_) => None,
    }
}

/// Relies on serde_json::to_string: serializing a self-describing tree
/// never fails and is a function of the tree alone.
#[verifier::external_body]
pub fn json_to_text(v: &JsonValue) -> (r: String)
    ensures
        r@ == json_text_of(*v),
{
    match serde_json::to_string(&node_to_value(v)) {
        Ok(s) => s,
        Err(_) => String::new(),
    }
}

/// Relies on flate2's ZlibDecoder, read through std::io::Read's
/// read_to_string: a well-formed deflate stream of well-formed UTF-8
/// inflates to its text, anything else is refused, and what comes back is
/// a function of the bytes alone.
#[verifier::external_body]
fn inflate_to_text(bytes: &Vec<u8>) -> (r: Option<String>)
    ensures
        match r {
            Some(s) => inflated(bytes@) == Some(s@),
            None => inflated(bytes@) is None,
        },
{
    let mut out = String::new();
    match flate2::read::ZlibDecoder::new(&bytes[..]).read_to_string(&mut out) {
        Ok(_) => Some(out),
        Err(_) => None,
    }
}

/// How decoding a text frame must come out: a failed parse or an envelope
/// the reader refuses is a decode failure, and an accepted envelope is
/// returned as read.
pub open spec fn decoded_text(t: Seq<char>, r: Result<Option<Event>, Error>) -> bool {
    match json_parsed(t) {
        None => r == Err::<Option<Event>, Error>(Error::Decode),
        Some(v) => match r {
            Ok(Some(ev)) => envelope_ok(v) && is_envelope(v, ev),
            Ok(None) => false,
            Err(e) => e == Error::Decode && !envelope_ok(v),
        },
    }
}

/// Decodes one transport message.
///
/// A binary frame is inflated first and then read as text; a text frame is
/// read directly; the close signal fails with the close frame it carried —
/// a failure, not an empty read; any other frame kind yields no event and
/// no failure.
pub fn decode_message(msg: WsMessage) -> (r: Result<Option<Event>, Error>)
    ensures
        match msg {
            WsMessage::Text(t) => decoded_text(t@, r),
            WsMessage::Binary(b) => match inflated(b@) {
                None => r == Err::<Option<Event>, Error>(Error::Compression),
                Some(t) => decoded_text(t, r),
            },
            WsMessage::Close(frame) => r == Err::<Option<Event>, Error>(Error::Closed(frame)),
            WsMessage::Other => r == Ok::<Option<Event>, Error>(None),
        },
{
    match msg {
        WsMessage::Text(t) => decode_text(t.as_str()),
        WsMessage::Binary(b) => match inflate_to_text(&b) {
            Some(t) => decode_text(t.as_str()),
            None => Err(Error::Compression),
        },
        WsMessage::Close(frame) => Err(Error::Closed(frame)),
        WsMessage::Other => Ok(None),
    }
}

/// Decodes the text of one frame.
fn decode_text(t: &str) -> (r: Result<Option<Event>, Error>)
    ensures
        decoded_text(t@, r),
{
    match parse_json(t) {
        None => Err(Error::Decode),
        Some(v) => match Event::from_json(&v) {
            Ok(ev) => Ok(Some(ev)),
            Err(e) => Err(e),
        },
    }
}

/// Encodes one outbound envelope to its wire text: the serialization of
/// the two-field object `op`, `d`.
pub fn encode_event(ev: &Event) -> (r: String)
    ensures
        exists|w: JsonValue|
            #![auto]
            is_wire_envelope(w, ev.op, ev.send_data) && r@ == json_text_of(w),
{
    let w = ev.to_json();
    let r = json_to_text(&w);
    proof {
        assert(is_wire_envelope(w, ev.op, ev.send_data) && r@ == json_text_of(w));
    }
    r
}

} // verus!
