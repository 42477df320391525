//! The wire envelope and its payloads: opcode-discriminated events as the
//! gateway sends and receives them, with the readers and writers that tie
//! them to the JSON wire value.
//!
//! The two payload unions are asymmetric on purpose: what `d` holds on
//! receive differs from what it holds on send for the same envelope, so an
//! `Event` carries one optional union for each direction and only ever
//! populates one.

use vstd::prelude::*;

use crate::dispatch::{dispatch_ok, is_dispatch, DispatchEvent};
use crate::error::Error;
use crate::intents::GatewayIntents;
use crate::json::{opt_text_val, opt_u64_val, push_field, spec_get, JsonValue};
use crate::shard::{is_shard_json, ShardInformation};

verus! {

/// The opcode of an envelope.
#[derive(Debug, Clone, Copy, PartialEq, Eq, Structural, Hash)]
pub enum OpCode {
    /// Receive: a named application-level event.
    Dispatch,
    /// Send and receive: a liveness frame, or a demand for one.
    Heartbeat,
    /// Send: start a new session.
    Identify,
    /// Send: update the client's presence.
    PresenceUpdate,
    /// Send: join, leave or move between voice channels.
    VoiceStateUpdate,
    /// Send: replay a disconnected session.
    Resume,
    /// Receive: reconnect and resume immediately.
    Reconnect,
    /// Send: request offline members of a large guild.
    RequestGuildMembers,
    /// Receive: the session is invalid; the payload says whether it can be
    /// resumed.
    InvalidSession,
    /// Receive: the first frame after connecting, carrying the heartbeat
    /// interval.
    Hello,
    /// Receive: a heartbeat was acknowledged.
    HeartbeatACK,
    /// Send: request the soundboard sounds of a set of guilds.
    RequestSoundboardSounds,
}

/// The opcode a wire number names, if any.
pub open spec fn spec_op(n: u64) -> Option<OpCode> {
    if n == 0 {
        Some(OpCode::Dispatch)
    } else if n == 1 {
        Some(OpCode::Heartbeat)
    } else if n == 2 {
        Some(OpCode::Identify)
    } else if n == 3 {
        Some(OpCode::PresenceUpdate)
    } else if n == 4 {
        Some(OpCode::VoiceStateUpdate)
    } else if n == 6 {
        Some(OpCode::Resume)
    } else if n == 7 {
        Some(OpCode::Reconnect)
    } else if n == 8 {
        Some(OpCode::RequestGuildMembers)
    } else if n == 9 {
        Some(OpCode::InvalidSession)
    } else if n == 10 {
        Some(OpCode::Hello)
    } else if n == 11 {
        Some(OpCode::HeartbeatACK)
    } else if n == 31 {
        Some(OpCode::RequestSoundboardSounds)
    } else {
        None
    }
}

/// The wire number of an opcode.
pub open spec fn op_num(op: OpCode) -> u64 {
    match op {
        OpCode::Dispatch => 0,
        OpCode::Heartbeat => 1,
        OpCode::Identify => 2,
        OpCode::PresenceUpdate => 3,
        OpCode::VoiceStateUpdate => 4,
        OpCode::Resume => 6,
        OpCode::Reconnect => 7,
        OpCode::RequestGuildMembers => 8,
        OpCode::InvalidSession => 9,
        OpCode::Hello => 10,
        OpCode::HeartbeatACK => 11,
        OpCode::RequestSoundboardSounds => 31,
    }
}

/// Writing an opcode and reading the number back names the same opcode.
pub proof fn lemma_op_num_roundtrip(op: OpCode)
    ensures
        spec_op(op_num(op)) == Some(op),
{
}

impl OpCode {
    /// The opcode a wire number names; `None` for a number the protocol
    /// does not define, which a reader rejects.
    pub fn from_u64(n: u64) -> (r: Option<OpCode>)
        ensures
            r == spec_op(n),
    {
        if n == 0 {
            Some(OpCode::Dispatch)
        } else if n == 1 {
            Some(OpCode::Heartbeat)
        } else if n == 2 {
            Some(OpCode::Identify)
        } else if n == 3 {
            Some(OpCode::PresenceUpdate)
        } else if n == 4 {
            Some(OpCode::VoiceStateUpdate)
        } else if n == 6 {
            Some(OpCode::Resume)
        } else if n == 7 {
            Some(OpCode::Reconnect)
        } else if n == 8 {
            Some(OpCode::RequestGuildMembers)
        } else if n == 9 {
            Some(OpCode::InvalidSession)
        } else if n == 10 {
            Some(OpCode::Hello)
        } else if n == 11 {
            Some(OpCode::HeartbeatACK)
        } else if n == 31 {
            Some(OpCode::RequestSoundboardSounds)
        } else {
            None
        }
    }

    /// The wire number of this opcode; every defined opcode fits a byte.
    pub fn as_u8(self) -> (r: u8)
        ensures
            r as u64 == op_num(self),
    {
        match self {
            OpCode::Dispatch => 0,
            OpCode::Heartbeat => 1,
            OpCode::Identify => 2,
            OpCode::PresenceUpdate => 3,
            OpCode::VoiceStateUpdate => 4,
            OpCode::Resume => 6,
            OpCode::Reconnect => 7,
            OpCode::RequestGuildMembers => 8,
            OpCode::InvalidSession => 9,
            OpCode::Hello => 10,
            OpCode::HeartbeatACK => 11,
            OpCode::RequestSoundboardSounds => 31,
        }
    }
}

/// The static client identification sent with an identify frame: the
/// operating system and the library's names for browser and device. A
/// process-wide configuration value, injected when identifying.
#[derive(Debug, Clone, PartialEq, Eq, Hash)]
pub struct IdentifyProperties {
    /// The operating system's name.
    pub os: String,
    /// The client's browser name.
    pub browser: String,
    /// The client's device name.
    pub device: String,
}

impl IdentifyProperties {
    /// Properties with the given operating-system name and the library's
    /// own browser and device labels.
    pub fn new(os: &str, browser: &str, device: &str) -> (r: IdentifyProperties)
        ensures
            r.os@ == os@,
            r.browser@ == browser@,
            r.device@ == device@,
    {
        IdentifyProperties {
            os: String::from_str(os),
            browser: String::from_str(browser),
            device: String::from_str(device),
        }
    }
}

impl Default for IdentifyProperties {
    /// The library's stock identification; a caller that knows its
    /// platform injects its own.
    fn default() -> (r: IdentifyProperties)
        ensures
            r.os@ == "unknown"@,
            r.browser@ == "discors"@,
            r.device@ == "discors"@,
    {
        IdentifyProperties::new("unknown", "discors", "discors")
    }
}

/// The payload of a received envelope, keyed by its opcode.
#[derive(Debug, Clone, PartialEq, Eq, Hash)]
pub enum ReceiveEventData {
    /// A named application-level event.
    Dispatch(DispatchEvent),
    /// The remote end demands an immediate heartbeat.
    Heartbeat,
    /// The remote end demands an immediate reconnect-and-resume.
    Reconnect,
    /// The session is no longer valid; the payload says whether a resume
    /// can still be tried.
    InvalidSession(bool),
    /// The first frame after connecting.
    Hello {
        /// How often to send heartbeats, in milliseconds.
        heartbeat_interval: u64,
    },
    /// A heartbeat was acknowledged.
    HeartbeatAck,
}

/// The payload of a sent envelope, keyed by its opcode.
#[derive(Debug, Clone, PartialEq, Eq, Hash)]
pub enum SendEventData {
    /// A liveness frame, carrying the last sequence number seen, if any.
    Heartbeat(Option<u64>),
    /// The opening handshake of a new session.
    Identify {
        /// The caller's authentication token.
        token: String,
        /// The static client identification.
        properties: IdentifyProperties,
        /// Whether the connection supports packet compression; omitted from
        /// the wire object entirely when unset, never written as `null`.
        compress: Option<bool>,
        /// The guild size above which offline members are not sent;
        /// omitted from the wire object entirely when unset.
        large_threshold: Option<u8>,
        /// The shard pair of this connection; omitted from the wire object
        /// entirely when unset.
        shard: Option<ShardInformation>,
        /// The intent bits of this connection.
        intents: GatewayIntents,
    },
    /// The replay request for a disconnected session.
    Resume {
        /// The caller's authentication token.
        token: String,
        /// The session being replayed.
        session_id: String,
        /// The last sequence number the client saw.
        sequence: u64,
    },
}

/// A wire envelope: the opcode, the payload of whichever direction this
/// instance travels, and the receive-side bookkeeping fields.
#[derive(Debug, Clone, PartialEq, Eq, Hash)]
pub struct Event {
    /// The opcode.
    pub op: OpCode,
    /// The payload when this envelope was received.
    pub receive_data: Option<ReceiveEventData>,
    /// The payload when this envelope is to be sent.
    pub send_data: Option<SendEventData>,
    /// The sequence number under `s`, when one was received.
    pub sequence: Option<u64>,
    /// The event name under `t`, when one was received.
    pub event: Option<String>,
}

impl Default for Event {
    /// An empty heartbeat envelope, the neutral starting point of a frame
    /// under construction.
    fn default() -> (r: Event)
        ensures
            r.op == OpCode::Heartbeat,
            r.receive_data is None,
            r.send_data is None,
            r.sequence is None,
            r.event is None,
    {
        Event { op: OpCode::Heartbeat, receive_data: None, send_data: None, sequence: None, event: None }
    }
}

/// Whether the payload of `v` fits what its opcode requires on receive.
pub open spec fn payload_ok(op: OpCode, v: JsonValue) -> bool {
    match op {
        OpCode::Dispatch => dispatch_ok(v),
        OpCode::InvalidSession => spec_get(v, "d"@) matches Some(JsonValue::Bool(_)),
        OpCode::Hello => match spec_get(v, "d"@) {
            Some(d) => spec_get(d, "heartbeat_interval"@) matches Some(JsonValue::UInt(_)),
            None => false,
        },
        _ => true,
    }
}

/// Whether `v` is an envelope the reader accepts: an object whose `op` is
/// an unsigned integer naming a known opcode, with a payload of that
/// opcode's shape.
pub open spec fn envelope_ok(v: JsonValue) -> bool {
    match spec_get(v, "op"@) {
        Some(JsonValue::UInt(n)) => match spec_op(n) {
            Some(op) => payload_ok(op, v),
            None => false,
        },
        _ => false,
    }
}

/// How a decoded receive payload relates to the envelope it was read from.
pub open spec fn is_receive_payload(op: OpCode, v: JsonValue, rd: Option<ReceiveEventData>) -> bool {
    match op {
        OpCode::Dispatch => rd matches Some(ReceiveEventData::Dispatch(de)) && is_dispatch(v, de),
        OpCode::Heartbeat => rd == Some(ReceiveEventData::Heartbeat),
        OpCode::Reconnect => rd == Some(ReceiveEventData::Reconnect),
        OpCode::InvalidSession => rd matches Some(ReceiveEventData::InvalidSession(b)) && spec_get(
            v,
            "d"@,
        ) == Some(JsonValue::Bool(b)),
        OpCode::Hello => rd matches Some(
            ReceiveEventData::Hello { heartbeat_interval },
        ) && match spec_get(v, "d"@) {
            Some(d) => spec_get(d, "heartbeat_interval"@) == Some(
                JsonValue::UInt(heartbeat_interval),
            ),
            None => false,
        },
        OpCode::HeartbeatACK => rd == Some(ReceiveEventData::HeartbeatAck),
        _ => rd is None,
    }
}

/// How a decoded envelope relates to the wire value it was read from: the
/// opcode names it, `s` and `t` are read leniently, the receive payload is
/// of the opcode's shape, and no send payload is populated.
pub open spec fn is_envelope(v: JsonValue, ev: Event) -> bool {
    &&& match spec_get(v, "op"@) {
        Some(JsonValue::UInt(n)) => spec_op(n) == Some(ev.op),
        _ => false,
    }
    &&& ev.sequence == opt_u64_val(spec_get(v, "s"@))
    &&& ev.event == opt_text_val(spec_get(v, "t"@))
    &&& ev.send_data is None
    &&& is_receive_payload(ev.op, v, ev.receive_data)
}

impl Event {
    /// Reads an envelope from a parsed wire value.
    pub fn from_json(v: &JsonValue) -> (r: Result<Event, Error>)
        ensures
            r is Ok <==> envelope_ok(*v),
            r matches Ok(ev) ==> is_envelope(*v, ev),
            r matches Err(e) ==> e == Error::Decode,
    {
        let op_raw = match v.field_u64("op") {
            Ok(n) => n,
            Err(e) => {
                return Err(e);
            },
        };
        let op = match OpCode::from_u64(op_raw) {
            Some(o) => o,
            None => {
                return Err(Error::Decode);
            },
        };
        let sequence = v.field_u64_lenient("s");
        let event = v.field_text_lenient("t");
        let receive_data: Option<ReceiveEventData> = match op {
            OpCode::Dispatch => match DispatchEvent::from_envelope(v) {
                Ok(de) => Some(ReceiveEventData::Dispatch(de)),
                Err(e) => {
                    return Err(e);
                },
            },
            OpCode::Heartbeat => Some(ReceiveEventData::Heartbeat),
            OpCode::Reconnect => Some(ReceiveEventData::Reconnect),
            OpCode::InvalidSession => match v.get("d") {
                Some(d) => match d {
                    JsonValue::Bool(b) => Some(ReceiveEventData::InvalidSession(*b)),
                    _ => {
                        return Err(Error::Decode);
                    },
                },
                None => {
                    return Err(Error::Decode);
                },
            },
            OpCode::Hello => match v.get("d") {
                Some(d) => match d.field_u64("heartbeat_interval") {
                    Ok(n) => Some(ReceiveEventData::Hello { heartbeat_interval: n }),
                    Err(e) => {
                        return Err(e);
                    },
                },
                None => {
                    return Err(Error::Decode);
                },
            },
            OpCode::HeartbeatACK => Some(ReceiveEventData::HeartbeatAck),
            _ => None,
        };
        Ok(Event { op, receive_data, send_data: None, sequence, event })
    }
}

/// How the properties object stands on the wire.
pub open spec fn is_properties_json(p: JsonValue, props: IdentifyProperties) -> bool {
    &&& (p matches JsonValue::Object(fs) && fs@.len() == 3)
    &&& spec_get(p, "os"@) == Some(JsonValue::Text(props.os))
    &&& spec_get(p, "browser"@) == Some(JsonValue::Text(props.browser))
    &&& spec_get(p, "device"@) == Some(JsonValue::Text(props.device))
}

/// How an identify payload stands on the wire: the three required fields,
/// each optional field present exactly when set — an unset one is omitted,
/// never written as `null` — and nothing else.
pub open spec fn is_identify_json(
    d: JsonValue,
    token: String,
    properties: IdentifyProperties,
    compress: Option<bool>,
    large_threshold: Option<u8>,
    shard: Option<ShardInformation>,
    intents: GatewayIntents,
) -> bool {
    &&& (d matches JsonValue::Object(fs) && fs@.len() == 3 + (if compress is Some {
        1int
    } else {
        0
    }) + (if large_threshold is Some {
        1int
    } else {
        0
    }) + (if shard is Some {
        1int
    } else {
        0
    }))
    &&& spec_get(d, "token"@) == Some(JsonValue::Text(token))
    &&& match spec_get(d, "properties"@) {
        Some(p) => is_properties_json(p, properties),
        None => false,
    }
    &&& match compress {
        Some(b) => spec_get(d, "compress"@) == Some(JsonValue::Bool(b)),
        None => spec_get(d, "compress"@) is None,
    }
    &&& match large_threshold {
        Some(t) => spec_get(d, "large_threshold"@) == Some(JsonValue::UInt(t as u64)),
        None => spec_get(d, "large_threshold"@) is None,
    }
    &&& match shard {
        Some(si) => match spec_get(d, "shard"@) {
            Some(s) => is_shard_json(s, si),
            None => false,
        },
        None => spec_get(d, "shard"@) is None,
    }
    &&& spec_get(d, "intents"@) == Some(JsonValue::UInt(intents.spec_bits() as u64))
}

/// How a resume payload stands on the wire.
pub open spec fn is_resume_json(d: JsonValue, token: String, session_id: String, seq: u64) -> bool {
    &&& (d matches JsonValue::Object(fs) && fs@.len() == 3)
    &&& spec_get(d, "token"@) == Some(JsonValue::Text(token))
    &&& spec_get(d, "session_id"@) == Some(JsonValue::Text(session_id))
    &&& spec_get(d, "seq"@) == Some(JsonValue::UInt(seq))
}

/// How a send payload stands on the wire, by its kind.
pub open spec fn is_send_json(d: JsonValue, sd: SendEventData) -> bool {
    match sd {
        SendEventData::Heartbeat(seq) => match seq {
            Some(n) => d == JsonValue::UInt(n),
            None => d == JsonValue::Null,
        },
        SendEventData::Identify {
            token,
            properties,
            compress,
            large_threshold,
            shard,
            intents,
        } => is_identify_json(d, token, properties, compress, large_threshold, shard, intents),
        SendEventData::Resume { token, session_id, sequence } => is_resume_json(
            d,
            token,
            session_id,
            sequence,
        ),
    }
}

/// How a whole outbound envelope stands on the wire: exactly the two
/// fields `op` and `d` — no `s`, no `t` on send — with the payload under
/// `d`, or `null` there when the envelope carries none.
pub open spec fn is_wire_envelope(w: JsonValue, op: OpCode, sd: Option<SendEventData>) -> bool {
    &&& (w matches JsonValue::Object(fs) && fs@.len() == 2)
    &&& spec_get(w, "op"@) == Some(JsonValue::UInt(op_num(op)))
    &&& match sd {
        Some(x) => match spec_get(w, "d"@) {
            Some(d) => is_send_json(d, x),
            None => false,
        },
        None => spec_get(w, "d"@) == Some(JsonValue::Null),
    }
}

impl IdentifyProperties {
    /// The wire object of the properties.
    pub fn to_json(&self) -> (r: JsonValue)
        ensures
            is_properties_json(r, *self),
    {
        let mut fs: Vec<(String, JsonValue)> = Vec::new();
        push_field(&mut fs, "os", JsonValue::Text(self.os.clone()));
        push_field(&mut fs, "browser", JsonValue::Text(self.browser.clone()));
        push_field(&mut fs, "device", JsonValue::Text(self.device.clone()));
        let r = JsonValue::Object(fs);
        proof {
            reveal_strlit("os");
            reveal_strlit("browser");
            reveal_strlit("device");
            assert("os"@.len() == 2);
            assert("browser"@.len() == 7);
            assert("device"@.len() == 6);
        }
        r
    }
}

impl SendEventData {
    /// The wire value under `d` for this payload.
    pub fn to_json(&self) -> (r: JsonValue)
        ensures
            is_send_json(r, *self),
    {
        match self {
            SendEventData::Heartbeat(seq) => match seq {
                Some(n) => JsonValue::UInt(*n),
                None => JsonValue::Null,
            },
            SendEventData::Identify {
                token,
                properties,
                compress,
                large_threshold,
                shard,
                intents,
            } => {
                let mut fs: Vec<(String, JsonValue)> = Vec::new();
                push_field(&mut fs, "token", JsonValue::Text(token.clone()));
                push_field(&mut fs, "properties", properties.to_json());
                match compress {
                    Some(b) => push_field(&mut fs, "compress", JsonValue::Bool(*b)),
                    None => (),
                }
                match large_threshold {
                    Some(t) => push_field(&mut fs, "large_threshold", JsonValue::UInt(*t as u64)),
                    None => (),
                }
                match shard {
                    Some(si) => push_field(&mut fs, "shard", si.to_json()),
                    None => (),
                }
                push_field(&mut fs, "intents", JsonValue::UInt(intents.bits() as u64));
                let r = JsonValue::Object(fs);
                proof {
                    reveal_strlit("token");
                    reveal_strlit("properties");
                    reveal_strlit("compress");
                    reveal_strlit("large_threshold");
                    reveal_strlit("shard");
                    reveal_strlit("intents");
                    assert("token"@.len() == 5);
                    assert("properties"@.len() == 10);
                    assert("compress"@.len() == 8);
                    assert("large_threshold"@.len() == 15);
                    assert("shard"@.len() == 5);
                    assert("intents"@.len() == 7);
                    assert("token"@[0] != "shard"@[0]);
                }
                r
            },
            SendEventData::Resume { token, session_id, sequence } => {
                let mut fs: Vec<(String, JsonValue)> = Vec::new();
                push_field(&mut fs, "token", JsonValue::Text(token.clone()));
                push_field(&mut fs, "session_id", JsonValue::Text(session_id.clone()));
                push_field(&mut fs, "seq", JsonValue::UInt(*sequence));
                let r = JsonValue::Object(fs);
                proof {
                    reveal_strlit("token");
                    reveal_strlit("session_id");
                    reveal_strlit("seq");
                    assert("token"@.len() == 5);
                    assert("session_id"@.len() == 10);
                    assert("seq"@.len() == 3);
                }
                r
            },
        }
    }
}

impl Event {
    /// The wire value of this envelope on send: exactly `op` and `d`.
    pub fn to_json(&self) -> (r: JsonValue)
        ensures
            is_wire_envelope(r, self.op, self.send_data),
    {
        let d = match &self.send_data {
            Some(sd) => sd.to_json(),
            None => JsonValue::Null,
        };
        let mut fs: Vec<(String, JsonValue)> = Vec::new();
        push_field(&mut fs, "op", JsonValue::UInt(self.op.as_u8() as u64));
        push_field(&mut fs, "d", d);
        let r = JsonValue::Object(fs);
        proof {
            reveal_strlit("op");
            reveal_strlit("d");
            assert("op"@.len() == 2);
            assert("d"@.len() == 1);
        }
        r
    }
}

} // verus!
