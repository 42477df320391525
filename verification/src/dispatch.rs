//! Named dispatch events: the application-level notifications the gateway
//! pushes under the dispatch opcode, keyed by the envelope's event name.

use vstd::prelude::*;

use crate::error::Error;
use crate::guild::{guilds_ok, is_guilds, parse_guild_list, UnavailableGuild};
use crate::json::{spec_get, str_eq, JsonValue};
use crate::user::{is_user, user_ok, User};

verus! {

/// The initial state snapshot: the first dispatch of a fresh session.
#[derive(Debug, Clone, PartialEq, Eq, Hash)]
pub struct ReadyEvent {
    /// The protocol version the remote end answered with.
    pub v: u16,
    /// The current user.
    pub user: User,
    /// The guilds the user is in, not yet populated.
    pub guilds: Vec<UnavailableGuild>,
    /// The token of this session, quoted when resuming it.
    pub session_id: String,
    /// Where to reconnect to when resuming this session.
    pub resume_gateway_url: String,
    /// The shard pair this session was identified with, if any.
    pub shard: Option<(u64, u64)>,
}

/// A guild became available or was joined. The payload is not read.
#[derive(Debug, Clone, PartialEq, Eq, Structural, Hash)]
pub struct GuildCreateEvent {}

/// A guild was updated. The payload is not read.
#[derive(Debug, Clone, PartialEq, Eq, Structural, Hash)]
pub struct GuildUpdateEvent {}

/// A guild became unavailable or was left. The payload is not read.
#[derive(Debug, Clone, PartialEq, Eq, Structural, Hash)]
pub struct GuildDeleteEvent {}

/// A dispatch, keyed by the envelope's event name. Only `Ready` and
/// `Resumed` move the connection state machine; the rest are surfaced to
/// the caller.
#[derive(Debug, Clone, PartialEq, Eq, Hash)]
pub enum DispatchEvent {
    /// The `READY` snapshot of a fresh session.
    Ready(ReadyEvent),
    /// The `RESUMED` acknowledgment of a replayed session.
    Resumed,
    /// A `GUILD_CREATE` notification.
    GuildCreate(GuildCreateEvent),
    /// A `GUILD_UPDATE` notification.
    GuildUpdate(GuildUpdateEvent),
    /// A `GUILD_DELETE` notification.
    GuildDelete(GuildDeleteEvent),
}

/// Whether an optional field can be read as a shard pair: absent, `null`,
/// or an array of exactly two unsigned integers.
pub open spec fn shard_pair_ok(f: Option<JsonValue>) -> bool {
    match f {
        None => true,
        Some(JsonValue::Null) => true,
        Some(JsonValue::Array(items)) => items@.len() == 2 && (items@[0] matches JsonValue::UInt(
            _,
        )) && (items@[1] matches JsonValue::UInt(_)),
        _ => false,
    }
}

/// The shard pair an optional field holds.
pub open spec fn shard_pair_val(f: Option<JsonValue>) -> Option<(u64, u64)> {
    match f {
        Some(JsonValue::Array(items)) => {
            if items@.len() == 2 {
                match (items@[0], items@[1]) {
                    (JsonValue::UInt(a), JsonValue::UInt(b)) => Some((a, b)),
                    _ => None,
                }
            } else {
                None
            }
        },
        _ => None,
    }
}

/// Whether `d` is an object the `READY` reader accepts.
pub open spec fn ready_ok(d: JsonValue) -> bool {
    &&& match spec_get(d, "v"@) {
        Some(JsonValue::UInt(n)) => n <= u16::MAX as u64,
        _ => false,
    }
    &&& match spec_get(d, "user"@) {
        Some(u) => user_ok(u),
        None => false,
    }
    &&& guilds_ok(spec_get(d, "guilds"@))
    &&& spec_get(d, "session_id"@) matches Some(JsonValue::Text(_))
    &&& spec_get(d, "resume_gateway_url"@) matches Some(JsonValue::Text(_))
    &&& shard_pair_ok(spec_get(d, "shard"@))
}

/// How a decoded `READY` relates to the object it was read from.
pub open spec fn is_ready(d: JsonValue, r: ReadyEvent) -> bool {
    &&& spec_get(d, "v"@) == Some(JsonValue::UInt(r.v as u64))
    &&& match spec_get(d, "user"@) {
        Some(u) => is_user(u, r.user),
        None => false,
    }
    &&& is_guilds(spec_get(d, "guilds"@), r.guilds@)
    &&& spec_get(d, "session_id"@) == Some(JsonValue::Text(r.session_id))
    &&& spec_get(d, "resume_gateway_url"@) == Some(JsonValue::Text(r.resume_gateway_url))
    &&& r.shard == shard_pair_val(spec_get(d, "shard"@))
}

impl ReadyEvent {
    /// Reads a `READY` snapshot from the `d` object of its envelope.
    pub fn from_json(d: &JsonValue) -> (r: Result<ReadyEvent, Error>)
        ensures
            r is Ok <==> ready_ok(*d),
            r matches Ok(ev) ==> is_ready(*d, ev),
            r matches Err(e) ==> e == Error::Decode,
    {
        let version_raw = match d.field_u64("v") {
            Ok(n) => n,
            Err(e) => {
                return Err(e);
            },
        };
        if version_raw > u16::MAX as u64 {
            return Err(Error::Decode);
        }
        let user = match d.get("user") {
            Some(u) => match User::from_json(u) {
                Ok(u) => u,
                Err(e) => {
                    return Err(e);
                },
            },
            None => {
                return Err(Error::Decode);
            },
        };
        let guilds = match d.get("guilds") {
            Some(g) => match parse_guild_list(g) {
                Ok(gs) => gs,
                Err(e) => {
                    return Err(e);
                },
            },
            None => {
                return Err(Error::Decode);
            },
        };
        let session_id = match d.field_text("session_id") {
            Ok(s) => s,
            Err(e) => {
                return Err(e);
            },
        };
        let resume_gateway_url = match d.field_text("resume_gateway_url") {
            Ok(s) => s,
            Err(e) => {
                return Err(e);
            },
        };
        let shard: Option<(u64, u64)> = match d.get("shard") {
            None => None,
            Some(v) => match v {
                JsonValue::Null => None,
                JsonValue::Array(items) => {
                    if items.len() != 2 {
                        return Err(Error::Decode);
                    }
                    let a = match &items[0] {
                        JsonValue::UInt(a) => *a,
                        _ => {
                            return Err(Error::Decode);
                        },
                    };
                    let b = match &items[1] {
                        JsonValue::UInt(b) => *b,
                        _ => {
                            return Err(Error::Decode);
                        },
                    };
                    Some((a, b))
                },
                _ => {
                    return Err(Error::Decode);
                },
            },
        };
        Ok(
            ReadyEvent {
                v: version_raw as u16,
                user,
                guilds,
                session_id,
                resume_gateway_url,
                shard,
            },
        )
    }
}

/// Whether the envelope `v` carries a dispatch the reader accepts: the
/// event name must be a known one and the `d` payload of its shape.
pub open spec fn dispatch_ok(v: JsonValue) -> bool {
    match spec_get(v, "t"@) {
        Some(JsonValue::Text(nm)) => {
            if nm@ == "READY"@ {
                match spec_get(v, "d"@) {
                    Some(d) => ready_ok(d),
                    None => false,
                }
            } else if nm@ == "RESUMED"@ {
                match spec_get(v, "d"@) {
                    None => true,
                    Some(JsonValue::Null) => true,
                    Some(_) => false,
                }
            } else if nm@ == "GUILD_CREATE"@ || nm@ == "GUILD_UPDATE"@ || nm@ == "GUILD_DELETE"@ {
                spec_get(v, "d"@) matches Some(JsonValue::Object(_))
            } else {
                false
            }
        },
        _ => false,
    }
}

/// How a decoded dispatch relates to the envelope it was read from.
pub open spec fn is_dispatch(v: JsonValue, ev: DispatchEvent) -> bool {
    match spec_get(v, "t"@) {
        Some(JsonValue::Text(nm)) => {
            if nm@ == "READY"@ {
                ev matches DispatchEvent::Ready(r) && match spec_get(v, "d"@) {
                    Some(d) => is_ready(d, r),
                    None => false,
                }
            } else if nm@ == "RESUMED"@ {
                ev == DispatchEvent::Resumed
            } else if nm@ == "GUILD_CREATE"@ {
                ev == DispatchEvent::GuildCreate(GuildCreateEvent {  })
            } else if nm@ == "GUILD_UPDATE"@ {
                ev == DispatchEvent::GuildUpdate(GuildUpdateEvent {  })
            } else if nm@ == "GUILD_DELETE"@ {
                ev == DispatchEvent::GuildDelete(GuildDeleteEvent {  })
            } else {
                false
            }
        },
        _ => false,
    }
}

impl DispatchEvent {
    /// Reads a dispatch from its whole envelope: the name under `t`, the
    /// payload under `d`. An unrecognized name is a decode failure.
    pub fn from_envelope(v: &JsonValue) -> (r: Result<DispatchEvent, Error>)
        ensures
            r is Ok <==> dispatch_ok(*v),
            r matches Ok(ev) ==> is_dispatch(*v, ev),
            r matches Err(e) ==> e == Error::Decode,
    {
        let name = match v.field_text("t") {
            Ok(s) => s,
            Err(e) => {
                return Err(e);
            },
        };
        if str_eq(name.as_str(), "READY") {
            match v.get("d") {
                Some(d) => match ReadyEvent::from_json(d) {
                    Ok(rd) => Ok(DispatchEvent::Ready(rd)),
                    Err(e) => Err(e),
                },
                None => Err(Error::Decode),
            }
        } else if str_eq(name.as_str(), "RESUMED") {
            match v.get("d") {
                None => Ok(DispatchEvent::Resumed),
                Some(d) => match d {
                    JsonValue::Null => Ok(DispatchEvent::Resumed),
                    _ => Err(Error::Decode),
                },
            }
        } else if str_eq(name.as_str(), "GUILD_CREATE") {
            match v.get("d") {
                Some(d) => match d {
                    JsonValue::Object(_) => Ok(DispatchEvent::GuildCreate(GuildCreateEvent {  })),
                    _ => Err(Error::Decode),
                },
                None => Err(Error::Decode),
            }
        } else if str_eq(name.as_str(), "GUILD_UPDATE") {
            match v.get("d") {
                Some(d) => match d {
                    JsonValue::Object(_) => Ok(DispatchEvent::GuildUpdate(GuildUpdateEvent {  })),
                    _ => Err(Error::Decode),
                },
                None => Err(Error::Decode),
            }
        } else if str_eq(name.as_str(), "GUILD_DELETE") {
            match v.get("d") {
                Some(d) => match d {
                    JsonValue::Object(_) => Ok(DispatchEvent::GuildDelete(GuildDeleteEvent {  })),
                    _ => Err(Error::Decode),
                },
                None => Err(Error::Decode),
            }
        } else {
            Err(Error::Decode)
        }
    }
}

} // verus!
