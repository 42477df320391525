//! The partial guild objects announced by a `READY` dispatch.

use vstd::prelude::*;

use crate::error::Error;
use crate::json::{spec_get, JsonValue};

verus! {

/// A guild the session belongs to but has no data for yet; fuller data
/// arrives through later dispatches.
#[derive(Debug, Clone, PartialEq, Eq, Hash)]
pub struct UnavailableGuild {
    /// The guild's identifier.
    pub id: String,
    /// Whether the guild is unavailable; the wire always says it is.
    pub unavailable: bool,
}

/// Whether `v` is an object the guild reader accepts.
pub open spec fn guild_ok(v: JsonValue) -> bool {
    &&& spec_get(v, "id"@) matches Some(JsonValue::Text(_))
    &&& spec_get(v, "unavailable"@) matches Some(JsonValue::Bool(_))
}

/// How a decoded guild relates to the object it was read from.
pub open spec fn is_guild(v: JsonValue, g: UnavailableGuild) -> bool {
    &&& spec_get(v, "id"@) == Some(JsonValue::Text(g.id))
    &&& spec_get(v, "unavailable"@) == Some(JsonValue::Bool(g.unavailable))
}

/// Whether `f` is an array of well-formed guild objects.
pub open spec fn guilds_ok(f: Option<JsonValue>) -> bool {
    match f {
        Some(JsonValue::Array(items)) => forall|i: int|
            0 <= i < items@.len() ==> guild_ok(#[trigger] items@[i]),
        _ => false,
    }
}

/// How a decoded guild list relates to the array it was read from.
pub open spec fn is_guilds(f: Option<JsonValue>, gs: Seq<UnavailableGuild>) -> bool {
    match f {
        Some(JsonValue::Array(items)) => gs.len() == items@.len() && forall|i: int|
            0 <= i < items@.len() ==> is_guild(#[trigger] items@[i], gs[i]),
        _ => false,
    }
}

impl UnavailableGuild {
    /// Reads one guild from its wire object.
    pub fn from_json(v: &JsonValue) -> (r: Result<UnavailableGuild, Error>)
        ensures
            r is Ok <==> guild_ok(*v),
            r matches Ok(g) ==> is_guild(*v, g),
            r matches Err(e) ==> e == Error::Decode,
    {
        let id = match v.field_text("id") {
            Ok(s) => s,
            Err(e) => {
                return Err(e);
            },
        };
        let unavailable = match v.field_bool("unavailable") {
            Ok(b) => b,
            Err(e) => {
                return Err(e);
            },
        };
        Ok(UnavailableGuild { id, unavailable })
    }
}

/// Reads the elements of a guild array.
fn parse_guild_items(items: &Vec<JsonValue>) -> (r: Result<Vec<UnavailableGuild>, Error>)
    ensures
        r is Ok <==> (forall|i: int| 0 <= i < items@.len() ==> guild_ok(#[trigger] items@[i])),
        r matches Ok(gs) ==> gs@.len() == items@.len() && (forall|i: int|
            0 <= i < items@.len() ==> is_guild(#[trigger] items@[i], gs@[i])),
        r matches Err(e) ==> e == Error::Decode,
{
    let n = items.len();
    let mut out: Vec<UnavailableGuild> = Vec::new();
    let mut i: usize = 0;
    while i < n
        invariant
            n == items@.len(),
            0 <= i <= n,
            out@.len() == i,
            forall|k: int|
                0 <= k < i ==> guild_ok(#[trigger] items@[k]) && is_guild(items@[k], out@[k]),
        decreases n - i,
    {
        match UnavailableGuild::from_json(&items[i]) {
            Ok(g) => out.push(g),
            Err(e) => {
                return Err(e);
            },
        }
        i += 1;
    }
    Ok(out)
}

/// Reads the guild list of a `READY` dispatch: `v` must be an array and
/// every element a well-formed guild object.
pub fn parse_guild_list(v: &JsonValue) -> (r: Result<Vec<UnavailableGuild>, Error>)
    ensures
        r is Ok <==> guilds_ok(Some(*v)),
        r matches Ok(gs) ==> is_guilds(Some(*v), gs@),
        r matches Err(e) ==> e == Error::Decode,
{
    match v {
        JsonValue::Array(items) => parse_guild_items(items),
        _ => Err(Error::Decode),
    }
}

} // verus!
