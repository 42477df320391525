//! The user object carried inside a `READY` dispatch, with its flag and
//! subscription enumerations.

use vstd::prelude::*;

use crate::error::Error;
use crate::json::{
    opt_bool_ok, opt_bool_val, opt_text_ok, opt_text_val, opt_u64_ok, opt_u64_val, spec_get,
    JsonValue,
};

verus! {

/// Staff member of the gateway operator.
pub const STAFF: u64 = 1u64 << 0;
/// Partnered server owner.
pub const PARTNER: u64 = 1u64 << 1;
/// Events-programme member.
pub const HYPESQUAD: u64 = 1u64 << 2;
/// Bug hunter, first level.
pub const BUG_HUNTER_LEVEL_1: u64 = 1u64 << 3;
/// House of Bravery member.
pub const HYPESQUAD_BRAVERY: u64 = 1u64 << 6;
/// House of Brilliance member.
pub const HYPESQUAD_BRILLIANCE: u64 = 1u64 << 7;
/// House of Balance member.
pub const HYPESQUAD_BALANCE: u64 = 1u64 << 8;
/// Early supporter.
pub const EARLY_SUPPORTER: u64 = 1u64 << 9;
/// Team pseudo-user.
pub const TEAM_PSEUDO_USER: u64 = 1u64 << 10;
/// Bug hunter, second level.
pub const BUG_HUNTER_LEVEL_2: u64 = 1u64 << 14;
/// Verified bot.
pub const VERIFIED_BOT: u64 = 1u64 << 16;
/// Early verified bot developer.
pub const VERIFIED_DEVELOPER: u64 = 1u64 << 17;
/// Certified moderator.
pub const CERTIFICATED_MODERATOR: u64 = 1u64 << 18;
/// Bot that uses only HTTP interactions.
pub const BOT_HTTP_INTERACTIONS: u64 = 1u64 << 19;
/// Active developer.
pub const ACTIVE_DEVELOPER: u64 = 1u64 << 22;

/// Every defined user flag; unknown bits coming off the wire are dropped.
pub const ALL_USER_FLAGS: u64 = STAFF | PARTNER | HYPESQUAD | BUG_HUNTER_LEVEL_1
    | HYPESQUAD_BRAVERY | HYPESQUAD_BRILLIANCE | HYPESQUAD_BALANCE | EARLY_SUPPORTER
    | TEAM_PSEUDO_USER | BUG_HUNTER_LEVEL_2 | VERIFIED_BOT | VERIFIED_DEVELOPER
    | CERTIFICATED_MODERATOR | BOT_HTTP_INTERACTIONS | ACTIVE_DEVELOPER;

/// The public flags of a user, carried on the wire as raw bits.
#[derive(Debug, Clone, Copy, PartialEq, Eq, Structural, Hash)]
pub struct UserFlags {
    /// The raw bits.
    pub bits: u64,
}

impl UserFlags {
    /// The set holding exactly the defined bits of `bits`; undefined bits
    /// are dropped, as a forward-compatible read of the wire value.
    pub fn from_bits_truncate(bits: u64) -> (r: UserFlags)
        ensures
            r.bits == bits & ALL_USER_FLAGS,
    {
        UserFlags { bits: bits & ALL_USER_FLAGS }
    }

    /// The raw wire representation.
    pub fn bits(&self) -> (r: u64)
        ensures
            r == self.bits,
    {
        self.bits
    }
}

/// The paid-subscription tier of a user.
#[derive(Debug, Clone, Copy, PartialEq, Eq, Structural, Hash)]
pub enum PremiumType {
    /// No subscription.
    NotSubscribed,
    /// The classic tier.
    NitroClassic,
    /// The full tier.
    Nitro,
    /// The basic tier.
    NitroBasic,
}

/// The subscription tier a wire number names, if any.
pub open spec fn spec_premium(n: u64) -> Option<PremiumType> {
    if n == 0 {
        Some(PremiumType::NotSubscribed)
    } else if n == 1 {
        Some(PremiumType::NitroClassic)
    } else if n == 2 {
        Some(PremiumType::Nitro)
    } else if n == 3 {
        Some(PremiumType::NitroBasic)
    } else {
        None
    }
}

impl PremiumType {
    /// The tier a wire number names; `None` for a number the protocol does
    /// not define.
    pub fn from_u64(n: u64) -> (r: Option<PremiumType>)
        ensures
            r == spec_premium(n),
    {
        if n == 0 {
            Some(PremiumType::NotSubscribed)
        } else if n == 1 {
            Some(PremiumType::NitroClassic)
        } else if n == 2 {
            Some(PremiumType::Nitro)
        } else if n == 3 {
            Some(PremiumType::NitroBasic)
        } else {
            None
        }
    }
}

/// The avatar decoration of a user.
#[derive(Debug, Clone, PartialEq, Eq, Hash)]
pub struct AvatarDecoration {
    /// The decoration's asset hash.
    pub asset: String,
    /// The identifier of the decoration's stock-keeping unit.
    pub sku_id: u64,
}

/// A user, as the `READY` dispatch describes it. Only the fields below are
/// read; anything else in the wire object is ignored.
#[derive(Debug, Clone, PartialEq, Eq, Hash)]
pub struct User {
    /// The user's identifier.
    pub id: String,
    /// The user's name.
    pub username: String,
    /// The user's legacy four-digit tag.
    pub discriminator: String,
    /// The user's display name.
    pub global_name: Option<String>,
    /// The user's avatar hash.
    pub avatar: Option<String>,
    /// Whether the user is an automated client.
    pub bot: Option<bool>,
    /// Whether the user is a system user.
    pub system: Option<bool>,
    /// Whether two-factor authentication is enabled.
    pub mfa_enabled: Option<bool>,
    /// The user's banner hash.
    pub banner: Option<String>,
    /// The user's accent colour, as a packed integer.
    pub accent_color: Option<u32>,
    /// The user's two-letter language code.
    pub locale: Option<String>,
    /// Whether the account's email address is verified.
    pub verified: Option<bool>,
    /// The account's email address.
    pub email: Option<String>,
    /// The account's flags.
    pub flags: Option<UserFlags>,
    /// The account's subscription tier.
    pub premium_type: Option<PremiumType>,
    /// The account's public flags.
    pub public_flags: Option<UserFlags>,
    /// The account's avatar decoration.
    pub avatar_decoration_data: Option<AvatarDecoration>,
}

/// Whether an optional field can be read as an unsigned integer no larger
/// than `max`.
pub open spec fn opt_bounded_ok(f: Option<JsonValue>, max: u64) -> bool {
    opt_u64_ok(f) && match opt_u64_val(f) {
        Some(n) => n <= max,
        None => true,
    }
}

/// Whether an optional field can be read as a subscription tier.
pub open spec fn premium_ok(f: Option<JsonValue>) -> bool {
    opt_u64_ok(f) && match opt_u64_val(f) {
        Some(n) => spec_premium(n) is Some,
        None => true,
    }
}

/// The subscription tier an optional field holds.
pub open spec fn premium_val(f: Option<JsonValue>) -> Option<PremiumType> {
    match opt_u64_val(f) {
        Some(n) => spec_premium(n),
        None => None,
    }
}

/// The flag set an optional field holds, unknown bits dropped.
pub open spec fn flags_val(f: Option<JsonValue>) -> Option<UserFlags> {
    match opt_u64_val(f) {
        Some(n) => Some(UserFlags { bits: n & ALL_USER_FLAGS }),
        None => None,
    }
}

/// Whether `d` is a well-formed avatar-decoration object: a string `asset`
/// and an unsigned `sku_id`.
pub open spec fn decoration_obj_ok(d: JsonValue) -> bool {
    &&& spec_get(d, "asset"@) matches Some(JsonValue::Text(_))
    &&& spec_get(d, "sku_id"@) matches Some(JsonValue::UInt(_))
}

/// Whether an optional field can be read as an avatar decoration.
pub open spec fn decoration_ok(f: Option<JsonValue>) -> bool {
    match f {
        None => true,
        Some(JsonValue::Null) => true,
        Some(d) => d matches JsonValue::Object(_) && decoration_obj_ok(d),
    }
}

/// The decoration an optional field holds.
pub open spec fn decoration_matches(f: Option<JsonValue>, r: Option<AvatarDecoration>) -> bool {
    match f {
        Some(JsonValue::Object(fs)) => r matches Some(a) && spec_get(
            JsonValue::Object(fs),
            "asset"@,
        ) == Some(JsonValue::Text(a.asset)) && spec_get(JsonValue::Object(fs), "sku_id"@) == Some(
            JsonValue::UInt(a.sku_id),
        ),
        _ => r is None,
    }
}

/// Whether `d` is an object the user reader accepts.
pub open spec fn user_ok(d: JsonValue) -> bool {
    &&& spec_get(d, "id"@) matches Some(JsonValue::Text(_))
    &&& spec_get(d, "username"@) matches Some(JsonValue::Text(_))
    &&& spec_get(d, "discriminator"@) matches Some(JsonValue::Text(_))
    &&& opt_text_ok(spec_get(d, "global_name"@))
    &&& opt_text_ok(spec_get(d, "avatar"@))
    &&& opt_bool_ok(spec_get(d, "bot"@))
    &&& opt_bool_ok(spec_get(d, "system"@))
    &&& opt_bool_ok(spec_get(d, "mfa_enabled"@))
    &&& opt_text_ok(spec_get(d, "banner"@))
    &&& opt_bounded_ok(spec_get(d, "accent_color"@), u32::MAX as u64)
    &&& opt_text_ok(spec_get(d, "locale"@))
    &&& opt_bool_ok(spec_get(d, "verified"@))
    &&& opt_text_ok(spec_get(d, "email"@))
    &&& opt_u64_ok(spec_get(d, "flags"@))
    &&& premium_ok(spec_get(d, "premium_type"@))
    &&& opt_u64_ok(spec_get(d, "public_flags"@))
    &&& decoration_ok(spec_get(d, "avatar_decoration_data"@))
}

/// How a decoded user relates to the object it was read from.
pub open spec fn is_user(d: JsonValue, u: User) -> bool {
    &&& spec_get(d, "id"@) == Some(JsonValue::Text(u.id))
    &&& spec_get(d, "username"@) == Some(JsonValue::Text(u.username))
    &&& spec_get(d, "discriminator"@) == Some(JsonValue::Text(u.discriminator))
    &&& u.global_name == opt_text_val(spec_get(d, "global_name"@))
    &&& u.avatar == opt_text_val(spec_get(d, "avatar"@))
    &&& u.bot == opt_bool_val(spec_get(d, "bot"@))
    &&& u.system == opt_bool_val(spec_get(d, "system"@))
    &&& u.mfa_enabled == opt_bool_val(spec_get(d, "mfa_enabled"@))
    &&& u.banner == opt_text_val(spec_get(d, "banner"@))
    &&& u.accent_color == match opt_u64_val(spec_get(d, "accent_color"@)) {
        Some(n) => Some(n as u32),
        None => None::<u32>,
    }
    &&& u.locale == opt_text_val(spec_get(d, "locale"@))
    &&& u.verified == opt_bool_val(spec_get(d, "verified"@))
    &&& u.email == opt_text_val(spec_get(d, "email"@))
    &&& u.flags == flags_val(spec_get(d, "flags"@))
    &&& u.premium_type == premium_val(spec_get(d, "premium_type"@))
    &&& u.public_flags == flags_val(spec_get(d, "public_flags"@))
    &&& decoration_matches(spec_get(d, "avatar_decoration_data"@), u.avatar_decoration_data)
}

impl AvatarDecoration {
    /// Reads an avatar decoration from its wire object.
    pub fn from_json(d: &JsonValue) -> (r: Result<AvatarDecoration, Error>)
        ensures
            r is Ok <==> decoration_obj_ok(*d),
            r matches Ok(a) ==> spec_get(*d, "asset"@) == Some(JsonValue::Text(a.asset))
                && spec_get(*d, "sku_id"@) == Some(JsonValue::UInt(a.sku_id)),
            r matches Err(e) ==> e == Error::Decode,
    {
        let asset = match d.field_text("asset") {
            Ok(v) => v,
            Err(e) => {
                return Err(e);
            },
        };
        let sku_id = match d.field_u64("sku_id") {
            Ok(v) => v,
            Err(e) => {
                return Err(e);
            },
        };
        Ok(AvatarDecoration { asset, sku_id })
    }
}

impl User {
    /// Reads a user from its wire object: the identifying strings are
    /// required, everything else is optional, and a present field of the
    /// wrong shape is a decode failure.
    pub fn from_json(d: &JsonValue) -> (r: Result<User, Error>)
        ensures
            r is Ok <==> user_ok(*d),
            r matches Ok(u) ==> is_user(*d, u),
            r matches Err(e) ==> e == Error::Decode,
    {
        let id = match d.field_text("id") {
            Ok(v) => v,
            Err(e) => {
                return Err(e);
            },
        };
        let username = match d.field_text("username") {
            Ok(v) => v,
            Err(e) => {
                return Err(e);
            },
        };
        let discriminator = match d.field_text("discriminator") {
            Ok(v) => v,
            Err(e) => {
                return Err(e);
            },
        };
        let global_name = match d.field_text_opt("global_name") {
            Ok(v) => v,
            Err(e) => {
                return Err(e);
            },
        };
        let avatar = match d.field_text_opt("avatar") {
            Ok(v) => v,
            Err(e) => {
                return Err(e);
            },
        };
        let bot = match d.field_bool_opt("bot") {
            Ok(v) => v,
            Err(e) => {
                return Err(e);
            },
        };
        let system = match d.field_bool_opt("system") {
            Ok(v) => v,
            Err(e) => {
                return Err(e);
            },
        };
        let mfa_enabled = match d.field_bool_opt("mfa_enabled") {
            Ok(v) => v,
            Err(e) => {
                return Err(e);
            },
        };
        let banner = match d.field_text_opt("banner") {
            Ok(v) => v,
            Err(e) => {
                return Err(e);
            },
        };
        let accent_raw = match d.field_u64_opt("accent_color") {
            Ok(v) => v,
            Err(e) => {
                return Err(e);
            },
        };
        let accent_color: Option<u32> = match accent_raw {
            Some(n) => {
                if n <= u32::MAX as u64 {
                    Some(n as u32)
                } else {
                    return Err(Error::Decode);
                }
            },
            None => None,
        };
        let locale = match d.field_text_opt("locale") {
            Ok(v) => v,
            Err(e) => {
                return Err(e);
            },
        };
        let verified = match d.field_bool_opt("verified") {
            Ok(v) => v,
            Err(e) => {
                return Err(e);
            },
        };
        let email = match d.field_text_opt("email") {
            Ok(v) => v,
            Err(e) => {
                return Err(e);
            },
        };
        let flags_raw = match d.field_u64_opt("flags") {
            Ok(v) => v,
            Err(e) => {
                return Err(e);
            },
        };
        let flags = match flags_raw {
            Some(n) => Some(UserFlags::from_bits_truncate(n)),
            None => None,
        };
        let premium_raw = match d.field_u64_opt("premium_type") {
            Ok(v) => v,
            Err(e) => {
                return Err(e);
            },
        };
        let premium_type = match premium_raw {
            Some(n) => match PremiumType::from_u64(n) {
                Some(p) => Some(p),
                None => {
                    return Err(Error::Decode);
                },
            },
            None => None,
        };
        let public_raw = match d.field_u64_opt("public_flags") {
            Ok(v) => v,
            Err(e) => {
                return Err(e);
            },
        };
        let public_flags = match public_raw {
            Some(n) => Some(UserFlags::from_bits_truncate(n)),
            None => None,
        };
        let avatar_decoration_data = match d.get("avatar_decoration_data") {
            None => None,
            Some(v) => match v {
                JsonValue::Null => None,
                JsonValue::Object(_) => match AvatarDecoration::from_json(v) {
                    Ok(a) => Some(a),
                    Err(e) => {
                        return Err(e);
                    },
                },
                _ => {
                    return Err(Error::Decode);
                },
            },
        };
        Ok(
            User {
                id,
                username,
                discriminator,
                global_name,
                avatar,
                bot,
                system,
                mfa_enabled,
                banner,
                accent_color,
                locale,
                verified,
                email,
                flags,
                premium_type,
                public_flags,
                avatar_decoration_data,
            },
        )
    }
}

} // verus!
