//! Intent bitmasks: a client-declared set of event categories, carried on
//! the wire as a raw 32-bit integer.

use vstd::prelude::*;

verus! {

/// Guild lifecycle events (channels, threads, roles, stage instances).
pub const GUILDS: u32 = 1u32 << 0;
/// Guild member add/update/remove events. Privileged.
pub const GUILD_MEMBERS: u32 = 1u32 << 1;
/// Audit-log and ban events.
pub const GUILD_MODERATION: u32 = 1u32 << 2;
/// Emoji, sticker and soundboard catalogue updates.
pub const GUILD_EXPRESSIONS: u32 = 1u32 << 3;
/// Integration lifecycle events.
pub const GUILD_INTEGRATIONS: u32 = 1u32 << 4;
/// Webhook updates.
pub const GUILD_WEBHOOKS: u32 = 1u32 << 5;
/// Invite create/delete events.
pub const GUILD_INVITES: u32 = 1u32 << 6;
/// Voice state updates and channel effects.
pub const GUILD_VOICE_STATES: u32 = 1u32 << 7;
/// Presence updates. Privileged.
pub const GUILD_PRESENCES: u32 = 1u32 << 8;
/// Message lifecycle events in guild channels.
pub const GUILD_MESSAGES: u32 = 1u32 << 9;
/// Reaction events in guild channels.
pub const GUILD_MESSAGE_REACTIONS: u32 = 1u32 << 10;
/// Typing notifications in guild channels.
pub const GUILD_MESSAGE_TYPING: u32 = 1u32 << 11;
/// Message lifecycle events in direct messages.
pub const DIRECT_MESSAGES: u32 = 1u32 << 12;
/// Reaction events in direct messages.
pub const DIRECT_MESSAGE_REACTIONS: u32 = 1u32 << 13;
/// Typing notifications in direct messages.
pub const DIRECT_MESSAGE_TYPING: u32 = 1u32 << 14;
/// Access to message content. Privileged.
pub const MESSAGE_CONTENT: u32 = 1u32 << 15;
/// Scheduled-event lifecycle events.
pub const GUILD_SCHEDULED_EVENTS: u32 = 1u32 << 16;
/// Auto-moderation rule configuration events.
pub const AUTO_MODERATION_CONFIGURATION: u32 = 1u32 << 20;
/// Auto-moderation action execution events.
pub const AUTO_MODERATION_EXECUTION: u32 = 1u32 << 21;
/// Poll vote events in guild channels.
pub const GUILD_MESSAGE_POLLS: u32 = 1u32 << 24;
/// Poll vote events in direct messages.
pub const DIRECT_MESSAGE_POLLS: u32 = 1u32 << 25;

/// Every intent bit the gateway defines; all other bits are meaningless on
/// the wire and are dropped by the set operations below.
pub const ALL_INTENTS: u32 = GUILDS | GUILD_MEMBERS | GUILD_MODERATION | GUILD_EXPRESSIONS
    | GUILD_INTEGRATIONS | GUILD_WEBHOOKS | GUILD_INVITES | GUILD_VOICE_STATES | GUILD_PRESENCES
    | GUILD_MESSAGES | GUILD_MESSAGE_REACTIONS | GUILD_MESSAGE_TYPING | DIRECT_MESSAGES
    | DIRECT_MESSAGE_REACTIONS | DIRECT_MESSAGE_TYPING | MESSAGE_CONTENT | GUILD_SCHEDULED_EVENTS
    | AUTO_MODERATION_CONFIGURATION | AUTO_MODERATION_EXECUTION | GUILD_MESSAGE_POLLS
    | DIRECT_MESSAGE_POLLS;

/// The intents that require explicit approval from the gateway operator.
pub const PRIVILEGED_INTENTS: u32 = GUILD_MEMBERS | GUILD_PRESENCES | MESSAGE_CONTENT;

/// A set of intents, serialized on the wire as its raw bits.
#[derive(Debug, Clone, Copy, PartialEq, Eq, Structural, Hash)]
pub struct GatewayIntents {
    bits: u32,
}

impl GatewayIntents {
    /// The set holding exactly the defined bits of `bits`; undefined bits
    /// are dropped.
    pub fn from_bits_truncate(bits: u32) -> (r: GatewayIntents)
        ensures
            r.spec_bits() == bits & ALL_INTENTS,
    {
        GatewayIntents { bits: bits & ALL_INTENTS }
    }

    /// The raw wire representation of this set.
    pub fn bits(&self) -> (r: u32)
        ensures
            r == self.spec_bits(),
    {
        self.bits
    }

    /// The raw bits, as seen by specifications.
    pub closed spec fn spec_bits(&self) -> u32 {
        self.bits
    }

    /// The empty set of intents.
    pub fn empty() -> (r: GatewayIntents)
        ensures
            r.spec_bits() == 0u32,
    {
        GatewayIntents { bits: 0 }
    }

    /// Set union.
    pub fn union(self, other: GatewayIntents) -> (r: GatewayIntents)
        ensures
            r.spec_bits() == self.spec_bits() | other.spec_bits(),
    {
        GatewayIntents { bits: self.bits | other.bits }
    }

    /// Set complement, relative to the defined intents.
    pub fn complement(self) -> (r: GatewayIntents)
        ensures
            r.spec_bits() == !self.spec_bits() & ALL_INTENTS,
    {
        GatewayIntents { bits: !self.bits & ALL_INTENTS }
    }

    /// Whether every intent in `other` is also in `self`.
    pub fn contains(self, other: GatewayIntents) -> (r: bool)
        ensures
            r == (self.spec_bits() & other.spec_bits() == other.spec_bits()),
    {
        self.bits & other.bits == other.bits
    }

    /// The three privileged intents.
    pub fn privileged() -> (r: GatewayIntents)
        ensures
            r.spec_bits() == PRIVILEGED_INTENTS,
    {
        GatewayIntents { bits: PRIVILEGED_INTENTS }
    }

    /// Every defined intent that is not privileged.
    pub fn non_privileged() -> (r: GatewayIntents)
        ensures
            r.spec_bits() == !PRIVILEGED_INTENTS & ALL_INTENTS,
    {
        GatewayIntents::privileged().complement()
    }
}

impl Default for GatewayIntents {
    /// The default set is every non-privileged intent.
    fn default() -> (r: GatewayIntents)
        ensures
            r.spec_bits() == !PRIVILEGED_INTENTS & ALL_INTENTS,
    {
        GatewayIntents::non_privileged()
    }
}

} // verus!
