//! Permission bit sets.

use vstd::prelude::*;
use vstd::string::*;
use crate::text::{decimal, parse_u64, parse_u64_spec, u64_to_string};

verus! {

pub const CREATE_INSTANT_INVITE: u64 = 0x1;

pub const KICK_MEMBERS: u64 = 0x2;

pub const BAN_MEMBERS: u64 = 0x4;

pub const ADMINISTRATOR: u64 = 0x8;

pub const MANAGE_CHANNELS: u64 = 0x10;

pub const MANAGE_GUILD: u64 = 0x20;

pub const ADD_REACTIONS: u64 = 0x40;

pub const VIEW_AUDIT_LOG: u64 = 0x80;

pub const PRIORITY_SPEAKER: u64 = 0x100;

pub const STREAM: u64 = 0x200;

pub const VIEW_CHANNEL: u64 = 0x400;

pub const SEND_MESSAGES: u64 = 0x800;

pub const SEND_TTS_MESSAGES: u64 = 0x1000;

pub const MANAGE_MESSAGES: u64 = 0x2000;

pub const EMBED_LINKS: u64 = 0x4000;

pub const ATTACH_FILES: u64 = 0x8000;

pub const READ_MESSAGE_HISTORY: u64 = 0x1_0000;

pub const MENTION_EVERYONE: u64 = 0x2_0000;

pub const USE_EXTERNAL_EMOJIS: u64 = 0x4_0000;

pub const VIEW_GUILD_INSIGHTS: u64 = 0x8_0000;

pub const CONNECT: u64 = 0x10_0000;

pub const SPEAK: u64 = 0x20_0000;

pub const MUTE_MEMBERS: u64 = 0x40_0000;

pub const DEAFEN_MEMBERS: u64 = 0x80_0000;

pub const MOVE_MEMBERS: u64 = 0x100_0000;

pub const USE_VAD: u64 = 0x200_0000;

pub const CHANGE_NICKNAME: u64 = 0x400_0000;

pub const MANAGE_NICKNAMES: u64 = 0x800_0000;

pub const MANAGE_ROLES: u64 = 0x1000_0000;

pub const MANAGE_WEBHOOKS: u64 = 0x2000_0000;

pub const MANAGE_GUILD_EXPRESSIONS: u64 = 0x4000_0000;

pub const USE_APPLICATION_COMMANDS: u64 = 0x8000_0000;

pub const REQUEST_TO_SPEAK: u64 = 0x1_0000_0000;

pub const MANAGE_EVENTS: u64 = 0x2_0000_0000;

pub const MANAGE_THREADS: u64 = 0x4_0000_0000;

pub const CREATE_PUBLIC_THREADS: u64 = 0x8_0000_0000;

pub const CREATE_PRIVATE_THREADS: u64 = 0x10_0000_0000;

pub const USE_EXTERNAL_STICKERS: u64 = 0x20_0000_0000;

pub const SEND_MESSAGES_IN_THREADS: u64 = 0x40_0000_0000;

pub const USE_EMBEDDED_ACTIVITIES: u64 = 0x80_0000_0000;

pub const MODERATE_MEMBERS: u64 = 0x100_0000_0000;

pub const VIEW_CREATOR_MONETIZATION_ANALYTICS: u64 = 0x200_0000_0000;

pub const USE_SOUNDBOARD: u64 = 0x400_0000_0000;

pub const CREATE_GUILD_EXPRESSIONS: u64 = 0x800_0000_0000;

pub const CREATE_EVENTS: u64 = 0x1000_0000_0000;

pub const USE_EXTERNAL_SOUNDS: u64 = 0x2000_0000_0000;

pub const SEND_VOICE_MESSAGES: u64 = 0x4000_0000_0000;

pub const SEND_POLLS: u64 = 0x2_0000_0000_0000;

pub const USE_EXTERNAL_APPS: u64 = 0x4_0000_0000_0000;

/// A set of permissions, one bit each. Bits that stand for no permission
/// known here are kept as they are.
#[derive(Debug, Clone, Copy, PartialEq, Eq, Hash, Structural)]
pub struct Permissions {
    bits: u64,
}

impl Permissions {
    /// The bits of the set.
    pub closed spec fn spec_bits(self) -> u64 {
        self.bits
    }

    /// The set with no permission.
    pub fn empty() -> (p: Permissions)
        ensures
            p.spec_bits() == 0,
    {
        Permissions { bits: 0 }
    }

    /// The set with exactly the given bits.
    pub fn from_bits_retain(bits: u64) -> (p: Permissions)
        ensures
            p.spec_bits() == bits,
    {
        Permissions { bits }
    }

    /// The bits of the set.
    pub fn bits(self) -> (bits: u64)
        ensures
            bits == self.spec_bits(),
    {
        self.bits
    }

    /// Whether the set holds nothing.
    pub fn is_empty(self) -> (b: bool)
        ensures
            b == (self.spec_bits() == 0),
    {
        self.bits == 0
    }

    /// Whether every permission of `other` is in the set.
    pub fn contains(self, other: Permissions) -> (b: bool)
        ensures
            b == (self.spec_bits() & other.spec_bits() == other.spec_bits()),
    {
        self.bits & other.bits == other.bits
    }

    /// The permissions of either set.
    pub fn union(self, other: Permissions) -> (p: Permissions)
        ensures
            p.spec_bits() == self.spec_bits() | other.spec_bits(),
    {
        Permissions { bits: self.bits | other.bits }
    }

    /// The permissions of both sets.
    pub fn intersection(self, other: Permissions) -> (p: Permissions)
        ensures
            p.spec_bits() == self.spec_bits() & other.spec_bits(),
    {
        Permissions { bits: self.bits & other.bits }
    }

    /// Reads a set from its bits written in decimal, as the API writes them.
    /// `None` where the text is no number of 64 bits.
    pub fn from_bits_string(bits: &str) -> (p: Option<Permissions>)
        ensures
            match parse_u64_spec(bits@) {
                Some(b) => p matches Some(set) && set.spec_bits() == b,
                None => p is None,
            },
    {
        match parse_u64(bits) {
            Some(b) => Some(Permissions { bits: b }),
            None => None,
        }
    }

    /// Writes the bits of the set in decimal, as the API reads them.
    pub fn to_bits_string(self) -> (s: String)
        ensures
            s@ == decimal(self.spec_bits() as nat),
    {
        u64_to_string(self.bits)
    }
}

/// Whom a permission overwrite is for.
#[derive(Debug, Clone, Copy, PartialEq, Eq, Hash, Structural)]
pub enum PermissionOverwriteType {
    Role,
    Member,
}

impl PermissionOverwriteType {
    /// The number that stands for the kind on the wire.
    pub fn code(self) -> (c: u8)
        ensures
            c == (if self is Role { 0u8 } else { 1u8 }),
    {
        match self {
            PermissionOverwriteType::Role => 0,
            PermissionOverwriteType::Member => 1,
        }
    }
}

/// What a channel allows or denies one role or member, over what their roles
/// give them.
#[derive(Debug, Clone)]
pub struct PermissionOverwrite {
    pub id: String,
    pub kind: PermissionOverwriteType,
    pub allow: Permissions,
    pub deny: Permissions,
}

} // verus!
