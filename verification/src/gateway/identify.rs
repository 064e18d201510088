//! The payload that opens a fresh session.

use vstd::prelude::*;
use vstd::string::*;

verus! {

/// What the client tells the gateway about itself when it identifies.
#[derive(Debug, Clone)]
pub struct ConnectionProperties {
    pub os: String,
    pub browser: String,
    pub device: String,
    pub system_locale: String,
    pub browser_version: String,
    pub os_version: String,
    pub referrer: String,
    pub referring_domain: String,
    pub release_channel: String,
    pub client_build_number: u32,
}

impl ConnectionProperties {
    /// The properties that the client sends unless told otherwise.
    pub fn default_client() -> (p: ConnectionProperties)
        ensures
            p.os@ == "Mac OS X"@,
            p.browser@ == "Discord Client"@,
            p.device@ == ""@,
            p.system_locale@ == "en-US"@,
            p.browser_version@ == "27.0.0"@,
            p.os_version@ == "14.0.0"@,
            p.referrer@ == ""@,
            p.referring_domain@ == ""@,
            p.release_channel@ == "stable"@,
            p.client_build_number == 275530,
    {
        ConnectionProperties {
            os: String::from_str("Mac OS X"),
            browser: String::from_str("Discord Client"),
            device: String::from_str(""),
            system_locale: String::from_str("en-US"),
            browser_version: String::from_str("27.0.0"),
            os_version: String::from_str("14.0.0"),
            referrer: String::from_str(""),
            referring_domain: String::from_str(""),
            release_channel: String::from_str("stable"),
            client_build_number: 275530,
        }
    }
}

/// One thing that the user is shown to be doing.
#[derive(Debug, Clone)]
pub struct Activity {
    pub name: String,
    /// 0 playing, 1 streaming, 2 listening, 3 watching.
    pub kind: u8,
    pub url: Option<String>,
}

/// The presence that a session starts with.
#[derive(Debug, Clone)]
pub struct PresenceUpdate {
    pub status: String,
    pub since: Option<u64>,
    pub activities: Vec<Activity>,
    pub afk: bool,
}

impl PresenceUpdate {
    /// Online, not away, doing nothing.
    pub fn online() -> (p: PresenceUpdate)
        ensures
            p.status@ == "online"@,
            p.since is None,
            p.activities@.len() == 0,
            !p.afk,
    {
        PresenceUpdate {
            status: String::from_str("online"),
            since: None,
            activities: Vec::new(),
            afk: false,
        }
    }
}

impl Default for PresenceUpdate {
    fn default() -> (p: PresenceUpdate)
        ensures
            p.status@ == "online"@,
            p.since is None,
            p.activities@.len() == 0,
            !p.afk,
    {
        PresenceUpdate::online()
    }
}

/// Every intent that needs no privilege.
pub const ALL_UNPRIVILEGED_INTENTS: u32 = 3276799;

/// The capability flags of a standard client.
pub const STANDARD_CAPABILITIES: u32 = 16381;

/// The payload of opcode 2: credentials and what the client can do.
#[derive(Debug, Clone)]
pub struct Identify {
    pub token: String,
    pub properties: ConnectionProperties,
    pub presence: Option<PresenceUpdate>,
    /// Must be `Some(false)`: the client reads uncompressed frames only.
    pub compress: Option<bool>,
    pub capabilities: u32,
    pub intents: Option<u32>,
}

impl Identify {
    /// A payload as `new` makes it for the given token.
    pub open spec fn is_standard_for(self, token: Seq<char>) -> bool {
        &&& self.token@ == token
        &&& self.properties.os@ == "Mac OS X"@
        &&& self.properties.browser@ == "Discord Client"@
        &&& self.properties.device@ == ""@
        &&& self.properties.system_locale@ == "en-US"@
        &&& self.properties.browser_version@ == "27.0.0"@
        &&& self.properties.os_version@ == "14.0.0"@
        &&& self.properties.referrer@ == ""@
        &&& self.properties.referring_domain@ == ""@
        &&& self.properties.release_channel@ == "stable"@
        &&& self.properties.client_build_number == 275530
        &&& self.presence matches Some(p) && p.status@ == "online"@ && p.since is None
            && p.activities@.len() == 0 && !p.afk
        &&& self.compress == Some(false)
        &&& self.capabilities == STANDARD_CAPABILITIES
        &&& self.intents == Some(ALL_UNPRIVILEGED_INTENTS)
    }

    /// The identify payload for a token: default properties, online presence,
    /// no compression, standard capabilities, all unprivileged intents.
    pub fn new(token: &str) -> (id: Identify)
        ensures
            id.is_standard_for(token@),
    {
        Identify {
            token: String::from_str(token),
            properties: ConnectionProperties::default_client(),
            presence: Some(PresenceUpdate::online()),
            compress: Some(false),
            capabilities: STANDARD_CAPABILITIES,
            intents: Some(ALL_UNPRIVILEGED_INTENTS),
        }
    }
}

} // verus!
