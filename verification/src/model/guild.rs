//! Guilds and their members.

use vstd::prelude::*;
use vstd::string::*;
use crate::model::channel::Channel;
use crate::model::message::Sticker;
use crate::model::permissions::Permissions;
use crate::model::reaction::Emoji;
use crate::model::role::Role;
use crate::model::user::{Nameplate, User};

verus! {

/// What a guild may have switched on.
#[derive(Debug, Clone, Copy, PartialEq, Eq, Hash, Structural)]
pub enum GuildFeatures {
    AnimatedBanner,
    AnimatedIcon,
    ApplicationCommandPermissionsV2,
    AutoModeration,
    Banner,
    Community,
    CreatorMonetizableProvisions,
    DeveloperSupportServer,
    Discoverable,
    Featurable,
    InviteSplash,
    InviteDisable,
    MemberVerificationGateEnabled,
    MoreSoundboard,
    MoreStickers,
    News,
    Partnered,
    PreviewEnabled,
    RaidAlertsDisabled,
    RoleIcons,
    RoleSubscriptionsAvailableForPurchase,
    RoleSubscriptionsEnabled,
    Soundboard,
    TicketedEventsEnabled,
    VanityUrl,
    Verified,
    VipRegions,
    WelcomeScreenEnabled,
    GuestsEnabled,
    GuildTags,
    EnhancedRoleColors,
}

/// A guild.
#[derive(Debug, Clone)]
pub struct Guild {
    pub id: String,
    pub name: Option<String>,
    pub icon_hash: Option<String>,
    pub splash: Option<String>,
    pub member_count: Option<u64>,
    pub discovery_splash: Option<String>,
    /// Whether the current user owns the guild.
    pub owner: bool,
    pub owner_id: Option<String>,
    pub permissions: Option<Permissions>,
    pub region: Option<String>,
    pub afk_channel_id: Option<String>,
    pub afk_timeout: Option<u64>,
    pub widget_enabled: Option<bool>,
    pub widget_channel_id: Option<String>,
    pub verification_level: Option<u8>,
    pub default_message_notifications: Option<u8>,
    pub explicit_content_filter: Option<u8>,
    pub members: Vec<Member>,
    pub channels: Vec<Channel>,
    pub roles: Vec<Role>,
    pub emojis: Vec<Emoji>,
    pub features: Vec<GuildFeatures>,
    pub mfa_level: Option<u8>,
    pub application_id: Option<String>,
    pub system_channel_id: Option<String>,
    pub system_channel_flags: Option<u64>,
    pub rules_channel_id: Option<String>,
    pub max_presences: Option<u64>,
    pub max_members: Option<u64>,
    pub vanity_url_code: Option<String>,
    pub description: Option<String>,
    pub banner: Option<String>,
    pub premium_tier: Option<u8>,
    pub premium_subscription_count: Option<u64>,
    pub preferred_locale: Option<String>,
    pub public_updates_channel_id: Option<String>,
    pub max_video_channel_users: Option<u64>,
    pub max_stage_video_channel_users: Option<u64>,
    pub approximate_member_count: Option<u64>,
    pub approximate_presence_count: Option<u64>,
    pub welcome_screen: Option<WelcomeScreen>,
    pub nsfw_level: Option<u8>,
    pub stickers: Option<Vec<Sticker>>,
    pub boost_progress_bar_enabled: Option<bool>,
    pub safety_alerts_channel_id: Option<String>,
}

impl Guild {
    /// A guild of which nothing is known but the id.
    pub open spec fn is_bare(self) -> bool {
        &&& self.name is None
        &&& self.icon_hash is None
        &&& self.splash is None
        &&& self.member_count is None
        &&& self.discovery_splash is None
        &&& !self.owner
        &&& self.owner_id is None
        &&& self.permissions is None
        &&& self.region is None
        &&& self.afk_channel_id is None
        &&& self.afk_timeout is None
        &&& self.widget_enabled is None
        &&& self.widget_channel_id is None
        &&& self.verification_level is None
        &&& self.default_message_notifications is None
        &&& self.explicit_content_filter is None
        &&& self.members@.len() == 0
        &&& self.channels@.len() == 0
        &&& self.roles@.len() == 0
        &&& self.emojis@.len() == 0
        &&& self.features@.len() == 0
        &&& self.mfa_level is None
        &&& self.application_id is None
        &&& self.system_channel_id is None
        &&& self.system_channel_flags is None
        &&& self.rules_channel_id is None
        &&& self.max_presences is None
        &&& self.max_members is None
        &&& self.vanity_url_code is None
        &&& self.description is None
        &&& self.banner is None
        &&& self.premium_tier is None
        &&& self.premium_subscription_count is None
        &&& self.preferred_locale is None
        &&& self.public_updates_channel_id is None
        &&& self.max_video_channel_users is None
        &&& self.max_stage_video_channel_users is None
        &&& self.approximate_member_count is None
        &&& self.approximate_presence_count is None
        &&& self.welcome_screen is None
        &&& self.nsfw_level is None
        &&& self.stickers is None
        &&& self.boost_progress_bar_enabled is None
        &&& self.safety_alerts_channel_id is None
    }

    /// A guild of which only the id is known.
    pub fn new(id: &str) -> (g: Guild)
        ensures
            g.id@ == id@,
            g.is_bare(),
    {
        Guild {
            id: String::from_str(id),
            name: None,
            icon_hash: None,
            splash: None,
            member_count: None,
            discovery_splash: None,
            owner: false,
            owner_id: None,
            permissions: None,
            region: None,
            afk_channel_id: None,
            afk_timeout: None,
            widget_enabled: None,
            widget_channel_id: None,
            verification_level: None,
            default_message_notifications: None,
            explicit_content_filter: None,
            members: Vec::new(),
            channels: Vec::new(),
            roles: Vec::new(),
            emojis: Vec::new(),
            features: Vec::new(),
            mfa_level: None,
            application_id: None,
            system_channel_id: None,
            system_channel_flags: None,
            rules_channel_id: None,
            max_presences: None,
            max_members: None,
            vanity_url_code: None,
            description: None,
            banner: None,
            premium_tier: None,
            premium_subscription_count: None,
            preferred_locale: None,
            public_updates_channel_id: None,
            max_video_channel_users: None,
            max_stage_video_channel_users: None,
            approximate_member_count: None,
            approximate_presence_count: None,
            welcome_screen: None,
            nsfw_level: None,
            stickers: None,
            boost_progress_bar_enabled: None,
            safety_alerts_channel_id: None,
        }
    }
}

/// A user as a member of a guild.
#[derive(Debug, Clone)]
pub struct Member {
    pub user: User,
    pub nick: Option<String>,
    pub avatar: Option<String>,
    pub collectibles: Vec<Nameplate>,
    pub banner: Option<String>,
    pub bio: Option<String>,
    /// The ids of the member's roles.
    pub roles: Vec<String>,
    pub deaf: bool,
    pub mute: bool,
    pub joined_at: String,
    pub premium_since: Option<String>,
    pub pending: bool,
    pub communication_disabled_until: Option<String>,
    pub unusual_dm_activity_until: Option<String>,
    pub flags: u64,
    pub permissions: Option<Permissions>,
}

/// What a guild shows to new members.
#[derive(Debug, Clone)]
pub struct WelcomeScreen {
    pub description: Option<String>,
    /// At most 5.
    pub welcome_channels: Vec<WelcomeScreenChannel>,
}

/// A channel on the welcome screen.
#[derive(Debug, Clone)]
pub struct WelcomeScreenChannel {
    pub channel_id: String,
    pub description: String,
    pub emoji_id: Option<String>,
    pub emoji_name: Option<String>,
}

} // verus!
