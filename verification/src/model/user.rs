//! Users and what their profiles hold.

use vstd::prelude::*;
use vstd::string::*;
use crate::model::guild::Member;
use crate::model::reaction::Emoji;
use crate::text::starts_with;

verus! {

/// Where avatars are served from.
pub const AVATAR_BASE_URL: &'static str = "https://cdn.discordapp.com/avatars/";

/// Where banners are served from.
pub const BANNER_BASE_URL: &'static str = "https://cdn.discordapp.com/banners/";

fn copy_text(s: &Option<String>) -> (r: Option<String>)
    ensures
        r == *s,
{
    match s {
        Some(s) => Some(s.clone()),
        None => None,
    }
}

/// A user of the platform.
#[derive(Debug, Clone)]
pub struct User {
    pub id: String,
    pub username: String,
    /// The four digits behind the name, from before names were unique.
    pub discriminator: String,
    pub global_name: Option<String>,
    /// Hash of the avatar.
    pub avatar: Option<String>,
    pub bot: bool,
    pub system: bool,
    pub mfa_enabled: bool,
    /// Hash of the banner.
    pub banner: Option<String>,
    pub accent_color: Option<u32>,
    pub locale: Option<String>,
    pub verified: Option<bool>,
    pub email: Option<String>,
    pub phone: Option<String>,
    pub desktop: bool,
    pub mobile: bool,
    pub flags: Option<u64>,
    /// 0 none, 1 Nitro Classic, 2 Nitro, 3 Nitro Basic.
    pub premium_type: Option<u8>,
    pub public_flags: Option<u64>,
    pub avatar_decoration: Option<AvatarDecoration>,
    pub collectibles: Option<Nameplate>,
    pub primary_guild: Option<PrimaryGuild>,
}

impl User {
    /// `username#discriminator`.
    pub open spec fn spec_tag(self) -> Seq<char> {
        self.username@ + "#"@ + self.discriminator@
    }

    /// `<@id>`.
    pub open spec fn spec_mention(self) -> Seq<char> {
        "<@"@ + self.id@ + ">"@
    }

    /// The address of an avatar with the given hash.
    pub open spec fn spec_avatar_url(self, hash: Seq<char>) -> Seq<char> {
        AVATAR_BASE_URL@ + self.id@ + "/"@ + hash + ".png"@
    }

    /// The address of a banner with the given hash: a `gif` if the hash
    /// begins with `a_`, which marks an animation, and a `png` otherwise.
    pub open spec fn spec_banner_url(self, hash: Seq<char>) -> Seq<char> {
        BANNER_BASE_URL@ + self.id@ + "/"@ + hash + if "a_"@.is_prefix_of(hash) {
            ".gif"@
        } else {
            ".png"@
        }
    }

    /// Whether the premium type is one of the three subscriptions.
    pub open spec fn spec_has_nitro(self) -> bool {
        self.premium_type == Some(1u8) || self.premium_type == Some(2u8) || self.premium_type
            == Some(3u8)
    }

    /// The name of the user's subscription.
    pub open spec fn spec_premium_type_name(self) -> Seq<char> {
        if self.premium_type == Some(1u8) {
            "Nitro Classic"@
        } else if self.premium_type == Some(2u8) {
            "Nitro"@
        } else if self.premium_type == Some(3u8) {
            "Nitro Basic"@
        } else {
            "None"@
        }
    }

    /// A user of whom nothing is known but id, name and discriminator.
    pub open spec fn is_bare(self) -> bool {
        &&& self.global_name is None
        &&& self.avatar is None
        &&& !self.bot
        &&& !self.system
        &&& !self.mfa_enabled
        &&& self.banner is None
        &&& self.accent_color is None
        &&& self.locale is None
        &&& self.verified is None
        &&& self.email is None
        &&& self.phone is None
        &&& !self.desktop
        &&& !self.mobile
        &&& self.flags is None
        &&& self.premium_type is None
        &&& self.public_flags is None
        &&& self.avatar_decoration is None
        &&& self.collectibles is None
        &&& self.primary_guild is None
    }

    /// A user of whom only id, name and discriminator are known.
    pub fn new(id: &str, username: &str, discriminator: &str) -> (u: User)
        ensures
            u.id@ == id@,
            u.username@ == username@,
            u.discriminator@ == discriminator@,
            u.is_bare(),
    {
        User {
            id: String::from_str(id),
            username: String::from_str(username),
            discriminator: String::from_str(discriminator),
            global_name: None,
            avatar: None,
            bot: false,
            system: false,
            mfa_enabled: false,
            banner: None,
            accent_color: None,
            locale: None,
            verified: None,
            email: None,
            phone: None,
            desktop: false,
            mobile: false,
            flags: None,
            premium_type: None,
            public_flags: None,
            avatar_decoration: None,
            collectibles: None,
            primary_guild: None,
        }
    }

    /// A copy of the user.
    pub fn duplicate(&self) -> (u: User)
        ensures
            u == *self,
    {
        User {
            id: self.id.clone(),
            username: self.username.clone(),
            discriminator: self.discriminator.clone(),
            global_name: copy_text(&self.global_name),
            avatar: copy_text(&self.avatar),
            bot: self.bot,
            system: self.system,
            mfa_enabled: self.mfa_enabled,
            banner: copy_text(&self.banner),
            accent_color: self.accent_color,
            locale: copy_text(&self.locale),
            verified: self.verified,
            email: copy_text(&self.email),
            phone: copy_text(&self.phone),
            desktop: self.desktop,
            mobile: self.mobile,
            flags: self.flags,
            premium_type: self.premium_type,
            public_flags: self.public_flags,
            avatar_decoration: match &self.avatar_decoration {
                Some(d) => Some(
                    AvatarDecoration { asset: copy_text(&d.asset), sku_id: copy_text(&d.sku_id) },
                ),
                None => None,
            },
            collectibles: match &self.collectibles {
                Some(n) => Some(
                    Nameplate {
                        sku_id: copy_text(&n.sku_id),
                        asset: copy_text(&n.asset),
                        label: copy_text(&n.label),
                        palette: copy_text(&n.palette),
                        expires_at: copy_text(&n.expires_at),
                    },
                ),
                None => None,
            },
            primary_guild: match &self.primary_guild {
                Some(g) => Some(
                    PrimaryGuild {
                        identity_guild_id: copy_text(&g.identity_guild_id),
                        identity_enabled: g.identity_enabled,
                        tag: copy_text(&g.tag),
                        badge: copy_text(&g.badge),
                    },
                ),
                None => None,
            },
        }
    }

    /// The user's tag: `username#discriminator`.
    pub fn tag(&self) -> (s: String)
        ensures
            s@ == self.spec_tag(),
    {
        let mut s = self.username.clone();
        s.append("#");
        s.append(self.discriminator.as_str());
        s
    }

    /// The address of the user's avatar, if they have one.
    pub fn avatar_url(&self) -> (url: Option<String>)
        ensures
            match self.avatar {
                Some(hash) => url matches Some(u) && u@ == self.spec_avatar_url(hash@),
                None => url is None,
            },
    {
        match &self.avatar {
            Some(hash) => {
                let mut url = String::from_str(AVATAR_BASE_URL);
                url.append(self.id.as_str());
                url.append("/");
                url.append(hash.as_str());
                url.append(".png");
                Some(url)
            },
            None => None,
        }
    }

    /// The address of the user's banner, if they have one.
    pub fn banner_url(&self) -> (url: Option<String>)
        ensures
            match self.banner {
                Some(hash) => url matches Some(u) && u@ == self.spec_banner_url(hash@),
                None => url is None,
            },
    {
        match &self.banner {
            Some(hash) => {
                let mut url = String::from_str(BANNER_BASE_URL);
                url.append(self.id.as_str());
                url.append("/");
                url.append(hash.as_str());
                if starts_with(hash.as_str(), "a_") {
                    url.append(".gif");
                } else {
                    url.append(".png");
                }
                Some(url)
            },
            None => None,
        }
    }

    /// What mentions the user in a message: `<@id>`.
    pub fn mention(&self) -> (s: String)
        ensures
            s@ == self.spec_mention(),
    {
        let mut s = String::from_str("<@");
        s.append(self.id.as_str());
        s.append(">");
        s
    }

    /// Whether the user has any of the subscriptions.
    pub fn has_nitro(&self) -> (b: bool)
        ensures
            b == self.spec_has_nitro(),
    {
        match self.premium_type {
            Some(t) => t == 1 || t == 2 || t == 3,
            None => false,
        }
    }

    /// The name of the user's subscription, `None` if they have none.
    pub fn premium_type_name(&self) -> (name: &'static str)
        ensures
            name@ == self.spec_premium_type_name(),
    {
        match self.premium_type {
            Some(t) => {
                if t == 1 {
                    "Nitro Classic"
                } else if t == 2 {
                    "Nitro"
                } else if t == 3 {
                    "Nitro Basic"
                } else {
                    "None"
                }
            },
            None => "None",
        }
    }
}

/// What a user's profile page shows.
#[derive(Debug, Clone)]
pub struct UserProfile {
    pub application: Option<ApplicationProfile>,
    pub user: Option<User>,
    pub profile_metadata: Option<ProfileMetadata>,
    pub badges: Option<Vec<Badge>>,
    pub guild_member: Option<Member>,
    pub guild_member_profile: Option<ProfileMetadata>,
    pub legacy_username: Option<String>,
    pub mutual_guilds: Option<Vec<MutualGuild>>,
    pub mutual_friends: Option<Vec<User>>,
    pub mutual_friend_count: Option<u64>,
    pub premium_type: Option<u8>,
    pub premium_since: Option<String>,
    pub premium_guild_since: Option<String>,
}

/// A badge on a profile.
#[derive(Debug, Clone)]
pub struct Badge {
    pub id: String,
    pub description: String,
    pub icon: Option<String>,
    pub link: Option<String>,
}

/// The part of a profile that its owner edits.
#[derive(Debug, Clone)]
pub struct ProfileMetadata {
    pub guild_id: Option<String>,
    pub pronouns: Option<String>,
    pub bio: Option<String>,
    pub banner: Option<String>,
    pub accent_color: Option<u32>,
    pub theme_colors: Option<Vec<u32>>,
    pub popout_animation_particle_type: Option<u8>,
    pub emoji: Option<Emoji>,
    pub profile_effect: Option<ProfileEffect>,
}

/// A guild that two users share.
#[derive(Debug, Clone)]
pub struct MutualGuild {
    pub id: String,
    pub nickname: Option<String>,
}

/// The effect that plays on a profile.
#[derive(Debug, Clone)]
pub struct ProfileEffect {
    pub id: String,
    pub expires_at: Option<String>,
}

/// The application behind a bot's profile.
#[derive(Debug, Clone)]
pub struct ApplicationProfile {
    pub id: String,
    pub flags: Option<u64>,
    pub verified: bool,
    pub storefront_available: bool,
    pub primary_sku_id: Option<String>,
    pub install_params: Option<String>,
    pub popular_application_command_ids: Option<Vec<String>>,
    pub custom_install_url: Option<String>,
}

/// The decoration around an avatar.
#[derive(Debug, Clone)]
pub struct AvatarDecoration {
    pub asset: Option<String>,
    pub sku_id: Option<String>,
}

/// The plate behind a user's name.
#[derive(Debug, Clone)]
pub struct Nameplate {
    pub sku_id: Option<String>,
    pub asset: Option<String>,
    pub label: Option<String>,
    pub palette: Option<String>,
    pub expires_at: Option<String>,
}

/// The guild whose tag a user shows.
#[derive(Debug, Clone)]
pub struct PrimaryGuild {
    pub identity_guild_id: Option<String>,
    pub identity_enabled: Option<bool>,
    pub tag: Option<String>,
    pub badge: Option<String>,
}

/// An avatar that a user had before.
#[derive(Debug, Clone)]
pub struct Avatar {
    pub id: Option<String>,
    pub storage_hash: Option<String>,
    pub description: Option<String>,
}

} // verus!
