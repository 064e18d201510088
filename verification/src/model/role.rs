//! Roles of a guild.

use vstd::prelude::*;

verus! {

/// A role that members of a guild can hold.
#[derive(Debug, Clone)]
pub struct Role {
    pub id: String,
    pub name: String,
    /// The colour as one number; superseded by `colors`.
    pub color: Option<u32>,
    pub colors: Option<RoleColors>,
    pub icon: Option<String>,
    pub unicode_emoji: Option<String>,
    /// Whether members with the role are listed apart.
    pub hoist: bool,
    pub position: i32,
    /// The permission bits, written in decimal.
    pub permissions: String,
    pub managed: bool,
    pub mentionable: bool,
    pub tags: Option<RoleTags>,
    pub flags: Option<u64>,
}

/// The colours of a role.
#[derive(Debug, Clone)]
pub struct RoleColors {
    pub primary_color: Option<u32>,
    pub secondary_color: Option<u32>,
    pub tertiary_color: Option<u32>,
}

/// What a role was made for.
#[derive(Debug, Clone)]
pub struct RoleTags {
    pub bot_id: Option<String>,
    pub integration_id: Option<String>,
    pub premium_subscriber: Option<bool>,
    pub subscription_listing_id: Option<String>,
    pub available_for_purchase: Option<bool>,
    pub guild_connections: Option<bool>,
}

} // verus!
