//! Channels and threads.

use vstd::prelude::*;
use vstd::string::*;
use crate::http::query::{
    number_param, opt_nat_u8, opt_slice, push_number, push_text, query_text, text_param,
    widen_u8, with_query,
};
use crate::http::{api_prefix, api_url};
use crate::model::guild::Member;
use crate::model::permissions::{PermissionOverwrite, Permissions};
use crate::model::user::User;

verus! {

/// The kinds of channel.
#[derive(Debug, Clone, Copy, PartialEq, Eq, Hash, Structural)]
pub enum ChannelType {
    GuildText,
    DM,
    GuildVoice,
    GroupDM,
    GuildCategory,
    GuildAnnouncement,
    AnnouncementThread,
    PublicThread,
    PrivateThread,
    GuildStageVoice,
    GuildDirectory,
    GuildForum,
}

impl ChannelType {
    /// The number that stands for the kind on the wire.
    pub open spec fn spec_code(self) -> u8 {
        match self {
            ChannelType::GuildText => 0,
            ChannelType::DM => 1,
            ChannelType::GuildVoice => 2,
            ChannelType::GroupDM => 3,
            ChannelType::GuildCategory => 4,
            ChannelType::GuildAnnouncement => 5,
            ChannelType::AnnouncementThread => 10,
            ChannelType::PublicThread => 11,
            ChannelType::PrivateThread => 12,
            ChannelType::GuildStageVoice => 13,
            ChannelType::GuildDirectory => 14,
            ChannelType::GuildForum => 15,
        }
    }

    /// The number that stands for the kind on the wire.
    pub fn code(self) -> (c: u8)
        ensures
            c == self.spec_code(),
    {
        match self {
            ChannelType::GuildText => 0,
            ChannelType::DM => 1,
            ChannelType::GuildVoice => 2,
            ChannelType::GroupDM => 3,
            ChannelType::GuildCategory => 4,
            ChannelType::GuildAnnouncement => 5,
            ChannelType::AnnouncementThread => 10,
            ChannelType::PublicThread => 11,
            ChannelType::PrivateThread => 12,
            ChannelType::GuildStageVoice => 13,
            ChannelType::GuildDirectory => 14,
            ChannelType::GuildForum => 15,
        }
    }

    /// The kind that a number stands for, if it stands for one.
    pub fn from_code(c: u8) -> (k: Option<ChannelType>)
        ensures
            k is Some <==> (c <= 5 || 10 <= c <= 15),
            k matches Some(kind) ==> kind.spec_code() == c,
    {
        if c == 0 {
            Some(ChannelType::GuildText)
        } else if c == 1 {
            Some(ChannelType::DM)
        } else if c == 2 {
            Some(ChannelType::GuildVoice)
        } else if c == 3 {
            Some(ChannelType::GroupDM)
        } else if c == 4 {
            Some(ChannelType::GuildCategory)
        } else if c == 5 {
            Some(ChannelType::GuildAnnouncement)
        } else if c == 10 {
            Some(ChannelType::AnnouncementThread)
        } else if c == 11 {
            Some(ChannelType::PublicThread)
        } else if c == 12 {
            Some(ChannelType::PrivateThread)
        } else if c == 13 {
            Some(ChannelType::GuildStageVoice)
        } else if c == 14 {
            Some(ChannelType::GuildDirectory)
        } else if c == 15 {
            Some(ChannelType::GuildForum)
        } else {
            None
        }
    }
}

/// A channel of any kind; most fields belong to some kinds only.
#[derive(Debug, Clone)]
pub struct Channel {
    pub id: String,
    pub kind: ChannelType,
    pub guild_id: Option<String>,
    pub position: Option<i32>,
    pub permission_overwrites: Vec<PermissionOverwrite>,
    pub name: Option<String>,
    pub topic: Option<String>,
    pub nsfw: bool,
    pub last_message_id: Option<String>,
    pub bitrate: Option<u64>,
    pub user_limit: Option<u64>,
    pub rate_limit_per_user: Option<u64>,
    pub recipients: Option<Vec<User>>,
    pub icon: Option<String>,
    pub owner_id: Option<String>,
    pub application_id: Option<String>,
    pub managed: bool,
    pub parent_id: Option<String>,
    pub last_pin_timestamp: Option<String>,
    pub rtc_region: Option<String>,
    pub video_quality_mode: Option<u8>,
    pub message_count: Option<u64>,
    pub member_count: Option<u64>,
    pub thread_metadata: Option<ThreadMetadata>,
    pub member: Option<ThreadMember>,
    pub default_auto_archive_duration: Option<u64>,
    pub permissions: Option<Permissions>,
    pub flags: Option<u64>,
    pub total_messages: Option<u64>,
    pub available_tags: Option<Vec<ForumTag>>,
    pub applied_tags: Option<Vec<String>>,
    pub default_sort_order: Option<u8>,
    pub default_forum_layout: Option<u8>,
}

impl Channel {
    /// Whether the channel is a conversation outside any guild.
    pub open spec fn spec_is_dm(self) -> bool {
        self.kind == ChannelType::DM || self.kind == ChannelType::GroupDM
    }

    /// What mentions the channel in a message.
    pub open spec fn spec_mention(self) -> Seq<char> {
        if self.spec_is_dm() {
            "<@"@ + self.id@ + ">"@
        } else {
            "<#"@ + self.id@ + ">"@
        }
    }

    /// A channel of which nothing is known but id and kind.
    pub open spec fn is_bare(self) -> bool {
        &&& self.guild_id is None
        &&& self.position is None
        &&& self.permission_overwrites@.len() == 0
        &&& self.name is None
        &&& self.topic is None
        &&& !self.nsfw
        &&& self.last_message_id is None
        &&& self.bitrate is None
        &&& self.user_limit is None
        &&& self.rate_limit_per_user is None
        &&& self.recipients is None
        &&& self.icon is None
        &&& self.owner_id is None
        &&& self.application_id is None
        &&& !self.managed
        &&& self.parent_id is None
        &&& self.last_pin_timestamp is None
        &&& self.rtc_region is None
        &&& self.video_quality_mode is None
        &&& self.message_count is None
        &&& self.member_count is None
        &&& self.thread_metadata is None
        &&& self.member is None
        &&& self.default_auto_archive_duration is None
        &&& self.permissions is None
        &&& self.flags is None
        &&& self.total_messages is None
        &&& self.available_tags is None
        &&& self.applied_tags is None
        &&& self.default_sort_order is None
        &&& self.default_forum_layout is None
    }

    /// A channel of which only id and kind are known.
    pub fn new(id: &str, kind: ChannelType) -> (c: Channel)
        ensures
            c.id@ == id@,
            c.kind == kind,
            c.is_bare(),
    {
        Channel {
            id: String::from_str(id),
            kind,
            guild_id: None,
            position: None,
            permission_overwrites: Vec::new(),
            name: None,
            topic: None,
            nsfw: false,
            last_message_id: None,
            bitrate: None,
            user_limit: None,
            rate_limit_per_user: None,
            recipients: None,
            icon: None,
            owner_id: None,
            application_id: None,
            managed: false,
            parent_id: None,
            last_pin_timestamp: None,
            rtc_region: None,
            video_quality_mode: None,
            message_count: None,
            member_count: None,
            thread_metadata: None,
            member: None,
            default_auto_archive_duration: None,
            permissions: None,
            flags: None,
            total_messages: None,
            available_tags: None,
            applied_tags: None,
            default_sort_order: None,
            default_forum_layout: None,
        }
    }

    /// The address that lists the messages of a channel.
    pub open spec fn spec_messages_url(
        channel_id: Seq<char>,
        around: Option<Seq<char>>,
        before: Option<Seq<char>>,
        after: Option<Seq<char>>,
        limit: Option<u8>,
    ) -> Seq<char> {
        api_prefix() + "/channels/"@ + channel_id + "/messages"@ + query_text(
            text_param("around"@, around) + text_param("before"@, before) + text_param(
                "after"@,
                after,
            ) + number_param("limit"@, opt_nat_u8(limit)),
        )
    }

    /// Builds the address that lists messages of a channel: around, before
    /// or after a message, and at most `limit` of them.
    pub fn messages_url(
        &self,
        around: Option<&str>,
        before: Option<&str>,
        after: Option<&str>,
        limit: Option<u8>,
    ) -> (url: String)
        ensures
            url@ == Self::spec_messages_url(
                self.id@,
                opt_slice(around),
                opt_slice(before),
                opt_slice(after),
                limit,
            ),
    {
        let mut params: Vec<String> = Vec::new();
        assert(params.deep_view() =~= Seq::<Seq<char>>::empty());
        push_text(&mut params, "around", around);
        push_text(&mut params, "before", before);
        push_text(&mut params, "after", after);
        push_number(&mut params, "limit", widen_u8(limit));
        let mut path = String::from_str("/channels/");
        path.append(self.id.as_str());
        path.append("/messages");
        let url = api_url(path.as_str());
        let full = with_query(url, &params);
        assert(full@ =~= Self::spec_messages_url(
            self.id@,
            opt_slice(around),
            opt_slice(before),
            opt_slice(after),
            limit,
        ));
        full
    }

    /// Whether the channel is a direct message or a group of them.
    pub fn is_dm(&self) -> (b: bool)
        ensures
            b == self.spec_is_dm(),
    {
        self.kind == ChannelType::DM || self.kind == ChannelType::GroupDM
    }

    /// What mentions the channel in a message: `<@id>` for a direct message,
    /// `<#id>` for every other channel.
    pub fn mention(&self) -> (s: String)
        ensures
            s@ == self.spec_mention(),
    {
        let mut s = if self.is_dm() {
            String::from_str("<@")
        } else {
            String::from_str("<#")
        };
        s.append(self.id.as_str());
        s.append(">");
        s
    }
}

/// A user in a thread.
#[derive(Debug, Clone)]
pub struct ThreadMember {
    pub thread_id: String,
    pub user_id: String,
    pub join_timestamp: String,
    pub flags: u64,
    pub muted: bool,
    pub member: Option<Member>,
}

/// A channel named in a message.
#[derive(Debug, Clone)]
pub struct ChannelMention {
    pub id: String,
    pub guild_id: String,
    pub name: String,
    pub kind: ChannelType,
}

/// A tag of a forum.
#[derive(Debug, Clone)]
pub struct ForumTag {
    pub id: Option<String>,
    pub name: String,
    /// Whether only moderators may give the tag to a thread.
    pub moderated: bool,
    pub emoji_id: Option<String>,
    pub emoji_name: Option<String>,
}

/// What only threads have.
#[derive(Debug, Clone)]
pub struct ThreadMetadata {
    pub archived: bool,
    pub archive_timestamp: String,
    pub locked: bool,
    pub invitable: Option<bool>,
    pub create_timestamp: Option<String>,
}

} // verus!
