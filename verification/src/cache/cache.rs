//! The cache of everything the client has seen: users, channels, guilds and
//! relationships by id, and the current user.

use vstd::prelude::*;
use vstd::string::*;
use crate::cache::channels::{lists_channels, with_channels, ChannelCache};
use crate::cache::config::{CacheConfig, CacheStats};
use crate::cache::guilds::{lists_guilds, with_guilds, GuildCache};
use crate::cache::relationships::{with_relationships, RelationshipCache};
use crate::cache::users::{lists_users, with_users, UserCache};
use crate::model::channel::Channel;
use crate::model::guild::Guild;
use crate::model::relationship::Relationship;
use crate::model::user::User;

verus! {

/// A cache as the contracts see it.
pub struct CacheState {
    pub config: CacheConfig,
    pub current_user: Option<User>,
    pub users: Map<Seq<char>, User>,
    pub channels: Map<Seq<char>, Channel>,
    pub guilds: Map<Seq<char>, Guild>,
    pub relationships: Map<Seq<char>, Relationship>,
    /// Which of the four caches take entries in: as the configuration says.
    pub keeps_users: bool,
    pub keeps_channels: bool,
    pub keeps_guilds: bool,
    pub keeps_relationships: bool,
}

impl CacheState {
    /// An empty cache with the given configuration.
    pub open spec fn empty(config: CacheConfig) -> CacheState {
        CacheState {
            config,
            current_user: None,
            users: Map::empty(),
            channels: Map::empty(),
            guilds: Map::empty(),
            relationships: Map::empty(),
            keeps_users: config.cache_users,
            keeps_channels: config.cache_channels,
            keeps_guilds: config.cache_guilds,
            keeps_relationships: config.cache_relationships,
        }
    }

    /// The cache after a user was offered to it.
    pub open spec fn with_user(self, user: User) -> CacheState {
        if self.keeps_users {
            CacheState { users: self.users.insert(user.id@, user), ..self }
        } else {
            self
        }
    }

    /// The cache after the current user was set: the user is the current
    /// one, and is offered to the cache of users like any other.
    pub open spec fn with_current_user(self, user: User) -> CacheState {
        CacheState { current_user: Some(user), ..self }.with_user(user)
    }

    /// The cache after a list of users was offered to it.
    pub open spec fn with_user_list(self, users: Seq<User>) -> CacheState {
        if self.keeps_users {
            CacheState { users: with_users(self.users, users), ..self }
        } else {
            self
        }
    }

    /// The cache after a channel was offered to it.
    pub open spec fn with_channel(self, channel: Channel) -> CacheState {
        if self.keeps_channels {
            CacheState { channels: self.channels.insert(channel.id@, channel), ..self }
        } else {
            self
        }
    }

    /// The cache after a list of channels was offered to it.
    pub open spec fn with_channel_list(self, channels: Seq<Channel>) -> CacheState {
        if self.keeps_channels {
            CacheState { channels: with_channels(self.channels, channels), ..self }
        } else {
            self
        }
    }

    /// The cache after a guild was offered to it.
    pub open spec fn with_guild(self, guild: Guild) -> CacheState {
        if self.keeps_guilds {
            CacheState { guilds: self.guilds.insert(guild.id@, guild), ..self }
        } else {
            self
        }
    }

    /// The cache after a list of guilds was offered to it.
    pub open spec fn with_guild_list(self, guilds: Seq<Guild>) -> CacheState {
        if self.keeps_guilds {
            CacheState { guilds: with_guilds(self.guilds, guilds), ..self }
        } else {
            self
        }
    }

    /// The cache after a relationship was offered to it.
    pub open spec fn with_relationship(self, relationship: Relationship) -> CacheState {
        if self.keeps_relationships {
            CacheState {
                relationships: self.relationships.insert(relationship.id@, relationship),
                ..self
            }
        } else {
            self
        }
    }

    /// The cache after a list of relationships was offered to it.
    pub open spec fn with_relationship_list(self, relationships: Seq<Relationship>) -> CacheState {
        if self.keeps_relationships {
            CacheState {
                relationships: with_relationships(self.relationships, relationships),
                ..self
            }
        } else {
            self
        }
    }

    /// The cache after the session-ready data was put in: the current user
    /// if there is one, then the users, the channels and the guilds, then
    /// the relationships.
    pub open spec fn initialized(
        self,
        user: Option<User>,
        users: Seq<User>,
        channels: Seq<Channel>,
        guilds: Seq<Guild>,
        relationships: Seq<Relationship>,
    ) -> CacheState {
        let first = match user {
            Some(u) => self.with_current_user(u),
            None => self,
        };
        first.with_user_list(users).with_channel_list(channels).with_guild_list(
            guilds,
        ).with_relationship_list(relationships)
    }

    /// The cache with nothing in it and no current user.
    pub open spec fn cleared(self) -> CacheState {
        CacheState {
            current_user: None,
            users: Map::empty(),
            channels: Map::empty(),
            guilds: Map::empty(),
            relationships: Map::empty(),
            ..self
        }
    }
}

/// What is under an id in a map, if anything.
pub open spec fn entry<V>(entries: Map<Seq<char>, V>, id: Seq<char>) -> Option<V> {
    if entries.dom().contains(id) {
        Some(entries[id])
    } else {
        None
    }
}

/// The cache of the client.
pub struct Cache {
    config: CacheConfig,
    user_cache: UserCache,
    channel_cache: ChannelCache,
    guild_cache: GuildCache,
    relationship_cache: RelationshipCache,
    current_user: Option<User>,
}

impl View for Cache {
    type V = CacheState;

    closed spec fn view(&self) -> CacheState {
        CacheState {
            config: self.config,
            current_user: self.current_user,
            users: self.user_cache.entries(),
            channels: self.channel_cache.entries(),
            guilds: self.guild_cache.entries(),
            relationships: self.relationship_cache.entries(),
            keeps_users: self.user_cache.enabled(),
            keeps_channels: self.channel_cache.enabled(),
            keeps_guilds: self.guild_cache.enabled(),
            keeps_relationships: self.relationship_cache.enabled(),
        }
    }
}

impl Cache {
    /// An empty cache that keeps everything.
    pub fn new() -> (c: Cache)
        ensures
            c@ == CacheState::empty(
                CacheConfig {
                    cache_users: true,
                    cache_channels: true,
                    cache_guilds: true,
                    cache_relationships: true,
                },
            ),
    {
        Cache::with_config(
            CacheConfig {
                cache_users: true,
                cache_channels: true,
                cache_guilds: true,
                cache_relationships: true,
            },
        )
    }

    /// An empty cache that keeps what the configuration says.
    pub fn with_config(config: CacheConfig) -> (c: Cache)
        ensures
            c@ == CacheState::empty(config),
    {
        Cache {
            user_cache: UserCache::new(config.cache_users),
            channel_cache: ChannelCache::new(config.cache_channels),
            guild_cache: GuildCache::new(config.cache_guilds),
            relationship_cache: RelationshipCache::new(config.cache_relationships),
            config,
            current_user: None,
        }
    }

    /// Puts the session-ready data in the cache: the current user if the
    /// data holds one, the users, the channels of the guilds and the guilds,
    /// and the relationships.
    pub fn initialize(
        &mut self,
        user: Option<User>,
        users: Vec<User>,
        channels: Vec<Channel>,
        guilds: Vec<Guild>,
        relationships: Vec<Relationship>,
    )
        ensures
            final(self)@ == old(self)@.initialized(
                user,
                users@,
                channels@,
                guilds@,
                relationships@,
            ),
    {
        if let Some(u) = user {
            self.set_current_user(u);
        }
        self.initialize_users(users);
        self.initialize_guilds(channels, guilds);
        self.initialize_relationships(relationships);
    }

    /// The current user, once known.
    pub fn current_user(&self) -> (u: Option<User>)
        ensures
            u == self@.current_user,
    {
        match &self.current_user {
            Some(u) => Some(u.duplicate()),
            None => None,
        }
    }

    /// Sets the current user, who also goes into the cache of users.
    pub fn set_current_user(&mut self, user: User)
        ensures
            final(self)@ == old(self)@.with_current_user(user),
    {
        self.current_user = Some(user.duplicate());
        self.user_cache.insert(user);
    }

    /// Puts the users of the session-ready data in the cache.
    pub fn initialize_users(&mut self, users: Vec<User>)
        ensures
            final(self)@ == old(self)@.with_user_list(users@),
    {
        self.user_cache.initialize_from_ready(users);
    }

    /// The user with the given id, if the cache has them.
    pub fn user(&self, user_id: &str) -> (u: Option<User>)
        ensures
            u == entry(self@.users, user_id@),
    {
        self.user_cache.get(user_id)
    }

    /// Puts a user in the cache, in place of whoever had the same id.
    pub fn cache_user(&mut self, user: User)
        ensures
            final(self)@ == old(self)@.with_user(user),
    {
        self.user_cache.insert(user);
    }

    /// Takes a user out of the cache and hands them back.
    pub fn remove_user(&mut self, user_id: &str) -> (u: Option<User>)
        ensures
            u == entry(old(self)@.users, user_id@),
            final(self)@ == (CacheState { users: old(self)@.users.remove(user_id@), ..old(self)@ }),
    {
        self.user_cache.remove(user_id)
    }

    /// How many users the cache holds.
    pub fn user_count(&self) -> (n: usize)
        ensures
            self@.users.dom().finite(),
            n == self@.users.dom().len(),
    {
        self.user_cache.count()
    }

    /// Every user in the cache, once, in no particular order.
    pub fn users(&self) -> (list: Vec<User>)
        ensures
            lists_users(list@, self@.users),
    {
        self.user_cache.all()
    }

    /// Puts the relationships of the session-ready data in the cache.
    pub fn initialize_relationships(&mut self, relationships: Vec<Relationship>)
        ensures
            final(self)@ == old(self)@.with_relationship_list(relationships@),
    {
        self.relationship_cache.initialize_from_ready(relationships);
    }

    /// The relationship with the user of the given id, if the cache has it.
    pub fn relationship(&self, user_id: &str) -> (r: Option<Relationship>)
        ensures
            r == entry(self@.relationships, user_id@),
    {
        self.relationship_cache.get(user_id)
    }

    /// Puts a relationship in the cache, in place of the one with the same
    /// user.
    pub fn cache_relationship(&mut self, relationship: Relationship)
        ensures
            final(self)@ == old(self)@.with_relationship(relationship),
    {
        self.relationship_cache.insert(relationship);
    }

    /// Takes a relationship out of the cache and hands it back.
    pub fn remove_relationship(&mut self, user_id: &str) -> (r: Option<Relationship>)
        ensures
            r == entry(old(self)@.relationships, user_id@),
            final(self)@ == (CacheState {
                relationships: old(self)@.relationships.remove(user_id@),
                ..old(self)@
            }),
    {
        self.relationship_cache.remove(user_id)
    }

    /// How many relationships the cache holds.
    pub fn relationship_count(&self) -> (n: usize)
        ensures
            self@.relationships.dom().finite(),
            n == self@.relationships.dom().len(),
    {
        self.relationship_cache.count()
    }

    /// The channel with the given id, if the cache has it.
    pub fn channel(&self, channel_id: &str) -> (c: Option<Channel>)
        ensures
            c == entry(self@.channels, channel_id@),
    {
        self.channel_cache.get(channel_id)
    }

    /// Puts a channel in the cache, in place of the one with the same id.
    pub fn cache_channel(&mut self, channel: Channel)
        ensures
            final(self)@ == old(self)@.with_channel(channel),
    {
        self.channel_cache.insert(channel);
    }

    /// Takes a channel out of the cache and hands it back.
    pub fn remove_channel(&mut self, channel_id: &str) -> (c: Option<Channel>)
        ensures
            c == entry(old(self)@.channels, channel_id@),
            final(self)@ == (CacheState {
                channels: old(self)@.channels.remove(channel_id@),
                ..old(self)@
            }),
    {
        self.channel_cache.remove(channel_id)
    }

    /// How many channels the cache holds.
    pub fn channel_count(&self) -> (n: usize)
        ensures
            self@.channels.dom().finite(),
            n == self@.channels.dom().len(),
    {
        self.channel_cache.count()
    }

    /// Every channel in the cache, once, in no particular order.
    pub fn channels(&self) -> (list: Vec<Channel>)
        ensures
            lists_channels(list@, self@.channels),
    {
        self.channel_cache.all()
    }

    /// Puts the guilds of the session-ready data in the cache, their
    /// channels first.
    pub fn initialize_guilds(&mut self, channels: Vec<Channel>, guilds: Vec<Guild>)
        ensures
            final(self)@ == old(self)@.with_channel_list(channels@).with_guild_list(guilds@),
    {
        self.channel_cache.initialize_from_ready(channels);
        self.guild_cache.initialize_from_ready(guilds);
    }

    /// The guild with the given id, if the cache has it.
    pub fn guild(&self, guild_id: &str) -> (g: Option<Guild>)
        ensures
            g == entry(self@.guilds, guild_id@),
    {
        self.guild_cache.get(guild_id)
    }

    /// Puts a guild in the cache, in place of the one with the same id.
    pub fn cache_guild(&mut self, guild: Guild)
        ensures
            final(self)@ == old(self)@.with_guild(guild),
    {
        self.guild_cache.insert(guild);
    }

    /// Takes a guild out of the cache and hands it back.
    pub fn remove_guild(&mut self, guild_id: &str) -> (g: Option<Guild>)
        ensures
            g == entry(old(self)@.guilds, guild_id@),
            final(self)@ == (CacheState { guilds: old(self)@.guilds.remove(guild_id@), ..old(self)@ }),
    {
        self.guild_cache.remove(guild_id)
    }

    /// How many guilds the cache holds.
    pub fn guild_count(&self) -> (n: usize)
        ensures
            self@.guilds.dom().finite(),
            n == self@.guilds.dom().len(),
    {
        self.guild_cache.count()
    }

    /// Every guild in the cache, once, in no particular order.
    pub fn guilds(&self) -> (list: Vec<Guild>)
        ensures
            lists_guilds(list@, self@.guilds),
    {
        self.guild_cache.all()
    }

    /// The configuration that the cache was made with.
    pub fn config(&self) -> (c: &CacheConfig)
        ensures
            *c == self@.config,
    {
        &self.config
    }

    /// Empties every cache and forgets the current user.
    pub fn clear(&mut self)
        ensures
            final(self)@ == old(self)@.cleared(),
    {
        self.user_cache.clear();
        self.channel_cache.clear();
        self.guild_cache.clear();
        self.relationship_cache.clear();
        self.current_user = None;
    }

    /// Empties the cache of users.
    pub fn clear_users(&mut self)
        ensures
            final(self)@ == (CacheState { users: Map::empty(), ..old(self)@ }),
    {
        self.user_cache.clear();
    }

    /// Empties the cache of channels.
    pub fn clear_channels(&mut self)
        ensures
            final(self)@ == (CacheState { channels: Map::empty(), ..old(self)@ }),
    {
        self.channel_cache.clear();
    }

    /// Empties the cache of guilds.
    pub fn clear_guilds(&mut self)
        ensures
            final(self)@ == (CacheState { guilds: Map::empty(), ..old(self)@ }),
    {
        self.guild_cache.clear();
    }

    /// Empties the cache of relationships.
    pub fn clear_relationships(&mut self)
        ensures
            final(self)@ == (CacheState { relationships: Map::empty(), ..old(self)@ }),
    {
        self.relationship_cache.clear();
    }

    /// How many users, channels and guilds the cache holds.
    pub fn stats(&self) -> (s: CacheStats)
        ensures
            s.users == self@.users.dom().len(),
            s.channels == self@.channels.dom().len(),
            s.guilds == self@.guilds.dom().len(),
    {
        CacheStats {
            users: self.user_count(),
            channels: self.channel_count(),
            guilds: self.guild_count(),
        }
    }
}

impl Default for Cache {
    /// An empty cache that keeps everything.
    fn default() -> (c: Cache)
        ensures
            c@ == CacheState::empty(
                CacheConfig {
                    cache_users: true,
                    cache_channels: true,
                    cache_guilds: true,
                    cache_relationships: true,
                },
            ),
    {
        Cache::new()
    }
}

} // verus!
