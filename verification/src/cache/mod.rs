//! The cache of entities: users, channels, guilds and relationships, each
//! kept by id in a concurrent map.

pub mod cache;
pub mod channels;
pub mod config;
pub mod guilds;
pub mod relationships;
pub mod store;
pub mod users;

pub use cache::{Cache, CacheState};
pub use channels::ChannelCache;
pub use config::{CacheConfig, CacheStats};
pub use guilds::GuildCache;
pub use relationships::RelationshipCache;
pub use users::UserCache;
