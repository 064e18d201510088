//! What the cache keeps.

use vstd::prelude::*;

verus! {

/// Which kinds of entity the cache keeps.
#[derive(Debug, Clone, Copy, PartialEq, Eq, Structural)]
pub struct CacheConfig {
    pub cache_users: bool,
    pub cache_channels: bool,
    pub cache_guilds: bool,
    pub cache_relationships: bool,
}

impl CacheConfig {
    /// A cache that keeps nothing.
    pub fn disabled() -> (c: CacheConfig)
        ensures
            !c.cache_users,
            !c.cache_channels,
            !c.cache_guilds,
            !c.cache_relationships,
    {
        CacheConfig {
            cache_users: false,
            cache_channels: false,
            cache_guilds: false,
            cache_relationships: false,
        }
    }
}

impl Default for CacheConfig {
    /// A cache that keeps everything.
    fn default() -> (c: CacheConfig)
        ensures
            c.cache_users,
            c.cache_channels,
            c.cache_guilds,
            c.cache_relationships,
    {
        CacheConfig {
            cache_users: true,
            cache_channels: true,
            cache_guilds: true,
            cache_relationships: true,
        }
    }
}

/// How much the cache holds.
#[derive(Debug, Clone, Copy, PartialEq, Eq, Structural)]
pub struct CacheStats {
    pub users: usize,
    pub channels: usize,
    pub guilds: usize,
}

} // verus!
