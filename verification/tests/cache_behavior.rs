use diself::cache::{ChannelCache, GuildCache, RelationshipCache, UserCache};
use diself::model::{Channel, ChannelType, Guild, Relationship, RelationshipType, User};
use diself::{Cache, CacheConfig};

fn sample_user(id: &str) -> User {
    User::new(id, &format!("user_{id}"), "0001")
}

fn ids<T, F: Fn(&T) -> String>(list: &[T], id: F) -> Vec<String> {
    let mut ids: Vec<String> = list.iter().map(id).collect();
    ids.sort();
    ids
}

#[test]
fn cache_set_current_user_populates_current_user_and_user_cache() {
    let mut cache = Cache::new();
    let user = sample_user("123");

    cache.set_current_user(user.clone());

    assert_eq!(cache.current_user().map(|u| u.id), Some("123".to_string()));
    assert_eq!(cache.user_count(), 1);
    assert_eq!(cache.user("123").map(|u| u.username), Some("user_123".to_string()));
}

#[test]
fn cache_respects_disabled_user_cache() {
    let mut cache = Cache::with_config(CacheConfig {
        cache_users: false,
        cache_channels: true,
        cache_guilds: true,
        cache_relationships: true,
    });

    cache.cache_user(sample_user("999"));

    assert_eq!(cache.user_count(), 0);
    assert!(cache.user("999").is_none());
}

#[test]
fn cache_initialize_reads_ready_user() {
    let mut cache = Cache::new();
    let ready_user = User::new("555", "ready_user", "1234");

    cache.initialize(Some(ready_user), Vec::new(), Vec::new(), Vec::new(), Vec::new());

    let current = cache.current_user().expect("current user should be set");
    assert_eq!(current.id, "555");
    assert_eq!(current.username, "ready_user");
}

#[test]
fn a_disabled_cache_still_knows_the_current_user() {
    let mut cache = Cache::with_config(CacheConfig::disabled());
    cache.set_current_user(sample_user("1"));
    assert_eq!(cache.current_user().map(|u| u.id), Some("1".to_string()));
    assert_eq!(cache.user_count(), 0);
    cache.cache_channel(Channel::new("c", ChannelType::DM));
    cache.cache_guild(Guild::new("g"));
    cache.cache_relationship(Relationship::new("r", RelationshipType::Friend));
    assert_eq!(cache.channel_count(), 0);
    assert_eq!(cache.guild_count(), 0);
    assert_eq!(cache.relationship_count(), 0);
    assert!(!cache.config().cache_users);
}

#[test]
fn a_later_entry_takes_the_place_of_an_earlier_one() {
    let mut users = UserCache::new(true);
    assert!(users.is_enabled());
    users.insert(User::new("1", "first", "0001"));
    users.insert(User::new("2", "other", "0002"));
    users.insert(User::new("1", "second", "0001"));
    assert_eq!(users.count(), 2);
    assert_eq!(users.get("1").map(|u| u.username), Some("second".to_string()));
    assert_eq!(users.get("2").map(|u| u.username), Some("other".to_string()));
    assert!(users.get("3").is_none());
    assert_eq!(ids(&users.all(), |u| u.id.clone()), vec!["1", "2"]);
}

#[test]
fn removing_hands_the_entry_back() {
    let mut users = UserCache::default();
    users.insert(sample_user("1"));
    users.insert(sample_user("2"));
    assert_eq!(users.remove("1").map(|u| u.username), Some("user_1".to_string()));
    assert!(users.remove("1").is_none());
    assert!(users.get("1").is_none());
    assert_eq!(users.count(), 1);
    users.clear();
    assert_eq!(users.count(), 0);
    assert!(users.all().is_empty());
    assert!(users.is_enabled());
}

#[test]
fn initializing_puts_every_entry_in_and_the_last_of_an_id_stays() {
    let mut users = UserCache::new(true);
    users.insert(User::new("1", "before", "0001"));
    users.initialize_from_ready(vec![
        User::new("1", "a", "0001"),
        User::new("2", "b", "0002"),
        User::new("1", "c", "0001"),
    ]);
    assert_eq!(users.count(), 2);
    assert_eq!(users.get("1").map(|u| u.username), Some("c".to_string()));

    let mut off = UserCache::new(false);
    off.initialize_from_ready(vec![sample_user("1")]);
    assert_eq!(off.count(), 0);
    assert!(!off.is_enabled());
}

#[test]
fn the_ready_data_fills_every_cache() {
    let mut cache = Cache::new();
    cache.initialize(
        Some(sample_user("me")),
        vec![sample_user("1"), sample_user("2")],
        vec![Channel::new("c1", ChannelType::GuildText), Channel::new("c2", ChannelType::GuildVoice)],
        vec![Guild::new("g1")],
        vec![
            Relationship::new("1", RelationshipType::Friend),
            Relationship::new("2", RelationshipType::Blocked),
        ],
    );
    assert_eq!(cache.user_count(), 3);
    assert_eq!(cache.channel_count(), 2);
    assert_eq!(cache.guild_count(), 1);
    assert_eq!(cache.relationship_count(), 2);
    let stats = cache.stats();
    assert_eq!((stats.users, stats.channels, stats.guilds), (3, 2, 1));
    assert_eq!(ids(&cache.users(), |u| u.id.clone()), vec!["1", "2", "me"]);
    assert_eq!(ids(&cache.channels(), |c| c.id.clone()), vec!["c1", "c2"]);
    assert_eq!(ids(&cache.guilds(), |g| g.id.clone()), vec!["g1"]);
    assert_eq!(cache.channel("c2").map(|c| c.kind), Some(ChannelType::GuildVoice));
    assert_eq!(cache.guild("g1").map(|g| g.id), Some("g1".to_string()));
    assert_eq!(cache.relationship("2").map(|r| r.kind), Some(RelationshipType::Blocked));

    assert!(cache.remove_channel("c1").is_some());
    assert!(cache.remove_guild("g1").is_some());
    assert!(cache.remove_relationship("1").is_some());
    assert!(cache.remove_user("1").is_some());
    assert_eq!(cache.channel_count(), 1);
    assert_eq!(cache.guild_count(), 0);
    assert_eq!(cache.relationship_count(), 1);
    assert_eq!(cache.user_count(), 2);

    cache.clear_users();
    assert_eq!(cache.user_count(), 0);
    assert!(cache.current_user().is_some());
    cache.clear_channels();
    cache.clear_guilds();
    cache.clear_relationships();
    assert_eq!(cache.channel_count() + cache.guild_count() + cache.relationship_count(), 0);
    cache.cache_user(sample_user("9"));
    cache.clear();
    assert_eq!(cache.user_count(), 0);
    assert!(cache.current_user().is_none());
}

#[test]
fn friends_are_the_relationships_of_that_kind() {
    let mut cache = RelationshipCache::new(true);
    cache.insert(Relationship::new("1", RelationshipType::Friend));
    cache.insert(Relationship::new("2", RelationshipType::Blocked));
    cache.insert(Relationship::new("3", RelationshipType::Friend));
    cache.insert(Relationship::new("4", RelationshipType::IncomingRequest));
    assert_eq!(ids(&cache.friends(), |r| r.id.clone()), vec!["1", "3"]);
    assert_eq!(cache.all().len(), 4);
    cache.insert(Relationship::new("3", RelationshipType::Unrelated));
    assert_eq!(ids(&cache.friends(), |r| r.id.clone()), vec!["1"]);
    cache.clear();
    assert!(cache.friends().is_empty());
}

#[test]
fn channel_and_guild_caches_keep_by_id() {
    let mut channels = ChannelCache::new(true);
    channels.initialize_from_ready(vec![
        Channel::new("a", ChannelType::GuildText),
        Channel::new("b", ChannelType::DM),
    ]);
    assert_eq!(channels.count(), 2);
    assert_eq!(channels.get("b").map(|c| c.is_dm()), Some(true));
    assert!(channels.remove("a").is_some());
    assert_eq!(ids(&channels.all(), |c| c.id.clone()), vec!["b"]);

    let mut guilds = GuildCache::new(true);
    guilds.insert(Guild::new("g"));
    let mut named = Guild::new("g");
    named.name = Some("Guild".to_string());
    guilds.insert(named);
    assert_eq!(guilds.count(), 1);
    assert_eq!(guilds.get("g").and_then(|g| g.name), Some("Guild".to_string()));
    guilds.clear();
    assert!(guilds.get("g").is_none());
}
