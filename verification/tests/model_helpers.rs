use diself::client::managers::{
    ArchivedThreads, ChannelsManager, GuildsManager, SearchThreadsParams,
};
use diself::model::{
    Channel, ChannelType, InteractionType, PermissionOverwriteType, Permissions, Relationship,
    RelationshipType, User,
};
use diself::model::permissions::{ADMINISTRATOR, SEND_MESSAGES, USE_EXTERNAL_APPS, VIEW_CHANNEL};

fn sample_user() -> User {
    let mut user = User::new("123", "daniil", "0001");
    user.avatar = Some("avatar_hash".to_string());
    user.banner = Some("a_banner_hash".to_string());
    user.premium_type = Some(2);
    user
}

#[test]
fn user_helper_methods_work() {
    let user = sample_user();

    assert_eq!(user.tag(), "daniil#0001");
    assert_eq!(user.mention(), "<@123>");
    assert!(user.has_nitro());
    assert_eq!(user.premium_type_name(), "Nitro");
    assert_eq!(
        user.avatar_url().as_deref(),
        Some("https://cdn.discordapp.com/avatars/123/avatar_hash.png")
    );
    assert_eq!(
        user.banner_url().as_deref(),
        Some("https://cdn.discordapp.com/banners/123/a_banner_hash.gif")
    );
}

#[test]
fn relationship_state_helpers_work() {
    let friend = Relationship {
        id: "42".to_string(),
        kind: RelationshipType::from_code(1).expect("valid relationship json"),
        user: None,
        nickname: None,
        is_spam_request: false,
        stranger_request: false,
        user_ignored: false,
        origin_application_id: None,
        since: None,
        has_played_game: false,
    };

    let blocked = Relationship {
        id: "77".to_string(),
        kind: RelationshipType::Blocked,
        user: None,
        nickname: None,
        is_spam_request: false,
        stranger_request: false,
        user_ignored: false,
        origin_application_id: None,
        since: None,
        has_played_game: false,
    };

    assert!(friend.is_friend());
    assert!(!friend.is_blocked());
    assert!(!blocked.is_friend());
    assert!(blocked.is_blocked());
}

#[test]
fn user_without_images_has_no_urls() {
    let user = User::new("1", "n", "0000");
    assert_eq!(user.avatar_url(), None);
    assert_eq!(user.banner_url(), None);
    assert!(!user.has_nitro());
    assert_eq!(user.premium_type_name(), "None");
}

#[test]
fn still_banner_is_a_png() {
    let mut user = User::new("9", "n", "0000");
    user.banner = Some("hash".to_string());
    assert_eq!(
        user.banner_url().as_deref(),
        Some("https://cdn.discordapp.com/banners/9/hash.png")
    );
    user.banner = Some("a".to_string());
    assert_eq!(
        user.banner_url().as_deref(),
        Some("https://cdn.discordapp.com/banners/9/a.png")
    );
    user.banner = Some("a_".to_string());
    assert_eq!(
        user.banner_url().as_deref(),
        Some("https://cdn.discordapp.com/banners/9/a_.gif")
    );
}

#[test]
fn premium_types_have_names() {
    let mut user = User::new("1", "n", "0000");
    user.premium_type = Some(0);
    assert!(!user.has_nitro());
    assert_eq!(user.premium_type_name(), "None");
    user.premium_type = Some(1);
    assert!(user.has_nitro());
    assert_eq!(user.premium_type_name(), "Nitro Classic");
    user.premium_type = Some(3);
    assert!(user.has_nitro());
    assert_eq!(user.premium_type_name(), "Nitro Basic");
    user.premium_type = Some(4);
    assert!(!user.has_nitro());
    assert_eq!(user.premium_type_name(), "None");
}

#[test]
fn channels_mention_by_kind() {
    let text = Channel::new("55", ChannelType::GuildText);
    assert!(!text.is_dm());
    assert_eq!(text.mention(), "<#55>");
    let dm = Channel::new("56", ChannelType::DM);
    assert!(dm.is_dm());
    assert_eq!(dm.mention(), "<@56>");
    let group = Channel::new("57", ChannelType::GroupDM);
    assert!(group.is_dm());
    assert_eq!(group.mention(), "<@57>");
    let voice = Channel::new("58", ChannelType::GuildVoice);
    assert!(!voice.is_dm());
}

#[test]
fn wire_codes_round_trip() {
    for code in 0u8..=20 {
        match ChannelType::from_code(code) {
            Some(kind) => assert_eq!(kind.code(), code),
            None => assert!((6..=9).contains(&code) || code > 15),
        }
        match RelationshipType::from_code(code) {
            Some(kind) => assert_eq!(kind.code(), code),
            None => assert!(code > 5),
        }
        match InteractionType::from_code(code) {
            Some(kind) => assert_eq!(kind.code(), code),
            None => assert!(code == 0 || code > 5),
        }
    }
    assert_eq!(ChannelType::GuildForum.code(), 15);
    assert_eq!(ChannelType::AnnouncementThread.code(), 10);
    assert_eq!(RelationshipType::Implicit.code(), 5);
    assert_eq!(PermissionOverwriteType::Role.code(), 0);
    assert_eq!(PermissionOverwriteType::Member.code(), 1);
}

#[test]
fn permissions_read_and_write_decimal() {
    let p = Permissions::from_bits_string("8").unwrap();
    assert_eq!(p.bits(), ADMINISTRATOR);
    assert_eq!(p.to_bits_string(), "8");
    let all = Permissions::from_bits_string("18446744073709551615").unwrap();
    assert_eq!(all.bits(), u64::MAX);
    assert_eq!(all.to_bits_string(), "18446744073709551615");
    assert_eq!(Permissions::from_bits_string("+3072").unwrap().bits(), VIEW_CHANNEL | SEND_MESSAGES);
    assert_eq!(Permissions::from_bits_string("0").unwrap(), Permissions::empty());
    assert_eq!(Permissions::from_bits_string("007").unwrap().bits(), 7);
    assert!(Permissions::from_bits_string("18446744073709551616").is_none());
    assert!(Permissions::from_bits_string("").is_none());
    assert!(Permissions::from_bits_string("+").is_none());
    assert!(Permissions::from_bits_string("-1").is_none());
    assert!(Permissions::from_bits_string("12a").is_none());
    assert!(Permissions::from_bits_string(" 1").is_none());
    assert!(Permissions::from_bits_string("١٢").is_none());
    assert_eq!(Permissions::from_bits_retain(USE_EXTERNAL_APPS).to_bits_string(), "1125899906842624");
}

#[test]
fn permissions_agree_with_std_parsing() {
    let samples = [
        "0", "1", "+1", "++1", "-0", "0000", "999", "18446744073709551615",
        "18446744073709551616", "99999999999999999999999", "1_000", "0x10", "", "+", "1 ", "٣",
    ];
    for s in samples {
        let expected = s.parse::<u64>().ok();
        assert_eq!(Permissions::from_bits_string(s).map(|p| p.bits()), expected, "input {:?}", s);
    }
}

#[test]
fn permission_sets_combine() {
    let a = Permissions::from_bits_retain(VIEW_CHANNEL | SEND_MESSAGES);
    let b = Permissions::from_bits_retain(SEND_MESSAGES);
    assert!(a.contains(b));
    assert!(!b.contains(a));
    assert!(a.contains(Permissions::empty()));
    assert_eq!(a.intersection(b), b);
    assert_eq!(b.union(Permissions::from_bits_retain(VIEW_CHANNEL)), a);
    assert!(Permissions::empty().is_empty());
    assert!(!a.is_empty());
}

#[test]
fn member_lists_take_limit_and_after() {
    let g = GuildsManager;
    assert_eq!(g.members_url("1", None, None), "https://discord.com/api/v10/guilds/1/members");
    assert_eq!(
        g.members_url("1", Some(50), None),
        "https://discord.com/api/v10/guilds/1/members?limit=50"
    );
    assert_eq!(
        g.members_url("1", None, Some("77")),
        "https://discord.com/api/v10/guilds/1/members?after=77"
    );
    assert_eq!(
        g.members_url("1", Some(1000), Some("77")),
        "https://discord.com/api/v10/guilds/1/members?limit=1000&after=77"
    );
}

#[test]
fn searches_carry_query_and_limit() {
    let g = GuildsManager;
    assert_eq!(
        g.search_members_url("1", "bob", None),
        "https://discord.com/api/v10/guilds/1/members/search?query=bob"
    );
    assert_eq!(
        g.search_members_url("1", "bob", Some(5)),
        "https://discord.com/api/v10/guilds/1/members/search?query=bob&limit=5"
    );
    assert_eq!(
        g.search_bans_url("1", "eve", Some(255)),
        "https://discord.com/api/v10/guilds/1/bans/search?query=eve&limit=255"
    );
}

#[test]
fn channel_addresses_follow_their_options() {
    let c = ChannelsManager;
    assert_eq!(c.delete_channel_url("9", None), "https://discord.com/api/v10/channels/9");
    assert_eq!(
        c.delete_channel_url("9", Some(true)),
        "https://discord.com/api/v10/channels/9?silent=true"
    );
    assert_eq!(
        c.delete_channel_url("9", Some(false)),
        "https://discord.com/api/v10/channels/9?silent=false"
    );
    assert_eq!(
        c.archived_threads_url("9", ArchivedThreads::Public, Some("2026-01-01"), Some(10)),
        "https://discord.com/api/v10/channels/9/threads/archived/public?before=2026-01-01&limit=10"
    );
    assert_eq!(
        c.archived_threads_url("9", ArchivedThreads::Private, None, None),
        "https://discord.com/api/v10/channels/9/threads/archived/private"
    );
    assert_eq!(
        c.archived_threads_url("9", ArchivedThreads::JoinedPrivate, Some("t"), None),
        "https://discord.com/api/v10/channels/9/users/@me/threads/archived/private?before=t"
    );
    let channel = Channel::new("9", ChannelType::GuildText);
    assert_eq!(
        channel.messages_url(None, None, None, None),
        "https://discord.com/api/v10/channels/9/messages"
    );
    assert_eq!(
        channel.messages_url(Some("a"), Some("b"), Some("c"), Some(100)),
        "https://discord.com/api/v10/channels/9/messages?around=a&before=b&after=c&limit=100"
    );
    assert_eq!(
        channel.messages_url(None, Some("b"), None, Some(1)),
        "https://discord.com/api/v10/channels/9/messages?before=b&limit=1"
    );
}

#[test]
fn thread_search_lists_every_parameter_in_order() {
    let c = ChannelsManager;
    let none = SearchThreadsParams::default();
    assert!(none.query_params().is_empty());
    assert_eq!(
        c.search_threads_url("9", &none),
        "https://discord.com/api/v10/channels/9/threads/search"
    );
    let all = SearchThreadsParams {
        name: Some("x".to_string()),
        slop: Some(2),
        tags: Some(vec!["t1".to_string(), "t2".to_string()]),
        tag_setting: Some("match_all".to_string()),
        archived: Some(false),
        sort_by: Some("relevance".to_string()),
        sort_order: Some("desc".to_string()),
        limit: Some(25),
        offset: Some(50),
        max_id: Some("900".to_string()),
        min_id: Some("100".to_string()),
    };
    assert_eq!(
        all.query_params(),
        vec![
            "name=x", "slop=2", "tag=t1", "tag=t2", "tag_setting=match_all", "archived=false",
            "sort_by=relevance", "sort_order=desc", "limit=25", "offset=50", "max_id=900",
            "min_id=100",
        ]
    );
    assert_eq!(
        c.search_threads_url("9", &all),
        "https://discord.com/api/v10/channels/9/threads/search?name=x&slop=2&tag=t1&tag=t2&tag_setting=match_all&archived=false&sort_by=relevance&sort_order=desc&limit=25&offset=50&max_id=900&min_id=100"
    );
    let empty_tags = SearchThreadsParams { tags: Some(Vec::new()), ..SearchThreadsParams::default() };
    assert!(empty_tags.query_params().is_empty());
}
