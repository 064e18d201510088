use diself::client::dispatcher::{
    choose_hook, loop_action, route, users_to_cache, Hook, LoopAction, Wake,
};
use diself::client::image::{content_type_for_extension, image_to_data_uri, is_remote_source};
use diself::gateway::RawPayload;
use diself::model::{Message, User};
use diself::{CacheConfig, DispatchEvent, DispatchEventType};

fn payload(text: &str) -> RawPayload {
    RawPayload::parse(text).unwrap()
}

#[test]
fn known_kinds_go_to_their_hooks() {
    let r = route(&payload("{\"op\":0,\"t\":\"READY\",\"s\":1,\"d\":{\"user\":{\"id\":\"1\"}}}")).unwrap();
    assert_eq!(r.event.kind, DispatchEventType::Ready);
    assert_eq!(r.event.sequence, Some(1));
    assert_eq!(r.event.data["user"]["id"].as_str(), Some("1"));
    assert!(matches!(r.hook, Hook::Ready));

    let r = route(&payload("{\"op\":0,\"t\":\"READY_SUPPLEMENTAL\",\"d\":{}}")).unwrap();
    assert!(matches!(r.hook, Hook::ReadySupplemental));
    let r = route(&payload("{\"op\":0,\"t\":\"MESSAGE_CREATE\",\"d\":{}}")).unwrap();
    assert!(matches!(r.hook, Hook::MessageCreate));
    let r = route(&payload("{\"op\":0,\"t\":\"MESSAGE_UPDATE\",\"d\":{}}")).unwrap();
    assert!(matches!(r.hook, Hook::MessageUpdate));
    let r = route(&payload("{\"op\":0,\"t\":\"MESSAGE_REACTION_ADD\",\"d\":{}}")).unwrap();
    assert_eq!(r.event.kind, DispatchEventType::MessageReactionAdd);
    assert!(matches!(r.hook, Hook::Generic));
}

#[test]
fn a_deleted_message_needs_both_ids() {
    let r = route(&payload(
        "{\"op\":0,\"t\":\"MESSAGE_DELETE\",\"s\":3,\"d\":{\"channel_id\":\"c1\",\"id\":\"m1\"}}",
    ))
    .unwrap();
    match r.hook {
        Hook::MessageDelete { channel_id, message_id } => {
            assert_eq!(channel_id, "c1");
            assert_eq!(message_id, "m1");
        }
        other => panic!("unexpected hook {:?}", other),
    }
    let r = route(&payload("{\"op\":0,\"t\":\"MESSAGE_DELETE\",\"d\":{\"channel_id\":\"c1\"}}")).unwrap();
    assert!(matches!(r.hook, Hook::Generic));
    let r = route(&payload("{\"op\":0,\"t\":\"MESSAGE_DELETE\",\"d\":{\"channel_id\":\"c1\",\"id\":7}}")).unwrap();
    assert!(matches!(r.hook, Hook::Generic));
    assert!(matches!(
        choose_hook(&DispatchEventType::MessageDelete, None, Some("m".to_string())),
        Hook::Generic
    ));
    assert!(matches!(
        choose_hook(&DispatchEventType::MessageCreate, Some("c".to_string()), Some("m".to_string())),
        Hook::MessageCreate
    ));
}

#[test]
fn an_unknown_kind_is_still_routed() {
    let r = route(&payload("{\"op\":0,\"t\":\"TYPING_START\",\"s\":9,\"d\":{\"x\":1}}")).unwrap();
    assert_eq!(r.event.kind, DispatchEventType::Unknown("TYPING_START".to_string()));
    assert_eq!(r.event.kind.as_str(), "TYPING_START");
    assert!(!r.event.kind.is_known());
    assert_eq!(r.event.sequence, Some(9));
    assert_eq!(r.event.data["x"].as_u64(), Some(1));
    assert!(matches!(r.hook, Hook::Generic));
}

#[test]
fn only_named_dispatches_are_routed() {
    assert!(route(&payload("{\"op\":11}")).is_none());
    assert!(route(&payload("{\"op\":1,\"t\":\"READY\"}")).is_none());
    assert!(route(&payload("{\"op\":0}")).is_none());
    assert!(route(&payload("{\"op\":0,\"t\":null}")).is_none());
    assert!(route(&payload("{\"t\":\"READY\"}")).is_none());
    assert!(route(&payload("{\"op\":0,\"t\":\"\"}")).is_some());
}

#[test]
fn event_names_and_kinds_correspond() {
    let names = [
        "READY",
        "READY_SUPPLEMENTAL",
        "MESSAGE_CREATE",
        "MESSAGE_UPDATE",
        "MESSAGE_DELETE",
        "MESSAGE_REACTION_ADD",
        "MESSAGE_REACTION_REMOVE",
    ];
    for name in names {
        let kind = DispatchEventType::from_name(name);
        assert!(kind.is_known());
        assert_eq!(kind.as_str(), name);
        assert_eq!(kind.duplicate(), kind);
    }
    for name in ["ready", "READY ", "", "RESUMED", "MESSAGE_CREATE_"] {
        let kind = DispatchEventType::from_name(name);
        assert_eq!(kind, DispatchEventType::Unknown(name.to_string()));
        assert_eq!(kind.as_str(), name);
    }
    let e = DispatchEvent::from_gateway_payload("MESSAGE_CREATE", Some(4), serde_json::Value::Bool(true));
    assert_eq!(e.kind, DispatchEventType::MessageCreate);
    assert_eq!(e.sequence, Some(4));
    assert_eq!(e.data, serde_json::Value::Bool(true));
    let copy = e.duplicate();
    assert_eq!(copy.kind, e.kind);
    assert_eq!(copy.data, e.data);
}

#[test]
fn a_created_message_caches_author_and_mentions() {
    let mut message = Message::new("m", "c", User::new("1", "a", "0001"), "hi", "t");
    message.mentions.push(User::new("2", "b", "0002"));
    message.mentions.push(User::new("3", "c", "0003"));
    let ids = |hook: &Hook| -> Vec<String> {
        users_to_cache(hook, &message).iter().map(|u| u.id.clone()).collect()
    };
    assert_eq!(ids(&Hook::MessageCreate), vec!["1", "2", "3"]);
    assert_eq!(ids(&Hook::MessageUpdate), vec!["1"]);
    assert!(ids(&Hook::Ready).is_empty());
    assert!(ids(&Hook::Generic).is_empty());
}

#[test]
fn the_loop_stops_on_shutdown_and_at_the_end_of_events() {
    let p = || payload("{\"op\":0,\"t\":\"READY\",\"s\":5}");
    match loop_action(false, Wake::Event(p())) {
        LoopAction::Handle(q) => assert_eq!(q.sequence, Some(5)),
        other => panic!("unexpected action {:?}", other),
    }
    assert!(matches!(loop_action(true, Wake::Event(p())), LoopAction::Stop));
    assert!(matches!(loop_action(false, Wake::GatewayClosed), LoopAction::Stop));
    assert!(matches!(loop_action(false, Wake::ShutdownSignal), LoopAction::Stop));
    assert!(matches!(loop_action(true, Wake::ShutdownSignal), LoopAction::Stop));
}

#[test]
fn images_become_data_uris() {
    assert_eq!(image_to_data_uri(b"hello", "image/png"), "data:image/png;base64,aGVsbG8=");
    assert_eq!(image_to_data_uri(b"", "image/gif"), "data:image/gif;base64,");
    assert_eq!(image_to_data_uri(&[0xff, 0xfe, 0xfd], "image/webp"), "data:image/webp;base64,//79");
    assert_eq!(image_to_data_uri(b"ab", ""), "data:;base64,YWI=");
}

#[test]
fn content_types_go_by_extension() {
    assert_eq!(content_type_for_extension(Some("jpg")), "image/jpeg");
    assert_eq!(content_type_for_extension(Some("jpeg")), "image/jpeg");
    assert_eq!(content_type_for_extension(Some("png")), "image/png");
    assert_eq!(content_type_for_extension(Some("gif")), "image/gif");
    assert_eq!(content_type_for_extension(Some("webp")), "image/webp");
    assert_eq!(content_type_for_extension(Some("JPG")), "image/png");
    assert_eq!(content_type_for_extension(Some("bmp")), "image/png");
    assert_eq!(content_type_for_extension(None), "image/png");
}

#[test]
fn sources_are_addresses_or_paths() {
    assert!(is_remote_source("http://example.org/a.png"));
    assert!(is_remote_source("https://example.org/a.png"));
    assert!(!is_remote_source("avatar.png"));
    assert!(!is_remote_source("ftp://example.org/a.png"));
    assert!(!is_remote_source("https:/example.org"));
    assert!(!is_remote_source(""));
}

#[test]
fn cache_configurations_keep_all_or_nothing() {
    let all = CacheConfig::default();
    assert!(all.cache_users && all.cache_channels && all.cache_guilds && all.cache_relationships);
    let none = CacheConfig::disabled();
    assert!(!none.cache_users && !none.cache_channels && !none.cache_guilds && !none.cache_relationships);
}
