use diself::error::Error;
use diself::gateway::backoff::{
    backoff_base_ms, backoff_delay_ms, backoff_with_jitter, max_jitter_ms, MAX_RECONNECT_BACKOFF_MS,
};
use diself::gateway::gateway::{
    Directive, Gateway, Phase, Reaction, Tick, DEFAULT_GATEWAY_URL, INVALID_SESSION_RETRY_DELAY_MS,
};
use diself::gateway::payload::{
    read_frame, Frame, Inbound, Outbound, RawPayload, Received, OP_HEARTBEAT, OP_IDENTIFY,
    OP_RESUME,
};
use diself::gateway::{Heartbeat, Identify};

fn inbound(op: u64) -> Inbound {
    Inbound {
        opcode: Some(op),
        event_name: None,
        sequence: None,
        resumable: None,
        heartbeat_interval: None,
        session_id: None,
        resume_gateway_url: None,
    }
}

fn hello(interval: u64) -> Inbound {
    let mut m = inbound(10);
    m.heartbeat_interval = Some(interval);
    m
}

fn dispatch(name: &str, seq: u64) -> Inbound {
    let mut m = inbound(0);
    m.event_name = Some(name.to_string());
    m.sequence = Some(seq);
    m
}

fn ready(seq: u64, session: &str, url: &str) -> Inbound {
    let mut m = dispatch("READY", seq);
    m.session_id = Some(session.to_string());
    m.resume_gateway_url = Some(url.to_string());
    m
}

fn steady(token: &str) -> Gateway {
    let mut g = Gateway::new(token);
    let attempt = g.next_attempt();
    assert_eq!(attempt.delay_ms, 0);
    g.connected();
    assert!(g.on_hello(&hello(41250)).is_ok());
    g.handshake_sent();
    assert_eq!(g.phase(), Phase::Steady);
    g
}

fn value(text: &str) -> serde_json::Value {
    serde_json::from_str(text).unwrap()
}

#[test]
fn hello_is_answered_with_identify_and_arms_the_timer() {
    let mut g = Gateway::new("secret");
    assert_eq!(g.phase(), Phase::Reconnecting);
    let attempt = g.next_attempt();
    assert_eq!(attempt.delay_ms, 0);
    assert_eq!(attempt.url, DEFAULT_GATEWAY_URL);
    assert_eq!(attempt.url, "wss://gateway.discord.gg/?v=10&encoding=json");
    assert_eq!(g.phase(), Phase::Connecting);
    g.connected();
    assert_eq!(g.phase(), Phase::AwaitingHello);

    let frame = RawPayload::parse("{\"op\":10,\"d\":{\"heartbeat_interval\":41250}}").unwrap();
    let out = g.on_hello(&frame.inbound()).unwrap();
    assert_eq!(out.opcode(), OP_IDENTIFY);
    assert_eq!(out.opcode(), 2);
    match &out {
        Outbound::Identify(id) => {
            assert_eq!(id.token, "secret");
            assert_eq!(id.compress, Some(false));
            assert_eq!(id.capabilities, 16381);
            assert_eq!(id.intents, Some(3276799));
        }
        other => panic!("expected identify, got {:?}", other),
    }
    assert_eq!(g.phase(), Phase::Identifying);
    assert_eq!(g.heartbeat_interval_ms(), 41250);

    let sent = out.to_json();
    assert_eq!(sent.get("op").and_then(|v| v.as_u64()), Some(2));
    assert_eq!(sent["d"]["token"].as_str(), Some("secret"));

    g.handshake_sent();
    assert_eq!(g.phase(), Phase::Steady);
    assert!(!g.pending_heartbeat());
    assert!(!g.awaiting_heartbeat_ack());
    assert!(g.pending_outbound().is_none());
    let jitter = Heartbeat::new(g.heartbeat_interval_ms()).first_delay_ms();
    assert!(jitter <= 4125);
    assert_eq!(g.on_tick(), Tick::HeartbeatDue);
    assert!(matches!(g.pending_outbound(), Some(Outbound::Heartbeat { sequence: None })));
}

#[test]
fn unresumable_invalid_session_leads_to_a_fresh_identify() {
    let mut g = steady("secret");
    assert_eq!(g.handle(&ready(1, "abc", "wss://resume.example")), Reaction::Deliver);
    assert_eq!(g.session_id().as_deref(), Some("abc"));
    assert_eq!(g.sequence(), Some(1));
    assert!(g.can_resume());

    let frame = RawPayload::parse("{\"op\":9,\"d\":false}").unwrap();
    match g.on_payload(frame) {
        Directive::Reconnect { delay_ms } => {
            assert_eq!(delay_ms, INVALID_SESSION_RETRY_DELAY_MS);
            assert_eq!(delay_ms, 1000);
        }
        other => panic!("expected a reconnect, got {:?}", other),
    }
    assert_eq!(g.session_id(), None);
    assert_eq!(g.sequence(), None);
    assert!(!g.is_resuming());
    assert_eq!(g.phase(), Phase::Reconnecting);

    let attempt = g.next_attempt();
    assert_eq!(attempt.delay_ms, 0);
    g.connected();
    let out = g.on_hello(&hello(30000)).unwrap();
    assert!(matches!(out, Outbound::Identify(_)));
    assert_eq!(g.session_id(), None);
    assert_eq!(g.sequence(), None);
}

#[test]
fn resumable_invalid_session_keeps_the_session_and_resumes() {
    let mut g = steady("secret");
    g.handle(&ready(4, "abc", "wss://resume.example"));
    let frame = RawPayload::parse("{\"op\":9,\"d\":true}").unwrap();
    assert!(matches!(g.on_payload(frame), Directive::Reconnect { delay_ms: 1000 }));
    assert_eq!(g.session_id().as_deref(), Some("abc"));
    assert_eq!(g.sequence(), Some(4));
    assert!(g.is_resuming());

    let attempt = g.next_attempt();
    assert_eq!(attempt.url, "wss://resume.example/?v=10&encoding=json");
    g.connected();
    match g.on_hello(&hello(30000)).unwrap() {
        Outbound::Resume { token, session_id, sequence } => {
            assert_eq!(token, "secret");
            assert_eq!(session_id.as_deref(), Some("abc"));
            assert_eq!(sequence, Some(4));
        }
        other => panic!("expected resume, got {:?}", other),
    }
    assert_eq!(g.phase(), Phase::Resuming);
}

#[test]
fn invalid_session_without_a_boolean_counts_as_unresumable() {
    let mut g = steady("secret");
    g.handle(&ready(4, "abc", "wss://resume.example"));
    let frame = RawPayload::parse("{\"op\":9,\"d\":null}").unwrap();
    assert!(matches!(g.on_payload(frame), Directive::Reconnect { .. }));
    assert_eq!(g.session_id(), None);
    assert!(!g.is_resuming());
}

#[test]
fn second_tick_without_ack_reconnects() {
    let mut g = steady("secret");
    assert_eq!(g.on_tick(), Tick::HeartbeatDue);
    let out = g.pending_outbound().unwrap();
    assert_eq!(out.opcode(), OP_HEARTBEAT);
    g.heartbeat_sent();
    assert!(g.awaiting_heartbeat_ack());
    assert!(g.pending_outbound().is_none());

    assert_eq!(g.handle(&dispatch("MESSAGE_CREATE", 7)), Reaction::Deliver);
    assert_eq!(g.on_tick(), Tick::Reconnect);
    assert!(g.pending_outbound().is_none());
    assert_eq!(g.phase(), Phase::Reconnecting);
    assert!(!g.awaiting_heartbeat_ack());
}

#[test]
fn acknowledged_heartbeats_keep_the_connection() {
    let mut g = steady("secret");
    for _ in 0..3 {
        assert_eq!(g.on_tick(), Tick::HeartbeatDue);
        assert!(g.pending_outbound().is_some());
        g.heartbeat_sent();
        assert_eq!(g.handle(&inbound(11)), Reaction::Continue);
    }
    assert_eq!(g.phase(), Phase::Steady);
}

#[test]
fn the_same_ack_twice_changes_nothing_more() {
    let mut g = steady("secret");
    assert_eq!(g.on_tick(), Tick::HeartbeatDue);
    g.heartbeat_sent();
    assert!(g.awaiting_heartbeat_ack());
    assert_eq!(g.handle(&inbound(11)), Reaction::Continue);
    assert!(!g.awaiting_heartbeat_ack());
    let before = (g.phase(), g.sequence(), g.pending_heartbeat(), g.session_id());
    assert_eq!(g.handle(&inbound(11)), Reaction::Continue);
    assert!(!g.awaiting_heartbeat_ack());
    assert_eq!(before, (g.phase(), g.sequence(), g.pending_heartbeat(), g.session_id()));
}

#[test]
fn failed_resumes_wait_longer_each_time_and_success_resets() {
    let mut g = steady("secret");
    g.handle(&ready(3, "abc", "wss://resume.example"));
    g.on_closed();
    assert_eq!(g.phase(), Phase::Reconnecting);
    assert!(g.is_resuming());

    let mut last = 0u64;
    for failures in 1u32..=3 {
        let attempt = g.next_attempt();
        if failures == 1 {
            assert_eq!(attempt.delay_ms, 0);
        } else {
            assert!(attempt.delay_ms > last);
        }
        last = attempt.delay_ms;
        g.handshake_failed();
        assert_eq!(g.reconnect_attempts(), failures);
        assert!(!g.is_resuming());
    }
    let attempt = g.next_attempt();
    assert!(attempt.delay_ms > last);
    assert!(attempt.delay_ms >= 8000 && attempt.delay_ms <= 9600);
    g.connected();
    assert!(matches!(g.on_hello(&hello(1000)).unwrap(), Outbound::Identify(_)));
    g.handshake_sent();
    assert_eq!(g.reconnect_attempts(), 0);
    assert_eq!(g.phase(), Phase::Steady);
}

#[test]
fn backoff_doubles_up_to_a_minute() {
    assert_eq!(backoff_base_ms(0), 1000);
    assert_eq!(backoff_base_ms(1), 2000);
    assert_eq!(backoff_base_ms(2), 4000);
    assert_eq!(backoff_base_ms(3), 8000);
    assert_eq!(backoff_base_ms(4), 16000);
    assert_eq!(backoff_base_ms(5), 32000);
    assert_eq!(backoff_base_ms(6), 60000);
    assert_eq!(backoff_base_ms(7), 60000);
    assert_eq!(backoff_base_ms(u32::MAX), MAX_RECONNECT_BACKOFF_MS);
    assert_eq!(max_jitter_ms(60000), 12000);
    assert_eq!(max_jitter_ms(2000), 400);
    assert_eq!(backoff_delay_ms(1, 0), 2000);
    assert_eq!(backoff_delay_ms(1, 400), 2400);
    assert_eq!(backoff_delay_ms(1, 401), 2400);
    assert_eq!(backoff_delay_ms(6, 12000), 72000);
    assert_eq!(backoff_delay_ms(9, u64::MAX), 72000);
}

#[test]
fn drawn_backoff_stays_within_a_fifth() {
    for attempt in 0u32..10 {
        let base = backoff_base_ms(attempt);
        for _ in 0..50 {
            let ms = backoff_with_jitter(attempt);
            assert!(ms >= base && ms <= base + base / 5);
        }
    }
}

#[test]
fn sequence_follows_growing_sequence_numbers() {
    let mut g = steady("secret");
    for seq in [2u64, 3, 5, 8, 13] {
        assert_eq!(g.handle(&dispatch("MESSAGE_CREATE", seq)), Reaction::Deliver);
        assert_eq!(g.sequence(), Some(seq));
    }
    let mut unnumbered = inbound(0);
    unnumbered.event_name = Some("TYPING_START".to_string());
    assert_eq!(g.handle(&unnumbered), Reaction::Deliver);
    assert_eq!(g.sequence(), Some(13));
}

#[test]
fn ready_gives_the_session_its_identity() {
    let mut g = steady("secret");
    let frame = RawPayload::parse(
        "{\"op\":0,\"t\":\"READY\",\"s\":1,\"d\":{\"session_id\":\"s-1\",\"resume_gateway_url\":\"wss://r.example\",\"user\":{\"id\":\"5\"}}}",
    )
    .unwrap();
    match g.on_payload(frame) {
        Directive::Deliver(p) => {
            assert_eq!(p.event_name.as_deref(), Some("READY"));
            assert_eq!(p.sequence, Some(1));
            assert_eq!(p.data["user"]["id"].as_str(), Some("5"));
        }
        other => panic!("expected delivery, got {:?}", other),
    }
    assert_eq!(g.session_id().as_deref(), Some("s-1"));
    assert_eq!(g.resume_gateway_url().as_deref(), Some("wss://r.example/?v=10&encoding=json"));
    assert_eq!(g.endpoint(), "wss://r.example/?v=10&encoding=json");
    assert!(g.can_resume());
}

#[test]
fn control_payloads_are_used_up_by_the_session() {
    let mut g = steady("secret");
    g.heartbeat_sent();
    assert!(!g.awaiting_heartbeat_ack());
    assert!(!g.pending_heartbeat());
    assert_eq!(g.handle(&inbound(1)), Reaction::Continue);
    assert!(g.pending_heartbeat());
    assert_eq!(g.handle(&hello(5)), Reaction::Continue);
    assert_eq!(g.heartbeat_interval_ms(), 41250);
    assert_eq!(g.handle(&inbound(42)), Reaction::Continue);
    let mut nothing = inbound(0);
    nothing.opcode = None;
    assert_eq!(g.handle(&nothing), Reaction::Continue);
    assert_eq!(g.phase(), Phase::Steady);
    assert_eq!(g.handle(&inbound(7)), Reaction::Reconnect { delay_ms: 0 });
    assert_eq!(g.phase(), Phase::Reconnecting);
}

#[test]
fn a_first_frame_that_is_no_hello_fails_the_handshake() {
    for bad in [inbound(0), inbound(10), hello_with_op(11, 5)] {
        let mut g = Gateway::new("secret");
        g.next_attempt();
        g.connected();
        assert!(matches!(g.on_hello(&bad), Err(Error::InvalidPayload)));
        assert_eq!(g.phase(), Phase::Reconnecting);
        assert_eq!(g.reconnect_attempts(), 1);
    }
    let mut g = Gateway::new("secret");
    assert!(matches!(g.on_hello(&hello(5)), Err(Error::InvalidPayload)));
    assert_eq!(g.phase(), Phase::Reconnecting);
    assert_eq!(g.reconnect_attempts(), 0);
}

fn hello_with_op(op: u64, interval: u64) -> Inbound {
    let mut m = inbound(op);
    m.heartbeat_interval = Some(interval);
    m
}

#[test]
fn a_lost_connection_is_resumed_if_it_can_be() {
    let mut g = steady("secret");
    g.on_closed();
    assert_eq!(g.phase(), Phase::Reconnecting);
    assert!(!g.is_resuming());
    assert_eq!(g.reconnect_attempts(), 0);

    let mut g = steady("secret");
    g.handle(&ready(1, "abc", "wss://r.example"));
    g.on_closed();
    assert!(g.is_resuming());

    let mut g = Gateway::new("secret");
    g.next_attempt();
    g.on_closed();
    assert_eq!(g.phase(), Phase::Reconnecting);
    assert_eq!(g.reconnect_attempts(), 1);
}

#[test]
fn nothing_leaves_shutdown() {
    let mut g = steady("secret");
    g.shutdown();
    assert_eq!(g.phase(), Phase::ShutDown);
    assert!(!g.pending_heartbeat());
    assert_eq!(g.on_tick(), Tick::Idle);
    assert!(g.pending_outbound().is_none());
    assert_eq!(g.handle(&dispatch("MESSAGE_CREATE", 5)), Reaction::Continue);
    assert_eq!(g.sequence(), None);
    g.on_closed();
    g.next_attempt();
    g.connected();
    g.handshake_sent();
    g.handshake_failed();
    assert!(g.on_hello(&hello(5)).is_err());
    assert_eq!(g.phase(), Phase::ShutDown);
    assert_eq!(g.reconnect_attempts(), 0);
}

#[test]
fn frames_are_read_by_their_kind() {
    match read_frame(&Frame::Text("{\"op\":11}".to_string())).unwrap() {
        Received::Payload(p) => {
            assert_eq!(p.opcode, Some(11));
            assert_eq!(p.event_name, None);
            assert_eq!(p.sequence, None);
            assert!(p.data.is_null());
        }
        other => panic!("expected a payload, got {:?}", other),
    }
    assert!(matches!(read_frame(&Frame::Close), Ok(Received::Closed)));
    assert!(matches!(read_frame(&Frame::Binary), Ok(Received::Skipped)));
    assert!(matches!(read_frame(&Frame::Ping), Ok(Received::Skipped)));
    assert!(matches!(read_frame(&Frame::Pong), Ok(Received::Skipped)));
    assert!(matches!(read_frame(&Frame::Text("{op:11}".to_string())), Err(Error::Json(_))));
    assert!(matches!(read_frame(&Frame::Text(String::new())), Err(Error::Json(_))));
}

#[test]
fn envelopes_are_decoded_field_by_field() {
    let p = RawPayload::parse("{\"op\":0,\"t\":\"MESSAGE_CREATE\",\"s\":42,\"d\":{\"id\":\"m1\"}}")
        .unwrap();
    assert_eq!(p.opcode, Some(0));
    assert_eq!(p.event_name.as_deref(), Some("MESSAGE_CREATE"));
    assert_eq!(p.sequence, Some(42));
    assert_eq!(p.data, value("{\"id\":\"m1\"}"));
    assert!(p.is_dispatch());

    let p = RawPayload::parse("{\"op\":\"0\",\"t\":5,\"s\":-1}").unwrap();
    assert_eq!(p.opcode, None);
    assert_eq!(p.event_name, None);
    assert_eq!(p.sequence, None);
    assert!(p.data.is_null());
    assert!(!p.is_dispatch());

    let p = RawPayload::parse("[1,2,3]").unwrap();
    assert_eq!(p.opcode, None);
    assert!(p.data.is_null());

    let p = RawPayload::decode(&value("{\"op\":10,\"d\":{\"heartbeat_interval\":41250}}"));
    let m = p.inbound();
    assert_eq!(m.opcode, Some(10));
    assert_eq!(m.heartbeat_interval, Some(41250));
    assert_eq!(m.resumable, None);
    assert_eq!(m.session_id, None);

    let m = RawPayload::parse("{\"op\":9,\"d\":true}").unwrap().inbound();
    assert_eq!(m.resumable, Some(true));
    let copy = p.duplicate();
    assert_eq!(copy.opcode, p.opcode);
    assert_eq!(copy.data, p.data);
}

#[test]
fn heartbeat_payload_carries_the_sequence() {
    let out = Outbound::Heartbeat { sequence: Some(41) };
    assert_eq!(out.to_json(), value("{\"op\":1,\"d\":41}"));
    let out = Outbound::Heartbeat { sequence: None };
    assert_eq!(out.to_json(), value("{\"op\":1,\"d\":null}"));
    let text = out.to_text();
    assert_eq!(value(&text), value("{\"d\":null,\"op\":1}"));

    let mut h = Heartbeat::new(1000);
    assert_eq!(h.sequence(), None);
    assert!(matches!(h.beat(), Outbound::Heartbeat { sequence: None }));
    h.observe(9);
    assert!(matches!(h.beat(), Outbound::Heartbeat { sequence: Some(9) }));
    assert_eq!(h.first_delay_for(50), 50);
    assert_eq!(h.first_delay_for(100), 100);
    assert_eq!(h.first_delay_for(101), 100);
    for _ in 0..50 {
        assert!(h.first_delay_ms() <= 100);
    }
    assert_eq!(Heartbeat::new(9).first_delay_ms(), 0);
    assert_eq!(Heartbeat::new(41250).period_ms(), 41250);
    assert_eq!(Heartbeat::new(0).period_ms(), 1);
}

#[test]
fn resume_payload_is_written_as_the_protocol_has_it() {
    let out = Outbound::Resume {
        token: "tok \"quoted\"".to_string(),
        session_id: Some("abc".to_string()),
        sequence: Some(7),
    };
    assert_eq!(out.opcode(), OP_RESUME);
    assert_eq!(
        out.to_json(),
        value("{\"op\":6,\"d\":{\"token\":\"tok \\\"quoted\\\"\",\"session_id\":\"abc\",\"seq\":7}}")
    );
    let out = Outbound::Resume { token: "t".to_string(), session_id: None, sequence: None };
    assert_eq!(
        out.to_json(),
        value("{\"op\":6,\"d\":{\"token\":\"t\",\"session_id\":null,\"seq\":null}}")
    );
}

#[test]
fn identify_payload_is_written_as_the_protocol_has_it() {
    let out = Outbound::Identify(Identify::new("tok"));
    let expected = value(
        "{\"op\":2,\"d\":{\"token\":\"tok\",\"properties\":{\"$os\":\"Mac OS X\",\"$browser\":\"Discord Client\",\"$device\":\"\",\"$system_locale\":\"en-US\",\"$browser_version\":\"27.0.0\",\"$os_version\":\"14.0.0\",\"$referrer\":\"\",\"$referring_domain\":\"\",\"$release_channel\":\"stable\",\"$client_build_number\":275530},\"presence\":{\"status\":\"online\",\"since\":null,\"activities\":[],\"afk\":false},\"compress\":false,\"capabilities\":16381,\"intents\":3276799}}",
    );
    assert_eq!(out.to_json(), expected);

    let mut id = Identify::new("tok");
    id.presence = None;
    id.intents = None;
    id.compress = None;
    let d = &Outbound::Identify(id).to_json()["d"];
    assert!(d.get("presence").is_none());
    assert!(d.get("intents").is_none());
    assert!(d["compress"].is_null());
}

#[test]
fn presence_lists_its_activities() {
    let mut id = Identify::new("tok");
    let mut presence = diself::gateway::PresenceUpdate::default();
    presence.since = Some(5);
    presence.afk = true;
    presence.activities.push(diself::gateway::Activity {
        name: "Chess".to_string(),
        kind: 0,
        url: None,
    });
    presence.activities.push(diself::gateway::Activity {
        name: "Live".to_string(),
        kind: 1,
        url: Some("https://example.org/live".to_string()),
    });
    id.presence = Some(presence);
    let d = &Outbound::Identify(id).to_json()["d"]["presence"];
    assert_eq!(
        *d,
        value("{\"status\":\"online\",\"since\":5,\"activities\":[{\"name\":\"Chess\",\"type\":0},{\"name\":\"Live\",\"type\":1,\"url\":\"https://example.org/live\"}],\"afk\":true}")
    );
}
