use diself::error::{CaptchaInfo, Error};
use diself::http;
use diself::http::body::{ban_body, bulk_delete_body, profile_body};
use diself::http::query::{bool_str, pair, with_query};
use diself::http::response::{
    after_response, attach_captcha_key, captcha_headers, classify_status, conclude,
    failure_message, handle_response, Answer, CaptchaStep, ResponseClass,
};

fn answer<'a>(status: u16, status_line: &'a str, body: &'a str) -> Answer<'a> {
    Answer { status, status_line, body, retry_after_ms: None, captcha: None }
}

fn challenge() -> CaptchaInfo {
    CaptchaInfo {
        captcha_key: vec!["captcha-required".to_string()],
        captcha_sitekey: "site".to_string(),
        captcha_service: "hcaptcha".to_string(),
        captcha_session_id: Some("sess".to_string()),
        captcha_rqdata: None,
        captcha_rqtoken: Some("tok".to_string()),
    }
}

#[test]
fn api_url_uses_v10_base_url() {
    let url = http::api_url("/channels/123/messages");
    assert_eq!(url, "https://discord.com/api/v10/channels/123/messages");
}

#[test]
fn api_url_of_empty_endpoint_is_the_prefix() {
    assert_eq!(http::api_url(""), "https://discord.com/api/v10");
    assert_eq!(format!("{}/v{}", http::BASE_URL, http::API_VERSION), http::api_url(""));
}

#[test]
fn status_codes_are_sorted_into_classes() {
    assert_eq!(classify_status(200), ResponseClass::Success);
    assert_eq!(classify_status(201), ResponseClass::Success);
    assert_eq!(classify_status(299), ResponseClass::Success);
    assert_eq!(classify_status(204), ResponseClass::NoContent);
    assert_eq!(classify_status(429), ResponseClass::RateLimited);
    assert_eq!(classify_status(400), ResponseClass::BadRequest);
    assert_eq!(classify_status(199), ResponseClass::Failure);
    assert_eq!(classify_status(300), ResponseClass::Failure);
    assert_eq!(classify_status(404), ResponseClass::Failure);
    assert_eq!(classify_status(500), ResponseClass::Failure);
}

#[test]
fn no_content_is_a_json_null() {
    let r = handle_response(answer(204, "204 No Content", ""));
    assert_eq!(r.unwrap(), serde_json::Value::Null);
}

#[test]
fn success_gives_the_parsed_body() {
    let r = handle_response(answer(200, "200 OK", "{\"id\":\"7\",\"n\":3}"));
    let v = r.unwrap();
    assert_eq!(v.get("id").and_then(|x| x.as_str()), Some("7"));
    assert_eq!(v.get("n").and_then(|x| x.as_u64()), Some(3));
}

#[test]
fn success_with_a_body_that_is_no_json_is_a_json_error() {
    let r = handle_response(answer(200, "200 OK", "<html>"));
    assert!(matches!(r, Err(Error::Json(_))));
}

#[test]
fn rate_limit_carries_the_wait_or_a_second() {
    let mut a = answer(429, "429 Too Many Requests", "{\"retry_after\":2.5}");
    a.retry_after_ms = Some(2500);
    match handle_response(a) {
        Err(Error::RateLimit { retry_after_ms }) => assert_eq!(retry_after_ms, 2500),
        other => panic!("unexpected outcome: {:?}", other),
    }
    match handle_response(answer(429, "429 Too Many Requests", "{}")) {
        Err(Error::RateLimit { retry_after_ms }) => assert_eq!(retry_after_ms, 1000),
        other => panic!("unexpected outcome: {:?}", other),
    }
}

#[test]
fn bad_request_with_a_challenge_asks_for_a_captcha() {
    let mut a = answer(400, "400 Bad Request", "{\"captcha_sitekey\":\"site\"}");
    a.captcha = Some(challenge());
    match handle_response(a) {
        Err(Error::CaptchaRequired(info)) => {
            assert_eq!(info.captcha_sitekey, "site");
            assert_eq!(info.captcha_session_id.as_deref(), Some("sess"));
        }
        other => panic!("unexpected outcome: {:?}", other),
    }
}

#[test]
fn bad_request_without_sitekey_is_a_plain_failure() {
    let mut a = answer(400, "400 Bad Request", "{\"message\":\"no\"}");
    a.captcha = Some(challenge());
    match handle_response(a) {
        Err(Error::GatewayConnection(m)) => {
            assert_eq!(m, "HTTP 400 Bad Request - {\"message\":\"no\"}")
        }
        other => panic!("unexpected outcome: {:?}", other),
    }
}

#[test]
fn bad_request_with_sitekey_that_does_not_decode_is_a_plain_failure() {
    let a = answer(400, "400 Bad Request", "{\"captcha_sitekey\":5}");
    match handle_response(a) {
        Err(Error::GatewayConnection(m)) => {
            assert_eq!(m, "HTTP 400 Bad Request - {\"captcha_sitekey\":5}")
        }
        other => panic!("unexpected outcome: {:?}", other),
    }
}

#[test]
fn other_statuses_fail_with_the_body_text() {
    match handle_response(answer(404, "404 Not Found", "gone")) {
        Err(Error::GatewayConnection(m)) => assert_eq!(m, "HTTP 404 Not Found - gone"),
        other => panic!("unexpected outcome: {:?}", other),
    }
}

#[test]
fn conclude_goes_by_what_it_is_handed() {
    let parsed: Result<serde_json::Value, String> = Ok(serde_json::Value::Bool(true));
    let r = conclude(answer(200, "200 OK", "ignored"), parsed, false);
    assert_eq!(r.unwrap(), serde_json::Value::Bool(true));
    let r = conclude(answer(200, "200 OK", "ignored"), Err("bad".to_string()), false);
    match r {
        Err(Error::Json(m)) => assert_eq!(m, "bad"),
        other => panic!("unexpected outcome: {:?}", other),
    }
}

#[test]
fn failure_message_has_status_and_detail() {
    assert_eq!(failure_message("500 Internal Server Error", "boom"), "HTTP 500 Internal Server Error - boom");
    assert_eq!(failure_message("", ""), "HTTP  - ");
}

#[test]
fn a_challenge_goes_to_the_solver_once() {
    let step = after_response(Err(Error::CaptchaRequired(challenge())), true, false);
    assert!(matches!(step, CaptchaStep::Solve(_)));
    let step = after_response(Err(Error::CaptchaRequired(challenge())), false, false);
    assert!(matches!(step, CaptchaStep::Done(Err(Error::CaptchaRequired(_)))));
    let step = after_response(Err(Error::CaptchaRequired(challenge())), true, true);
    assert!(matches!(step, CaptchaStep::Done(Err(Error::CaptchaRequired(_)))));
    let step = after_response(Ok(serde_json::Value::Null), true, false);
    assert!(matches!(step, CaptchaStep::Done(Ok(_))));
    let step = after_response(Err(Error::InvalidPayload), true, false);
    assert!(matches!(step, CaptchaStep::Done(Err(Error::InvalidPayload))));
}

#[test]
fn captcha_key_is_attached_to_an_object_body() {
    let body: serde_json::Value = serde_json::from_str("{\"content\":\"hi\"}").unwrap();
    let out = attach_captcha_key(Some(body), Some("solved")).unwrap();
    let expected: serde_json::Value =
        serde_json::from_str("{\"content\":\"hi\",\"captcha_key\":\"solved\"}").unwrap();
    assert_eq!(out, expected);
}

#[test]
fn captcha_key_alone_makes_a_body() {
    let out = attach_captcha_key(None, Some("solved")).unwrap();
    assert_eq!(out.to_string(), "{\"captcha_key\":\"solved\"}");
}

#[test]
fn captcha_key_leaves_other_bodies_alone() {
    let body: serde_json::Value = serde_json::from_str("[1,2]").unwrap();
    let out = attach_captcha_key(Some(body.clone()), Some("solved")).unwrap();
    assert_eq!(out, body);
    let out = attach_captcha_key(Some(body.clone()), None).unwrap();
    assert_eq!(out, body);
    assert!(attach_captcha_key(None, None).is_none());
}

#[test]
fn captcha_headers_list_what_is_there() {
    let h = captcha_headers(Some("k"), Some("s"), Some("t"));
    assert_eq!(
        h,
        vec![
            ("X-Captcha-Key".to_string(), "k".to_string()),
            ("X-Captcha-Session-Id".to_string(), "s".to_string()),
            ("X-Captcha-RqToken".to_string(), "t".to_string()),
        ]
    );
    let h = captcha_headers(None, None, Some("t"));
    assert_eq!(
        h,
        vec![
            ("X-Captcha-Key".to_string(), "".to_string()),
            ("X-Captcha-RqToken".to_string(), "t".to_string()),
        ]
    );
    let h = captcha_headers(Some("k"), None, None);
    assert_eq!(h, vec![("X-Captcha-Key".to_string(), "k".to_string())]);
}

#[test]
fn queries_are_joined_behind_the_address() {
    assert_eq!(pair("limit", "5"), "limit=5");
    assert_eq!(bool_str(true), "true");
    assert_eq!(bool_str(false), "false");
    let none: Vec<String> = Vec::new();
    assert_eq!(with_query("u".to_string(), &none), "u");
    assert_eq!(with_query("u".to_string(), &vec!["a=1".to_string()]), "u?a=1");
    assert_eq!(
        with_query("u".to_string(), &vec!["a=1".to_string(), "b=2".to_string()]),
        "u?a=1&b=2"
    );
}

#[test]
fn errors_describe_themselves() {
    assert_eq!(Error::InvalidPayload.describe(), "Invalid payload received");
    assert_eq!(
        Error::GatewayConnection("down".to_string()).describe(),
        "Gateway connection error: down"
    );
    assert_eq!(Error::WebSocket("reset".to_string()).describe(), "WebSocket error: reset");
    assert_eq!(Error::Json("eof".to_string()).describe(), "JSON parsing error: eof");
    assert_eq!(Error::Http("timeout".to_string()).describe(), "HTTP request failed: timeout");
    assert_eq!(Error::Io("denied".to_string()).describe(), "IO error: denied");
    assert_eq!(Error::RateLimit { retry_after_ms: 2500 }.describe(), "Rate limited for 2.500s");
    assert_eq!(Error::RateLimit { retry_after_ms: 7 }.describe(), "Rate limited for 0.007s");
    assert_eq!(
        Error::CaptchaRequired(challenge()).describe(),
        "Captcha required but no handler provided"
    );
    assert_eq!(
        Error::CaptchaHandlerFailed("gave up".to_string()).describe(),
        "Captcha handler failed: gave up"
    );
}

fn json(text: &str) -> serde_json::Value {
    serde_json::from_str(text).unwrap()
}

#[test]
fn bodies_hold_what_is_given_and_nothing_else() {
    assert_eq!(ban_body(None, None), json("{}"));
    assert_eq!(ban_body(Some(3600), None), json("{\"delete_message_seconds\":3600}"));
    assert_eq!(ban_body(None, Some("spam")), json("{\"reason\":\"spam\"}"));
    assert_eq!(
        ban_body(Some(0), Some("a \"b\"")),
        json("{\"delete_message_seconds\":0,\"reason\":\"a \\\"b\\\"\"}")
    );
    assert_eq!(profile_body(None, None, None), json("{}"));
    assert_eq!(
        profile_body(Some("n"), Some("data:a"), Some("data:b")),
        json("{\"username\":\"n\",\"avatar\":\"data:a\",\"banner\":\"data:b\"}")
    );
    assert_eq!(profile_body(None, None, Some("data:b")), json("{\"banner\":\"data:b\"}"));
    assert_eq!(bulk_delete_body(None), json("{}"));
    assert_eq!(bulk_delete_body(Some(&vec![1, 2])), json("{\"filters\":[1,2]}"));
    assert_eq!(bulk_delete_body(Some(&Vec::new())), json("{\"filters\":[]}"));
}
