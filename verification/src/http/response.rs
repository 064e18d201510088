//! What an answer of the REST API means: a value, a wait, a captcha to
//! solve, or a failure. The caller makes the request and reads the answer;
//! what is decided about it is decided here.

use vstd::prelude::*;
use vstd::string::*;
use crate::error::{CaptchaInfo, Error};
use crate::json::{
    json_member, json_parse, json_string_text, json_text, json_with_member, parse_value,
    value_empty_object, value_from_str, value_get, value_insert, value_null, value_to_string,
};

verus! {

/// The wait after a rate limit that names none, in milliseconds.
pub const DEFAULT_RETRY_AFTER_MS: u64 = 1000;

/// The member that carries a solved captcha in the body of a request.
pub const CAPTCHA_KEY_MEMBER: &'static str = "captcha_key";

/// The member by which an answer asks for a captcha.
pub const CAPTCHA_SITEKEY_MEMBER: &'static str = "captcha_sitekey";

/// The sorts of answer, by status code.
#[derive(Debug, Clone, Copy, PartialEq, Eq, Structural)]
pub enum ResponseClass {
    /// 204: success with nothing to read.
    NoContent,
    /// Any other code from 200 to 299.
    Success,
    /// 429: too many requests.
    RateLimited,
    /// 400: the request was refused, perhaps for want of a captcha.
    BadRequest,
    /// Every other code.
    Failure,
}

/// The sort of answer that a status code stands for.
pub open spec fn class_of(status: u16) -> ResponseClass {
    if status == 204 {
        ResponseClass::NoContent
    } else if 200 <= status < 300 {
        ResponseClass::Success
    } else if status == 429 {
        ResponseClass::RateLimited
    } else if status == 400 {
        ResponseClass::BadRequest
    } else {
        ResponseClass::Failure
    }
}

/// Sorts an answer by its status code.
pub fn classify_status(status: u16) -> (class: ResponseClass)
    ensures
        class == class_of(status),
{
    if status == 204 {
        ResponseClass::NoContent
    } else if 200 <= status && status < 300 {
        ResponseClass::Success
    } else if status == 429 {
        ResponseClass::RateLimited
    } else if status == 400 {
        ResponseClass::BadRequest
    } else {
        ResponseClass::Failure
    }
}

/// The message of a failed request: `HTTP`, the status line, a dash and the
/// detail.
pub open spec fn failure_text(status_line: Seq<char>, detail: Seq<char>) -> Seq<char> {
    "HTTP "@ + status_line + " - "@ + detail
}

/// Writes the message of a failed request.
pub fn failure_message(status_line: &str, detail: &str) -> (s: String)
    ensures
        s@ == failure_text(status_line@, detail@),
{
    let mut s = String::from_str("HTTP ");
    s.append(status_line);
    s.append(" - ");
    s.append(detail);
    s
}

/// What the caller read from an answer, as plain values.
pub struct Answer<'a> {
    /// The status code.
    pub status: u16,
    /// The status code with its reason, as in `404 Not Found`.
    pub status_line: &'a str,
    /// The body as text.
    pub body: &'a str,
    /// `retry_after` of the body in milliseconds, where the body names it.
    pub retry_after_ms: Option<u64>,
    /// The body decoded as a captcha challenge, where it is one.
    pub captcha: Option<CaptchaInfo>,
}

/// Whether `r` is what an answer comes to, given what parsing its body gave
/// and whether the body has the member that asks for a captcha.
///
/// A 204 is a JSON null. Any other success is the body's value. Too many
/// requests is a rate limit with the wait that the body names, or a second
/// if it names none. A bad request is a captcha challenge if the body asks
/// for one and decodes as one, and a failure with the body in its message
/// otherwise. Every other status is a failure with the body's text in its
/// message. A body that must be read and is no JSON is a JSON error.
pub open spec fn concludes(
    a: Answer,
    parsed: Result<serde_json::Value, String>,
    has_sitekey: bool,
    r: Result<serde_json::Value, Error>,
) -> bool {
    match class_of(a.status) {
        ResponseClass::NoContent => r matches Ok(v) && json_text(v) == "null"@,
        ResponseClass::Failure => r matches Err(Error::GatewayConnection(m)) && m@ == failure_text(
            a.status_line@,
            a.body@,
        ),
        class => match parsed {
            Err(detail) => r matches Err(Error::Json(m)) && m == detail,
            Ok(value) => match class {
                ResponseClass::Success => r matches Ok(v) && v == value,
                ResponseClass::RateLimited => r matches Err(Error::RateLimit { retry_after_ms })
                    && retry_after_ms == match a.retry_after_ms {
                    Some(ms) => ms,
                    None => DEFAULT_RETRY_AFTER_MS,
                },
                _ => if has_sitekey && a.captcha is Some {
                    r matches Err(Error::CaptchaRequired(info)) && info == a.captcha->0
                } else {
                    r matches Err(Error::GatewayConnection(m)) && m@ == failure_text(
                        a.status_line@,
                        json_text(value),
                    )
                },
            },
        },
    }
}

/// Decides what an answer comes to from what was read of it.
pub fn conclude(a: Answer, parsed: Result<serde_json::Value, String>, has_sitekey: bool) -> (r:
    Result<serde_json::Value, Error>)
    ensures
        concludes(a, parsed, has_sitekey, r),
{
    match classify_status(a.status) {
        ResponseClass::NoContent => Ok(value_null()),
        ResponseClass::Failure => Err(
            Error::GatewayConnection(failure_message(a.status_line, a.body)),
        ),
        class => match parsed {
            Err(detail) => Err(Error::Json(detail)),
            Ok(value) => match class {
                ResponseClass::Success => Ok(value),
                ResponseClass::RateLimited => Err(
                    Error::RateLimit {
                        retry_after_ms: match a.retry_after_ms {
                            Some(ms) => ms,
                            None => DEFAULT_RETRY_AFTER_MS,
                        },
                    },
                ),
                _ => {
                    let captcha = if has_sitekey {
                        a.captcha
                    } else {
                        None
                    };
                    match captcha {
                        Some(info) => Err(Error::CaptchaRequired(info)),
                        None => {
                            let text = value_to_string(&value);
                            Err(
                                Error::GatewayConnection(
                                    failure_message(a.status_line, text.as_str()),
                                ),
                            )
                        },
                    }
                },
            },
        },
    }
}

/// Whether `r` is what an answer comes to.
///
/// A 204 is a JSON null. Any other success is the body, parsed. Too many
/// requests is a rate limit with the wait that the answer names, or a second
/// if it names none. A bad request is a captcha challenge if the body has a
/// `captcha_sitekey` and decodes as a challenge, and a failure with the body
/// in its message otherwise. Every other status is a failure with the body's
/// text in its message. A body that must be read and is no JSON is a JSON
/// error.
pub open spec fn answers(a: Answer, r: Result<serde_json::Value, Error>) -> bool {
    match class_of(a.status) {
        ResponseClass::NoContent => r matches Ok(v) && json_text(v) == "null"@,
        ResponseClass::Failure => r matches Err(Error::GatewayConnection(m)) && m@ == failure_text(
            a.status_line@,
            a.body@,
        ),
        class => match json_parse(a.body@) {
            None => r matches Err(Error::Json(_)),
            Some(doc) => match class {
                ResponseClass::Success => r matches Ok(v) && json_text(v) == doc,
                ResponseClass::RateLimited => r matches Err(Error::RateLimit { retry_after_ms })
                    && retry_after_ms == match a.retry_after_ms {
                    Some(ms) => ms,
                    None => DEFAULT_RETRY_AFTER_MS,
                },
                _ => if json_member(doc, CAPTCHA_SITEKEY_MEMBER@) is Some && a.captcha is Some {
                    r matches Err(Error::CaptchaRequired(info)) && info == a.captcha->0
                } else {
                    r matches Err(Error::GatewayConnection(m)) && m@ == failure_text(
                        a.status_line@,
                        doc,
                    )
                },
            },
        },
    }
}

/// Parses the body of an answer and decides what the answer comes to.
pub fn handle_response(a: Answer) -> (r: Result<serde_json::Value, Error>)
    ensures
        answers(a, r),
{
    let parsed = parse_value(a.body);
    let has_sitekey = match &parsed {
        Ok(v) => value_get(v, CAPTCHA_SITEKEY_MEMBER).is_some(),
        Err(_) => false,
    };
    conclude(a, parsed, has_sitekey)
}

/// What follows an answer.
#[derive(Debug)]
pub enum CaptchaStep {
    /// The answer stands as it is.
    Done(Result<serde_json::Value, Error>),
    /// Ask the solver for a key, then send the request once more with it.
    Solve(CaptchaInfo),
}

/// Decides what follows an answer: a captcha challenge goes to the solver
/// if there is one, and every other outcome stands. A challenge that comes
/// back for the request that carried a solved key stands too: `retried`
/// says that the request was such a one.
pub fn after_response(outcome: Result<serde_json::Value, Error>, has_solver: bool, retried: bool) -> (step:
    CaptchaStep)
    ensures
        match outcome {
            Err(Error::CaptchaRequired(info)) => if has_solver && !retried {
                step matches CaptchaStep::Solve(i) && i == info
            } else {
                step matches CaptchaStep::Done(o) && o == outcome
            },
            _ => step matches CaptchaStep::Done(o) && o == outcome,
        },
{
    match outcome {
        Err(Error::CaptchaRequired(info)) => {
            if has_solver && !retried {
                CaptchaStep::Solve(info)
            } else {
                CaptchaStep::Done(Err(Error::CaptchaRequired(info)))
            }
        },
        other => CaptchaStep::Done(other),
    }
}

/// The body of a request once a solved captcha key is attached, as printed
/// JSON: an object body gets the key as a member, a request without body
/// gets a body that holds the key alone, and without a key the body stays
/// as it is.
pub open spec fn body_with_key(body: Option<Seq<char>>, key: Option<Seq<char>>) -> Option<Seq<char>> {
    match (body, key) {
        (Some(b), Some(k)) => Some(json_with_member(b, CAPTCHA_KEY_MEMBER@, json_string_text(k))),
        (Some(b), None) => Some(b),
        (None, Some(k)) => Some(json_with_member("{}"@, CAPTCHA_KEY_MEMBER@, json_string_text(k))),
        (None, None) => None,
    }
}

/// The printed form of an optional value.
pub open spec fn opt_json_text(v: Option<serde_json::Value>) -> Option<Seq<char>> {
    match v {
        Some(v) => Some(json_text(v)),
        None => None,
    }
}

/// The characters of an optional string slice.
pub open spec fn opt_str_view(s: Option<&str>) -> Option<Seq<char>> {
    match s {
        Some(s) => Some(s@),
        None => None,
    }
}

/// Attaches a solved captcha key to the body of a request.
pub fn attach_captcha_key(body: Option<serde_json::Value>, key: Option<&str>) -> (r: Option<
    serde_json::Value,
>)
    ensures
        opt_json_text(r) == body_with_key(opt_json_text(body), opt_str_view(key)),
{
    match (body, key) {
        (Some(b), Some(k)) => {
            let mut b = b;
            value_insert(&mut b, CAPTCHA_KEY_MEMBER, value_from_str(k));
            Some(b)
        },
        (Some(b), None) => Some(b),
        (None, Some(k)) => {
            let mut b = value_empty_object();
            value_insert(&mut b, CAPTCHA_KEY_MEMBER, value_from_str(k));
            Some(b)
        },
        (None, None) => None,
    }
}

/// The headers that go with a request that carries a solved captcha: the
/// key, empty if there is none, and the session and token of the challenge
/// where it had them.
pub open spec fn captcha_header_list(
    key: Option<Seq<char>>,
    session_id: Option<Seq<char>>,
    rqtoken: Option<Seq<char>>,
) -> Seq<(Seq<char>, Seq<char>)> {
    let first = seq![
        (
            "X-Captcha-Key"@,
            match key {
                Some(k) => k,
                None => Seq::empty(),
            },
        ),
    ];
    let second = match session_id {
        Some(s) => seq![("X-Captcha-Session-Id"@, s)],
        None => Seq::empty(),
    };
    let third = match rqtoken {
        Some(t) => seq![("X-Captcha-RqToken"@, t)],
        None => Seq::empty(),
    };
    first + second + third
}

/// The names and values of a list of headers.
pub open spec fn header_views(headers: Seq<(String, String)>) -> Seq<(Seq<char>, Seq<char>)> {
    Seq::new(headers.len(), |i: int| (headers[i].0@, headers[i].1@))
}

/// Lists the headers that go with a request that carries a solved captcha.
pub fn captcha_headers(key: Option<&str>, session_id: Option<&str>, rqtoken: Option<&str>) -> (headers:
    Vec<(String, String)>)
    ensures
        header_views(headers@) == captcha_header_list(
            opt_str_view(key),
            opt_str_view(session_id),
            opt_str_view(rqtoken),
        ),
{
    let mut headers: Vec<(String, String)> = Vec::new();
    let key_text = match key {
        Some(k) => String::from_str(k),
        None => String::new(),
    };
    headers.push((String::from_str("X-Captcha-Key"), key_text));
    if let Some(s) = session_id {
        headers.push((String::from_str("X-Captcha-Session-Id"), String::from_str(s)));
    }
    if let Some(t) = rqtoken {
        headers.push((String::from_str("X-Captcha-RqToken"), String::from_str(t)));
    }
    assert(header_views(headers@) =~= captcha_header_list(
        opt_str_view(key),
        opt_str_view(session_id),
        opt_str_view(rqtoken),
    ));
    headers
}

} // verus!
