//! The failures that the client reports.

use vstd::prelude::*;
use vstd::string::*;

verus! {

/// What the REST API sends when it wants a captcha solved before it serves a
/// request.
#[derive(Debug, Clone)]
pub struct CaptchaInfo {
    pub captcha_key: Vec<String>,
    pub captcha_sitekey: String,
    pub captcha_service: String,
    pub captcha_session_id: Option<String>,
    pub captcha_rqdata: Option<String>,
    pub captcha_rqtoken: Option<String>,
}

/// A failure of the client. Failures of the transport carry the text that the
/// transport gave for them.
#[derive(Debug)]
pub enum Error {
    /// The gateway or the REST API could not be reached or refused a request.
    GatewayConnection(String),
    /// The socket failed.
    WebSocket(String),
    /// A text was no JSON.
    Json(String),
    /// A payload was missing, or not what the protocol expects at this point.
    InvalidPayload,
    /// An HTTP request failed before an answer came.
    Http(String),
    /// Reading a file failed.
    Io(String),
    /// The REST API asks to wait before the next request.
    RateLimit { retry_after_ms: u64 },
    /// A captcha must be solved and nobody is there to solve it.
    CaptchaRequired(CaptchaInfo),
    /// The captcha solver failed.
    CaptchaHandlerFailed(String),
}

/// The library's result type.
pub type Result<T> = core::result::Result<T, Error>;

/// The text in front of the detail of each failure.
pub open spec fn error_prefix(e: Error) -> Seq<char> {
    match e {
        Error::GatewayConnection(_) => "Gateway connection error: "@,
        Error::WebSocket(_) => "WebSocket error: "@,
        Error::Json(_) => "JSON parsing error: "@,
        Error::InvalidPayload => "Invalid payload received"@,
        Error::Http(_) => "HTTP request failed: "@,
        Error::Io(_) => "IO error: "@,
        Error::RateLimit { .. } => "Rate limited for "@,
        Error::CaptchaRequired(_) => "Captcha required but no handler provided"@,
        Error::CaptchaHandlerFailed(_) => "Captcha handler failed: "@,
    }
}

/// The seconds and milliseconds of a waiting time, written as `s.mmm`.
pub open spec fn seconds_text(ms: u64) -> Seq<char> {
    let millis = ms % 1000;
    crate::text::decimal((ms / 1000) as nat) + "."@ + crate::text::decimal((millis / 100) as nat)
        + crate::text::decimal(((millis / 10) % 10) as nat) + crate::text::decimal(
        (millis % 10) as nat,
    )
}

impl Error {
    /// A sentence for the failure, for logs and messages.
    pub fn describe(&self) -> (s: String)
        ensures
            match *self {
                Error::GatewayConnection(m) => s@ == error_prefix(*self) + m@,
                Error::WebSocket(m) => s@ == error_prefix(*self) + m@,
                Error::Json(m) => s@ == error_prefix(*self) + m@,
                Error::InvalidPayload => s@ == error_prefix(*self),
                Error::Http(m) => s@ == error_prefix(*self) + m@,
                Error::Io(m) => s@ == error_prefix(*self) + m@,
                Error::RateLimit { retry_after_ms } => s@ == error_prefix(*self) + seconds_text(
                    retry_after_ms,
                ) + "s"@,
                Error::CaptchaRequired(_) => s@ == error_prefix(*self),
                Error::CaptchaHandlerFailed(m) => s@ == error_prefix(*self) + m@,
            },
    {
        match self {
            Error::GatewayConnection(m) => {
                let mut s = String::from_str("Gateway connection error: ");
                s.append(m.as_str());
                s
            },
            Error::WebSocket(m) => {
                let mut s = String::from_str("WebSocket error: ");
                s.append(m.as_str());
                s
            },
            Error::Json(m) => {
                let mut s = String::from_str("JSON parsing error: ");
                s.append(m.as_str());
                s
            },
            Error::InvalidPayload => String::from_str("Invalid payload received"),
            Error::Http(m) => {
                let mut s = String::from_str("HTTP request failed: ");
                s.append(m.as_str());
                s
            },
            Error::Io(m) => {
                let mut s = String::from_str("IO error: ");
                s.append(m.as_str());
                s
            },
            Error::RateLimit { retry_after_ms } => {
                let ms = *retry_after_ms;
                let millis = ms % 1000;
                let mut s = String::from_str("Rate limited for ");
                let whole = crate::text::u64_to_string(ms / 1000);
                s.append(whole.as_str());
                s.append(".");
                let d1 = crate::text::u64_to_string(millis / 100);
                s.append(d1.as_str());
                let d2 = crate::text::u64_to_string((millis / 10) % 10);
                s.append(d2.as_str());
                let d3 = crate::text::u64_to_string(millis % 10);
                s.append(d3.as_str());
                s.append("s");
                s
            },
            Error::CaptchaRequired(_) => String::from_str(
                "Captcha required but no handler provided",
            ),
            Error::CaptchaHandlerFailed(m) => {
                let mut s = String::from_str("Captcha handler failed: ");
                s.append(m.as_str());
                s
            },
        }
    }
}

} // verus!
