//! The envelope of the gateway protocol and the frames that carry it.

use vstd::prelude::*;
use vstd::string::*;
use crate::error::Error;
use crate::gateway::identify::Identify;
use crate::json::{
    get_or_null, get_string, get_u64, json_bool, json_parse, json_text, member_or_null, member_str,
    member_u64, parse_value,
};

verus! {

/// Opcode 0: an event for the application.
pub const OP_DISPATCH: u64 = 0;

/// Opcode 1: a heartbeat, or the gateway asking for one at once.
pub const OP_HEARTBEAT: u64 = 1;

/// Opcode 2: the client identifies for a fresh session.
pub const OP_IDENTIFY: u64 = 2;

/// Opcode 6: the client resumes a session.
pub const OP_RESUME: u64 = 6;

/// Opcode 7: the gateway asks the client to reconnect.
pub const OP_RECONNECT: u64 = 7;

/// Opcode 9: the session is invalid; the data says whether it can be resumed.
pub const OP_INVALID_SESSION: u64 = 9;

/// Opcode 10: the first frame of a connection, with the heartbeat interval.
pub const OP_HELLO: u64 = 10;

/// Opcode 11: the gateway acknowledges a heartbeat.
pub const OP_HEARTBEAT_ACK: u64 = 11;

/// One inbound frame, decoded: `{op, t, s, d}`. A field that is missing, or
/// not of the type that the protocol gives it, is `None`; missing data is a
/// JSON `null`.
#[derive(Debug, Clone)]
pub struct RawPayload {
    pub opcode: Option<u64>,
    pub event_name: Option<String>,
    pub sequence: Option<u64>,
    pub data: serde_json::Value,
}

/// The characters of an optional string.
pub open spec fn opt_view(s: Option<String>) -> Option<Seq<char>> {
    match s {
        Some(s) => Some(s@),
        None => None,
    }
}

impl RawPayload {
    /// Whether the payload holds what the envelope of the JSON document `doc`
    /// holds.
    pub open spec fn decoded_from(self, doc: Seq<char>) -> bool {
        &&& self.opcode == member_u64(doc, "op"@)
        &&& opt_view(self.event_name) == member_str(doc, "t"@)
        &&& self.sequence == member_u64(doc, "s"@)
        &&& json_text(self.data) == member_or_null(doc, "d"@)
    }

    /// Reads the envelope out of a parsed frame.
    pub fn decode(frame: &serde_json::Value) -> (p: RawPayload)
        ensures
            p.decoded_from(json_text(*frame)),
    {
        RawPayload {
            opcode: get_u64(frame, "op"),
            event_name: get_string(frame, "t"),
            sequence: get_u64(frame, "s"),
            data: get_or_null(frame, "d"),
        }
    }

    /// Parses the text of a frame and reads its envelope. Fails with
    /// `Error::Json` exactly when the text is no JSON.
    pub fn parse(text: &str) -> (r: Result<RawPayload, Error>)
        ensures
            match r {
                Ok(p) => json_parse(text@) matches Some(doc) && p.decoded_from(doc),
                Err(e) => json_parse(text@) is None && e is Json,
            },
    {
        match parse_value(text) {
            Ok(frame) => Ok(RawPayload::decode(&frame)),
            Err(message) => Err(Error::Json(message)),
        }
    }

    /// Whether the payload is a dispatch: opcode 0.
    pub fn is_dispatch(&self) -> (r: bool)
        ensures
            r == (self.opcode == Some(OP_DISPATCH)),
    {
        match self.opcode {
            Some(op) => op == OP_DISPATCH,
            None => false,
        }
    }

    /// A copy of the payload.
    pub fn duplicate(&self) -> (p: RawPayload)
        ensures
            p == *self,
    {
        RawPayload {
            opcode: self.opcode,
            event_name: match &self.event_name {
                Some(name) => Some(name.clone()),
                None => None,
            },
            sequence: self.sequence,
            data: self.data.clone(),
        }
    }
}

/// What the session reads from an inbound payload, as plain values: the
/// envelope's opcode, event name and sequence number, and from the data the
/// members that the protocol puts there for the session.
#[derive(Debug, Clone)]
pub struct Inbound {
    pub opcode: Option<u64>,
    pub event_name: Option<String>,
    pub sequence: Option<u64>,
    /// The data itself, where it is a boolean (opcode 9).
    pub resumable: Option<bool>,
    /// `heartbeat_interval` of the data (opcode 10).
    pub heartbeat_interval: Option<u64>,
    /// `session_id` of the data (the session-ready event).
    pub session_id: Option<String>,
    /// `resume_gateway_url` of the data (the session-ready event).
    pub resume_gateway_url: Option<String>,
}

/// What the session reads from an inbound payload, as the contracts see it.
pub struct InboundView {
    pub opcode: Option<u64>,
    pub event_name: Option<Seq<char>>,
    pub sequence: Option<u64>,
    pub resumable: Option<bool>,
    pub heartbeat_interval: Option<u64>,
    pub session_id: Option<Seq<char>>,
    pub resume_gateway_url: Option<Seq<char>>,
}

impl View for Inbound {
    type V = InboundView;

    open spec fn view(&self) -> InboundView {
        InboundView {
            opcode: self.opcode,
            event_name: opt_view(self.event_name),
            sequence: self.sequence,
            resumable: self.resumable,
            heartbeat_interval: self.heartbeat_interval,
            session_id: opt_view(self.session_id),
            resume_gateway_url: opt_view(self.resume_gateway_url),
        }
    }
}

impl RawPayload {
    /// What the session reads from the payload: the envelope as it is, and
    /// from the data the boolean that it is, and its `heartbeat_interval`,
    /// `session_id` and `resume_gateway_url` members.
    pub open spec fn facts(self) -> InboundView {
        let data = json_text(self.data);
        InboundView {
            opcode: self.opcode,
            event_name: opt_view(self.event_name),
            sequence: self.sequence,
            resumable: json_bool(data),
            heartbeat_interval: member_u64(data, "heartbeat_interval"@),
            session_id: member_str(data, "session_id"@),
            resume_gateway_url: member_str(data, "resume_gateway_url"@),
        }
    }

    /// Reads what the session needs out of the payload.
    pub fn inbound(&self) -> (m: Inbound)
        ensures
            m@ == self.facts(),
    {
        Inbound {
            opcode: self.opcode,
            event_name: match &self.event_name {
                Some(name) => Some(name.clone()),
                None => None,
            },
            sequence: self.sequence,
            resumable: self.data.as_bool(),
            heartbeat_interval: get_u64(&self.data, "heartbeat_interval"),
            session_id: get_string(&self.data, "session_id"),
            resume_gateway_url: get_string(&self.data, "resume_gateway_url"),
        }
    }
}

/// One message of the socket, as far as the client tells messages apart.
#[derive(Debug, Clone)]
pub enum Frame {
    Text(String),
    Binary,
    Ping,
    Pong,
    Close,
}

/// What a frame means to the gateway.
#[derive(Debug)]
pub enum Received {
    /// A text frame, parsed.
    Payload(RawPayload),
    /// The peer closed the connection.
    Closed,
    /// A binary or control frame: nothing to act on.
    Skipped,
}

/// Reads one frame: a text frame is parsed as one JSON document, a close
/// frame ends the connection, every other frame is skipped. A text frame that
/// is no JSON is the one failure.
pub fn read_frame(frame: &Frame) -> (r: Result<Received, Error>)
    ensures
        match *frame {
            Frame::Text(text) => match r {
                Ok(Received::Payload(p)) => json_parse(text@) matches Some(doc) && p.decoded_from(
                    doc,
                ),
                Ok(_) => false,
                Err(e) => json_parse(text@) is None && e is Json,
            },
            Frame::Close => r matches Ok(Received::Closed),
            _ => r matches Ok(Received::Skipped),
        },
{
    match frame {
        Frame::Text(text) => match RawPayload::parse(text.as_str()) {
            Ok(p) => Ok(Received::Payload(p)),
            Err(e) => Err(e),
        },
        Frame::Close => Ok(Received::Closed),
        _ => Ok(Received::Skipped),
    }
}

/// A payload for the client to send.
#[derive(Debug, Clone)]
pub enum Outbound {
    /// Opcode 1, with the last sequence number seen, if any.
    Heartbeat { sequence: Option<u64> },
    /// Opcode 2.
    Identify(Identify),
    /// Opcode 6, with the session to resume and the last sequence number.
    Resume { token: String, session_id: Option<String>, sequence: Option<u64> },
}

impl Outbound {
    /// The opcode that the payload is sent under.
    pub open spec fn spec_opcode(&self) -> u64 {
        match self {
            Outbound::Heartbeat { .. } => OP_HEARTBEAT,
            Outbound::Identify(_) => OP_IDENTIFY,
            Outbound::Resume { .. } => OP_RESUME,
        }
    }

    /// The opcode that the payload is sent under.
    #[verifier::when_used_as_spec(spec_opcode)]
    pub fn opcode(&self) -> (op: u64)
        ensures
            op == self.spec_opcode(),
    {
        match self {
            Outbound::Heartbeat { .. } => OP_HEARTBEAT,
            Outbound::Identify(_) => OP_IDENTIFY,
            Outbound::Resume { .. } => OP_RESUME,
        }
    }
}

} // verus!
