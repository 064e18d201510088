//! Dispatch events: what the gateway hands upward once a frame with
//! opcode 0 has been decoded.

use vstd::prelude::*;
use vstd::string::*;
use crate::text::str_eq;

verus! {

/// The kind of a dispatch event: the kinds that the client knows, and
/// `Unknown` with the wire name for every other one.
#[derive(Debug, Clone, PartialEq, Eq)]
pub enum DispatchEventType {
    Ready,
    ReadySupplemental,
    MessageCreate,
    MessageUpdate,
    MessageDelete,
    MessageReactionAdd,
    MessageReactionRemove,
    Unknown(String),
}

/// Whether a wire name is one of the kinds that the client knows.
pub open spec fn is_known_event_name(name: Seq<char>) -> bool {
    ||| name == "READY"@
    ||| name == "READY_SUPPLEMENTAL"@
    ||| name == "MESSAGE_CREATE"@
    ||| name == "MESSAGE_UPDATE"@
    ||| name == "MESSAGE_DELETE"@
    ||| name == "MESSAGE_REACTION_ADD"@
    ||| name == "MESSAGE_REACTION_REMOVE"@
}

impl DispatchEventType {
    /// The name that the kind has on the wire.
    pub open spec fn name(self) -> Seq<char> {
        match self {
            DispatchEventType::Ready => "READY"@,
            DispatchEventType::ReadySupplemental => "READY_SUPPLEMENTAL"@,
            DispatchEventType::MessageCreate => "MESSAGE_CREATE"@,
            DispatchEventType::MessageUpdate => "MESSAGE_UPDATE"@,
            DispatchEventType::MessageDelete => "MESSAGE_DELETE"@,
            DispatchEventType::MessageReactionAdd => "MESSAGE_REACTION_ADD"@,
            DispatchEventType::MessageReactionRemove => "MESSAGE_REACTION_REMOVE"@,
            DispatchEventType::Unknown(name) => name@,
        }
    }

    /// A kind as `from_name` makes it: `Unknown` holds no known name.
    pub open spec fn wf(self) -> bool {
        self is Unknown ==> !is_known_event_name(self.name())
    }

    /// The kind that a wire name stands for. Every name has a kind, and the
    /// kind keeps the name.
    pub fn from_name(name: &str) -> (kind: DispatchEventType)
        ensures
            kind.name() == name@,
            kind is Unknown <==> !is_known_event_name(name@),
            kind.wf(),
    {
        if str_eq(name, "READY") {
            DispatchEventType::Ready
        } else if str_eq(name, "READY_SUPPLEMENTAL") {
            DispatchEventType::ReadySupplemental
        } else if str_eq(name, "MESSAGE_CREATE") {
            DispatchEventType::MessageCreate
        } else if str_eq(name, "MESSAGE_UPDATE") {
            DispatchEventType::MessageUpdate
        } else if str_eq(name, "MESSAGE_DELETE") {
            DispatchEventType::MessageDelete
        } else if str_eq(name, "MESSAGE_REACTION_ADD") {
            DispatchEventType::MessageReactionAdd
        } else if str_eq(name, "MESSAGE_REACTION_REMOVE") {
            DispatchEventType::MessageReactionRemove
        } else {
            DispatchEventType::Unknown(String::from_str(name))
        }
    }

    /// The name that the kind has on the wire.
    pub fn as_str(&self) -> (name: &str)
        ensures
            name@ == self.name(),
    {
        match self {
            DispatchEventType::Ready => "READY",
            DispatchEventType::ReadySupplemental => "READY_SUPPLEMENTAL",
            DispatchEventType::MessageCreate => "MESSAGE_CREATE",
            DispatchEventType::MessageUpdate => "MESSAGE_UPDATE",
            DispatchEventType::MessageDelete => "MESSAGE_DELETE",
            DispatchEventType::MessageReactionAdd => "MESSAGE_REACTION_ADD",
            DispatchEventType::MessageReactionRemove => "MESSAGE_REACTION_REMOVE",
            DispatchEventType::Unknown(name) => name.as_str(),
        }
    }

    /// Whether the kind is one that the client knows.
    pub fn is_known(&self) -> (r: bool)
        ensures
            r == !(*self is Unknown),
    {
        match self {
            DispatchEventType::Unknown(_) => false,
            _ => true,
        }
    }

    /// A copy of the kind.
    pub fn duplicate(&self) -> (kind: DispatchEventType)
        ensures
            kind == *self,
    {
        match self {
            DispatchEventType::Ready => DispatchEventType::Ready,
            DispatchEventType::ReadySupplemental => DispatchEventType::ReadySupplemental,
            DispatchEventType::MessageCreate => DispatchEventType::MessageCreate,
            DispatchEventType::MessageUpdate => DispatchEventType::MessageUpdate,
            DispatchEventType::MessageDelete => DispatchEventType::MessageDelete,
            DispatchEventType::MessageReactionAdd => DispatchEventType::MessageReactionAdd,
            DispatchEventType::MessageReactionRemove => DispatchEventType::MessageReactionRemove,
            DispatchEventType::Unknown(name) => DispatchEventType::Unknown(name.clone()),
        }
    }
}

/// One event of the gateway in the shape that handlers and collectors see:
/// its kind, the sequence number that it came with, and its data.
#[derive(Debug, Clone)]
pub struct DispatchEvent {
    pub kind: DispatchEventType,
    pub sequence: Option<u64>,
    pub data: serde_json::Value,
}

impl DispatchEvent {
    /// Makes the event for a dispatch payload with the given event name,
    /// sequence number and data. The data is handed on as it is.
    pub fn from_gateway_payload(event_type: &str, sequence: Option<u64>, data: serde_json::Value) -> (event: DispatchEvent)
        ensures
            event.kind.name() == event_type@,
            event.kind is Unknown <==> !is_known_event_name(event_type@),
            event.kind.wf(),
            event.sequence == sequence,
            event.data == data,
    {
        DispatchEvent { kind: DispatchEventType::from_name(event_type), sequence, data }
    }

    /// A copy of the event.
    pub fn duplicate(&self) -> (event: DispatchEvent)
        ensures
            event == *self,
    {
        DispatchEvent {
            kind: self.kind.duplicate(),
            sequence: self.sequence,
            data: self.data.clone(),
        }
    }
}

} // verus!
