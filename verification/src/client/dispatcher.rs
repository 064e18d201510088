//! Routing of inbound payloads to the hooks of an application. The decisions
//! are made here; the caller decodes the entities and calls the hooks.
//!
//! Every payload goes to the raw-payload hook. A dispatch payload that names
//! its event becomes a `DispatchEvent`, is broadcast to the collectors and
//! goes to the generic dispatch hook, whatever its kind: an unknown kind is
//! never dropped. The kinds that have a hook of their own go there too.

use vstd::prelude::*;
use vstd::string::*;
use crate::client::events::{DispatchEvent, DispatchEventType};
use crate::gateway::payload::{opt_view, RawPayload, OP_DISPATCH};
use crate::json::{get_string, json_text, member_str};
use crate::model::message::Message;
use crate::model::user::User;

verus! {

/// The hook of its own that a dispatch event goes to, after the generic one.
#[derive(Debug, Clone)]
pub enum Hook {
    /// The session is ready: decode the current user, fill the cache, call
    /// the ready hook.
    Ready,
    /// The second part of the ready data.
    ReadySupplemental,
    /// A message was created: decode it, cache its author and the users it
    /// mentions, call the message hook.
    MessageCreate,
    /// A message was edited: decode it, cache its author, call the hook.
    MessageUpdate,
    /// A message was deleted.
    MessageDelete { channel_id: String, message_id: String },
    /// No hook beyond the generic one.
    Generic,
}

/// A dispatch payload on its way to the hooks.
#[derive(Debug)]
pub struct Route {
    /// The event to broadcast and to hand to the generic dispatch hook.
    pub event: DispatchEvent,
    /// The hook of its own that the event goes to next.
    pub hook: Hook,
}

/// Whether `hook` is the hook for an event of the given kind whose data
/// holds the given channel and message ids. A deleted message needs both
/// ids; without them only the generic hook is left.
pub open spec fn hook_matches(
    kind: DispatchEventType,
    channel_id: Option<Seq<char>>,
    message_id: Option<Seq<char>>,
    hook: Hook,
) -> bool {
    match kind {
        DispatchEventType::Ready => hook is Ready,
        DispatchEventType::ReadySupplemental => hook is ReadySupplemental,
        DispatchEventType::MessageCreate => hook is MessageCreate,
        DispatchEventType::MessageUpdate => hook is MessageUpdate,
        DispatchEventType::MessageDelete => match (channel_id, message_id) {
            (Some(c), Some(m)) => hook matches Hook::MessageDelete { channel_id, message_id }
                && channel_id@ == c && message_id@ == m,
            _ => hook is Generic,
        },
        _ => hook is Generic,
    }
}

/// Picks the hook for an event from its kind and the ids read from its data.
pub fn choose_hook(
    kind: &DispatchEventType,
    channel_id: Option<String>,
    message_id: Option<String>,
) -> (hook: Hook)
    ensures
        hook_matches(*kind, opt_view(channel_id), opt_view(message_id), hook),
{
    match kind {
        DispatchEventType::Ready => Hook::Ready,
        DispatchEventType::ReadySupplemental => Hook::ReadySupplemental,
        DispatchEventType::MessageCreate => Hook::MessageCreate,
        DispatchEventType::MessageUpdate => Hook::MessageUpdate,
        DispatchEventType::MessageDelete => match (channel_id, message_id) {
            (Some(channel_id), Some(message_id)) => Hook::MessageDelete { channel_id, message_id },
            _ => Hook::Generic,
        },
        _ => Hook::Generic,
    }
}

/// Whether a payload is routed as a dispatch event: opcode 0 with an event
/// name.
pub open spec fn is_routable(p: RawPayload) -> bool {
    p.opcode == Some(OP_DISPATCH) && p.event_name is Some
}

/// Turns a payload into a dispatch event and picks its hook. Only a payload
/// with opcode 0 that names its event is routed, and each of those is: the
/// event keeps the payload's name, sequence number and data.
pub fn route(payload: &RawPayload) -> (r: Option<Route>)
    ensures
        r is Some <==> is_routable(*payload),
        r matches Some(route) ==> {
            &&& route.event.kind.name() == payload.event_name->0@
            &&& route.event.kind.wf()
            &&& route.event.sequence == payload.sequence
            &&& route.event.data == payload.data
            &&& hook_matches(
                route.event.kind,
                member_str(json_text(payload.data), "channel_id"@),
                member_str(json_text(payload.data), "id"@),
                route.hook,
            )
        },
{
    if !payload.is_dispatch() {
        return None;
    }
    let name = match &payload.event_name {
        Some(name) => name,
        None => {
            return None;
        },
    };
    let event = DispatchEvent::from_gateway_payload(
        name.as_str(),
        payload.sequence,
        payload.data.clone(),
    );
    let channel_id = get_string(&payload.data, "channel_id");
    let message_id = get_string(&payload.data, "id");
    let hook = choose_hook(&event.kind, channel_id, message_id);
    Some(Route { event, hook })
}

/// The users that the cache takes from a message on its way to a hook: the
/// author and everyone mentioned for a created message, the author alone
/// for an edited one, nobody on the way to any other hook.
pub open spec fn cached_users(hook: Hook, message: Message) -> Seq<User> {
    match hook {
        Hook::MessageCreate => seq![message.author] + message.mentions@,
        Hook::MessageUpdate => seq![message.author],
        _ => Seq::empty(),
    }
}

/// The users to put in the cache before a message goes to its hook.
pub fn users_to_cache<'a>(hook: &Hook, message: &'a Message) -> (users: Vec<&'a User>)
    ensures
        users@.len() == cached_users(*hook, *message).len(),
        forall|i: int| 0 <= i < users@.len() ==> *users@[i] == cached_users(*hook, *message)[i],
{
    let mut users: Vec<&'a User> = Vec::new();
    match hook {
        Hook::MessageCreate => {
            users.push(&message.author);
            let mut i: usize = 0;
            while i < message.mentions.len()
                invariant
                    i <= message.mentions.len(),
                    users@.len() == i + 1,
                    *users@[0] == message.author,
                    forall|j: int| 0 <= j < i ==> *users@[j + 1] == message.mentions@[j],
                decreases message.mentions.len() - i,
            {
                users.push(&message.mentions[i]);
                i += 1;
            }
        },
        Hook::MessageUpdate => {
            users.push(&message.author);
        },
        _ => {},
    }
    users
}

/// What woke the client's loop.
#[derive(Debug)]
pub enum Wake {
    /// The gateway delivered a payload.
    Event(RawPayload),
    /// The gateway's stream of events ended.
    GatewayClosed,
    /// The user asked for shutdown while the loop was waiting.
    ShutdownSignal,
}

/// What the client's loop does next.
#[derive(Debug)]
pub enum LoopAction {
    /// Route this payload to the hooks, then wait again. A failure of a hook
    /// is logged and ends nothing.
    Handle(RawPayload),
    /// Shut the gateway down and leave the loop.
    Stop,
}

/// Decides one turn of the client's loop. A shutdown that was asked for
/// wins over whatever woke the loop; a payload is handled; the end of the
/// gateway's events and a shutdown signal stop the loop.
pub fn loop_action(shutdown_requested: bool, wake: Wake) -> (action: LoopAction)
    ensures
        match wake {
            Wake::Event(p) => if shutdown_requested {
                action is Stop
            } else {
                action matches LoopAction::Handle(q) && q == p
            },
            _ => action is Stop,
        },
{
    if shutdown_requested {
        return LoopAction::Stop;
    }
    match wake {
        Wake::Event(p) => LoopAction::Handle(p),
        Wake::GatewayClosed => LoopAction::Stop,
        Wake::ShutdownSignal => LoopAction::Stop,
    }
}

} // verus!
