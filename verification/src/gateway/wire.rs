//! The JSON of outbound payloads: `{"op": .., "d": ..}` with the data that
//! each opcode takes.

use vstd::prelude::*;
use vstd::string::*;
use crate::gateway::identify::{Activity, ConnectionProperties, Identify, PresenceUpdate};
use crate::gateway::payload::{opt_view, Outbound};
use crate::json::{
    json_array_text, json_string_text, json_text, json_with_member, value_empty_object,
    value_from_bool, value_from_items, value_from_str, value_from_u64, value_insert, value_null,
};
use crate::text::decimal;

verus! {

/// The printed form of an optional number: the number, or `null`.
pub open spec fn opt_number_text(n: Option<u64>) -> Seq<char> {
    match n {
        Some(n) => decimal(n as nat),
        None => "null"@,
    }
}

/// The printed form of an optional string: the JSON string, or `null`.
pub open spec fn opt_string_text(s: Option<Seq<char>>) -> Seq<char> {
    match s {
        Some(s) => json_string_text(s),
        None => "null"@,
    }
}

/// The printed form of an optional boolean: the boolean, or `null`.
pub open spec fn opt_bool_text(b: Option<bool>) -> Seq<char> {
    match b {
        Some(true) => "true"@,
        Some(false) => "false"@,
        None => "null"@,
    }
}

/// An object's printed form with one more member, or as it was if there is
/// no member to add.
pub open spec fn with_optional(doc: Seq<char>, key: Seq<char>, member: Option<Seq<char>>) -> Seq<
    char,
> {
    match member {
        Some(m) => json_with_member(doc, key, m),
        None => doc,
    }
}

/// The printed form of the connection properties: an object with one
/// member for each property, its name behind a `$`.
pub open spec fn properties_text(p: ConnectionProperties) -> Seq<char> {
    let o = "{}"@;
    let o = json_with_member(o, "$os"@, json_string_text(p.os@));
    let o = json_with_member(o, "$browser"@, json_string_text(p.browser@));
    let o = json_with_member(o, "$device"@, json_string_text(p.device@));
    let o = json_with_member(o, "$system_locale"@, json_string_text(p.system_locale@));
    let o = json_with_member(o, "$browser_version"@, json_string_text(p.browser_version@));
    let o = json_with_member(o, "$os_version"@, json_string_text(p.os_version@));
    let o = json_with_member(o, "$referrer"@, json_string_text(p.referrer@));
    let o = json_with_member(o, "$referring_domain"@, json_string_text(p.referring_domain@));
    let o = json_with_member(o, "$release_channel"@, json_string_text(p.release_channel@));
    json_with_member(o, "$client_build_number"@, decimal(p.client_build_number as nat))
}

/// The printed form of an activity; the address is left out if there is
/// none.
pub open spec fn activity_text(a: Activity) -> Seq<char> {
    let o = "{}"@;
    let o = json_with_member(o, "name"@, json_string_text(a.name@));
    let o = json_with_member(o, "type"@, decimal(a.kind as nat));
    with_optional(
        o,
        "url"@,
        match a.url {
            Some(u) => Some(json_string_text(u@)),
            None => None,
        },
    )
}

/// The printed form of a presence.
pub open spec fn presence_text(p: PresenceUpdate) -> Seq<char> {
    let o = "{}"@;
    let o = json_with_member(o, "status"@, json_string_text(p.status@));
    let o = json_with_member(o, "since"@, opt_number_text(p.since));
    let o = json_with_member(
        o,
        "activities"@,
        json_array_text(Seq::new(p.activities@.len(), |i: int| activity_text(p.activities@[i]))),
    );
    json_with_member(o, "afk"@, opt_bool_text(Some(p.afk)))
}

/// The printed form of the identify data; presence and intents are left
/// out if there are none.
pub open spec fn identify_text(id: Identify) -> Seq<char> {
    let o = "{}"@;
    let o = json_with_member(o, "token"@, json_string_text(id.token@));
    let o = json_with_member(o, "properties"@, properties_text(id.properties));
    let o = with_optional(
        o,
        "presence"@,
        match id.presence {
            Some(p) => Some(presence_text(p)),
            None => None,
        },
    );
    let o = json_with_member(o, "compress"@, opt_bool_text(id.compress));
    let o = json_with_member(o, "capabilities"@, decimal(id.capabilities as nat));
    with_optional(
        o,
        "intents"@,
        match id.intents {
            Some(i) => Some(decimal(i as nat)),
            None => None,
        },
    )
}

/// The printed form of the resume data.
pub open spec fn resume_text(
    token: Seq<char>,
    session_id: Option<Seq<char>>,
    sequence: Option<u64>,
) -> Seq<char> {
    let o = "{}"@;
    let o = json_with_member(o, "token"@, json_string_text(token));
    let o = json_with_member(o, "session_id"@, opt_string_text(session_id));
    json_with_member(o, "seq"@, opt_number_text(sequence))
}

/// The printed form of an envelope: the opcode under `op`, the data under
/// `d`.
pub open spec fn envelope_text(op: u64, data: Seq<char>) -> Seq<char> {
    json_with_member(json_with_member("{}"@, "op"@, decimal(op as nat)), "d"@, data)
}

/// The printed form of an outbound payload.
pub open spec fn outbound_text(out: Outbound) -> Seq<char> {
    match out {
        Outbound::Heartbeat { sequence } => envelope_text(
            out.spec_opcode(),
            opt_number_text(sequence),
        ),
        Outbound::Identify(id) => envelope_text(out.spec_opcode(), identify_text(id)),
        Outbound::Resume { token, session_id, sequence } => envelope_text(
            out.spec_opcode(),
            resume_text(token@, opt_view(session_id), sequence),
        ),
    }
}

fn number_or_null(n: Option<u64>) -> (v: serde_json::Value)
    ensures
        json_text(v) == opt_number_text(n),
{
    match n {
        Some(n) => value_from_u64(n),
        None => value_null(),
    }
}

fn string_or_null(s: &Option<String>) -> (v: serde_json::Value)
    ensures
        json_text(v) == opt_string_text(opt_view(*s)),
{
    match s {
        Some(s) => value_from_str(s.as_str()),
        None => value_null(),
    }
}

fn bool_or_null(b: Option<bool>) -> (v: serde_json::Value)
    ensures
        json_text(v) == opt_bool_text(b),
{
    match b {
        Some(b) => value_from_bool(b),
        None => value_null(),
    }
}

/// Makes the JSON of the connection properties.
pub fn properties_to_json(p: &ConnectionProperties) -> (v: serde_json::Value)
    ensures
        json_text(v) == properties_text(*p),
{
    let mut o = value_empty_object();
    value_insert(&mut o, "$os", value_from_str(p.os.as_str()));
    value_insert(&mut o, "$browser", value_from_str(p.browser.as_str()));
    value_insert(&mut o, "$device", value_from_str(p.device.as_str()));
    value_insert(&mut o, "$system_locale", value_from_str(p.system_locale.as_str()));
    value_insert(&mut o, "$browser_version", value_from_str(p.browser_version.as_str()));
    value_insert(&mut o, "$os_version", value_from_str(p.os_version.as_str()));
    value_insert(&mut o, "$referrer", value_from_str(p.referrer.as_str()));
    value_insert(&mut o, "$referring_domain", value_from_str(p.referring_domain.as_str()));
    value_insert(&mut o, "$release_channel", value_from_str(p.release_channel.as_str()));
    value_insert(&mut o, "$client_build_number", value_from_u64(p.client_build_number as u64));
    o
}

/// Makes the JSON of an activity.
pub fn activity_to_json(a: &Activity) -> (v: serde_json::Value)
    ensures
        json_text(v) == activity_text(*a),
{
    let mut o = value_empty_object();
    value_insert(&mut o, "name", value_from_str(a.name.as_str()));
    value_insert(&mut o, "type", value_from_u64(a.kind as u64));
    if let Some(url) = &a.url {
        value_insert(&mut o, "url", value_from_str(url.as_str()));
    }
    o
}

/// Makes the JSON of a presence.
pub fn presence_to_json(p: &PresenceUpdate) -> (v: serde_json::Value)
    ensures
        json_text(v) == presence_text(*p),
{
    let mut items: Vec<serde_json::Value> = Vec::new();
    let mut i: usize = 0;
    while i < p.activities.len()
        invariant
            i <= p.activities.len(),
            items@.len() == i,
            forall|j: int| 0 <= j < i ==> json_text(items@[j]) == activity_text(p.activities@[j]),
        decreases p.activities.len() - i,
    {
        items.push(activity_to_json(&p.activities[i]));
        i += 1;
    }
    assert(Seq::new(items@.len(), |i: int| json_text(items@[i])) =~= Seq::new(
        p.activities@.len(),
        |i: int| activity_text(p.activities@[i]),
    ));
    let mut o = value_empty_object();
    value_insert(&mut o, "status", value_from_str(p.status.as_str()));
    value_insert(&mut o, "since", number_or_null(p.since));
    value_insert(&mut o, "activities", value_from_items(items));
    value_insert(&mut o, "afk", value_from_bool(p.afk));
    o
}

/// Makes the JSON of the identify data.
pub fn identify_to_json(id: &Identify) -> (v: serde_json::Value)
    ensures
        json_text(v) == identify_text(*id),
{
    let mut o = value_empty_object();
    value_insert(&mut o, "token", value_from_str(id.token.as_str()));
    value_insert(&mut o, "properties", properties_to_json(&id.properties));
    if let Some(p) = &id.presence {
        value_insert(&mut o, "presence", presence_to_json(p));
    }
    value_insert(&mut o, "compress", bool_or_null(id.compress));
    value_insert(&mut o, "capabilities", value_from_u64(id.capabilities as u64));
    if let Some(intents) = id.intents {
        value_insert(&mut o, "intents", value_from_u64(intents as u64));
    }
    o
}

fn envelope(op: u64, data: serde_json::Value) -> (v: serde_json::Value)
    ensures
        json_text(v) == envelope_text(op, json_text(data)),
{
    let mut o = value_empty_object();
    value_insert(&mut o, "op", value_from_u64(op));
    value_insert(&mut o, "d", data);
    o
}

impl Outbound {
    /// Makes the JSON of the payload, ready to be sent as a text frame.
    pub fn to_json(&self) -> (v: serde_json::Value)
        ensures
            json_text(v) == outbound_text(*self),
    {
        match self {
            Outbound::Heartbeat { sequence } => envelope(self.opcode(), number_or_null(*sequence)),
            Outbound::Identify(id) => envelope(self.opcode(), identify_to_json(id)),
            Outbound::Resume { token, session_id, sequence } => {
                let mut d = value_empty_object();
                value_insert(&mut d, "token", value_from_str(token.as_str()));
                value_insert(&mut d, "session_id", string_or_null(session_id));
                value_insert(&mut d, "seq", number_or_null(*sequence));
                envelope(self.opcode(), d)
            },
        }
    }

    /// Writes the payload as the text of a frame.
    pub fn to_text(&self) -> (text: String)
        ensures
            text@ == outbound_text(*self),
    {
        let v = self.to_json();
        crate::json::value_to_string(&v)
    }
}

} // verus!
