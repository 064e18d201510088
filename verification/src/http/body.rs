//! The bodies of the requests whose members depend on what the caller
//! gives: a member is written only where there is a value for it.

use vstd::prelude::*;
use vstd::string::*;
use crate::json::{
    json_array_text, json_string_text, json_text, json_with_member, value_empty_object,
    value_from_items, value_from_str, value_from_u64, value_insert,
};
use crate::text::decimal;

verus! {

/// An object's printed form with a string under a key, or as it was if
/// there is no string.
pub open spec fn with_text(doc: Seq<char>, key: Seq<char>, value: Option<Seq<char>>) -> Seq<char> {
    match value {
        Some(v) => json_with_member(doc, key, json_string_text(v)),
        None => doc,
    }
}

/// An object's printed form with a number under a key, or as it was if
/// there is no number.
pub open spec fn with_number(doc: Seq<char>, key: Seq<char>, value: Option<u64>) -> Seq<char> {
    match value {
        Some(v) => json_with_member(doc, key, decimal(v as nat)),
        None => doc,
    }
}

/// The characters of an optional string slice.
pub open spec fn chars_of(s: Option<&str>) -> Option<Seq<char>> {
    match s {
        Some(s) => Some(s@),
        None => None,
    }
}

fn put_text(body: &mut serde_json::Value, key: &str, value: Option<&str>)
    ensures
        json_text(*final(body)) == with_text(json_text(*old(body)), key@, chars_of(value)),
{
    if let Some(v) = value {
        value_insert(body, key, value_from_str(v));
    }
}

fn put_number(body: &mut serde_json::Value, key: &str, value: Option<u64>)
    ensures
        json_text(*final(body)) == with_number(json_text(*old(body)), key@, value),
{
    if let Some(v) = value {
        value_insert(body, key, value_from_u64(v));
    }
}

/// The printed form of the body that bans a member.
pub open spec fn ban_body_text(delete_message_seconds: Option<u64>, reason: Option<Seq<char>>) -> Seq<
    char,
> {
    with_text(with_number("{}"@, "delete_message_seconds"@, delete_message_seconds), "reason"@, reason)
}

/// Makes the body that bans a member: how many seconds of their messages
/// to delete and the reason, each only if given.
pub fn ban_body(delete_message_seconds: Option<u64>, reason: Option<&str>) -> (body:
    serde_json::Value)
    ensures
        json_text(body) == ban_body_text(delete_message_seconds, chars_of(reason)),
{
    let mut body = value_empty_object();
    put_number(&mut body, "delete_message_seconds", delete_message_seconds);
    put_text(&mut body, "reason", reason);
    body
}

/// The printed form of the body that edits the current user's profile.
pub open spec fn profile_body_text(
    username: Option<Seq<char>>,
    avatar: Option<Seq<char>>,
    banner: Option<Seq<char>>,
) -> Seq<char> {
    with_text(with_text(with_text("{}"@, "username"@, username), "avatar"@, avatar), "banner"@, banner)
}

/// Makes the body that edits the current user's profile: the name, the
/// avatar and the banner as data URIs, each only if given.
pub fn profile_body(username: Option<&str>, avatar: Option<&str>, banner: Option<&str>) -> (body:
    serde_json::Value)
    ensures
        json_text(body) == profile_body_text(chars_of(username), chars_of(avatar), chars_of(banner)),
{
    let mut body = value_empty_object();
    put_text(&mut body, "username", username);
    put_text(&mut body, "avatar", avatar);
    put_text(&mut body, "banner", banner);
    body
}

/// The printed form of the body that deletes relationships in bulk.
pub open spec fn bulk_delete_body_text(filters: Option<Seq<u8>>) -> Seq<char> {
    match filters {
        Some(f) => json_with_member(
            "{}"@,
            "filters"@,
            json_array_text(Seq::new(f.len(), |i: int| decimal(f[i] as nat))),
        ),
        None => "{}"@,
    }
}

/// The numbers of an optional list.
pub open spec fn numbers_of(filters: Option<&Vec<u8>>) -> Option<Seq<u8>> {
    match filters {
        Some(f) => Some(f@),
        None => None,
    }
}

/// Makes the body that deletes relationships in bulk: the filters as a
/// list of numbers if there are any to give, and an empty object if not.
pub fn bulk_delete_body(filters: Option<&Vec<u8>>) -> (body: serde_json::Value)
    ensures
        json_text(body) == bulk_delete_body_text(numbers_of(filters)),
{
    let mut body = value_empty_object();
    if let Some(f) = filters {
        let mut items: Vec<serde_json::Value> = Vec::new();
        let mut i: usize = 0;
        while i < f.len()
            invariant
                i <= f.len(),
                items@.len() == i,
                forall|j: int| 0 <= j < i ==> json_text(items@[j]) == decimal(f@[j] as nat),
            decreases f.len() - i,
        {
            items.push(value_from_u64(f[i] as u64));
            i += 1;
        }
        assert(Seq::new(items@.len(), |i: int| json_text(items@[i])) =~= Seq::new(
            f@.len(),
            |i: int| decimal(f@[i] as nat),
        ));
        value_insert(&mut body, "filters", value_from_items(items));
    }
    body
}

} // verus!
