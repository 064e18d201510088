//! The boundary to `serde_json`: JSON values are parsed, read and printed by
//! that crate, and the contracts here give its answers names so that the rest
//! of the library can be exact about what it does with them.
//!
//! A value is known to the verifier by its text alone: the compact JSON that
//! `serde_json` prints for it. Whatever `serde_json` reads out of a value is
//! stated as a function of that text.

use vstd::prelude::*;
use vstd::string::*;

verus! {

/// `serde_json::Value`, a parsed JSON document. Opaque to the verifier.
#[verifier::external_type_specification]
#[verifier::external_body]
pub struct ExValue(serde_json::Value);

/// The compact JSON text that `serde_json` prints for a value.
pub uninterp spec fn json_text(v: serde_json::Value) -> Seq<char>;

/// What `serde_json::from_str` makes of a text: the printed form of the value
/// it parses to, or `None` where it reports an error.
pub uninterp spec fn json_parse(text: Seq<char>) -> Option<Seq<char>>;

/// What `Value::get` finds under a string key: the printed form of the member,
/// given the printed form of the value it is looked up in.
pub uninterp spec fn json_member(doc: Seq<char>, key: Seq<char>) -> Option<Seq<char>>;

/// What `Value::as_u64` reads from the value with the given printed form.
pub uninterp spec fn json_u64(doc: Seq<char>) -> Option<u64>;

/// What `Value::as_str` reads from the value with the given printed form.
pub uninterp spec fn json_str(doc: Seq<char>) -> Option<Seq<char>>;

/// What `Value::as_bool` reads from the value with the given printed form.
pub uninterp spec fn json_bool(doc: Seq<char>) -> Option<bool>;

/// Calls `serde_json::from_str` for a `Value`; a parse error comes back as the
/// text that `serde_json` prints for it. Trusted: the outcome depends on the
/// text alone, and a value that comes back prints as `json_parse` says.
/// Nothing is claimed of an error's wording.
#[verifier::external_body]
pub(crate) fn parse_value(text: &str) -> (r: Result<serde_json::Value, String>)
    ensures
        match r {
            Ok(v) => json_parse(text@) == Some(json_text(v)),
            Err(_) => json_parse(text@) is None,
        },
{
    serde_json::from_str::<serde_json::Value>(text).map_err(|e| e.to_string())
}

/// Calls `Value::get` with a string key, which looks the key up if the value
/// is an object and finds nothing otherwise. Trusted: the member found is a
/// function of the value and the key.
#[verifier::external_body]
pub(crate) fn value_get<'a>(v: &'a serde_json::Value, key: &str) -> (r: Option<&'a serde_json::Value>)
    ensures
        match r {
            Some(m) => json_member(json_text(*v), key@) == Some(json_text(*m)),
            None => json_member(json_text(*v), key@) is None,
        },
{
    v.get(key)
}

/// `Value::as_u64`: the number held, if the value is a number that fits `u64`.
pub assume_specification[ serde_json::Value::as_u64 ](v: &serde_json::Value) -> (r: Option<u64>)
    ensures
        r == json_u64(json_text(*v)),
;

/// `Value::as_bool`: the boolean held, if the value is one.
pub assume_specification[ serde_json::Value::as_bool ](v: &serde_json::Value) -> (r: Option<bool>)
    ensures
        r == json_bool(json_text(*v)),
;

/// `Value::as_str`: the string held, if the value is one.
pub assume_specification<'a>[ serde_json::Value::as_str ](v: &'a serde_json::Value) -> (r: Option<
    &'a str,
>)
    ensures
        match r {
            Some(s) => json_str(json_text(*v)) == Some(s@),
            None => json_str(json_text(*v)) is None,
        },
;

/// `Value`'s `clone`: a copy is the same value.
pub assume_specification[ <serde_json::Value as Clone>::clone ](v: &serde_json::Value) -> (r:
    serde_json::Value)
    ensures
        r == *v,
;

/// Prints a value with `to_string`, which for a `Value` writes compact JSON.
/// Trusted: this is the text that `json_text` names.
#[verifier::external_body]
pub(crate) fn value_to_string(v: &serde_json::Value) -> (r: String)
    ensures
        r@ == json_text(*v),
{
    v.to_string()
}

/// Makes `Value::Null`. Trusted: it prints as `null`.
#[verifier::external_body]
pub(crate) fn value_null() -> (r: serde_json::Value)
    ensures
        json_text(r) == "null"@,
{
    serde_json::Value::Null
}

/// The printed form of a value after a member was put under a key of it
/// with `Map::insert`, given the printed forms of the value before and of
/// the member; the value is left as it is where it is no object.
pub uninterp spec fn json_with_member(doc: Seq<char>, key: Seq<char>, member: Seq<char>) -> Seq<
    char,
>;

/// The printed form of a JSON string: the characters in quotes, escaped as
/// `serde_json` escapes them.
pub uninterp spec fn json_string_text(s: Seq<char>) -> Seq<char>;

/// The printed form of a JSON array, given the printed forms of its items.
pub uninterp spec fn json_array_text(items: Seq<Seq<char>>) -> Seq<char>;

/// Puts a member under a key of a JSON object with `Value::as_object_mut`
/// and `Map::insert`, replacing what was there; a value that is no object is
/// left alone. Trusted: what the value prints as afterwards is a function of
/// what it printed as before, the key, and what the member prints as.
#[verifier::external_body]
pub(crate) fn value_insert(v: &mut serde_json::Value, key: &str, member: serde_json::Value)
    ensures
        json_text(*final(v)) == json_with_member(json_text(*old(v)), key@, json_text(member)),
{
    if let Some(object) = v.as_object_mut() {
        object.insert(key.to_string(), member);
    }
}

/// Makes a JSON number with `Value::from`. Trusted: a `u64` prints in
/// decimal.
#[verifier::external_body]
pub(crate) fn value_from_u64(n: u64) -> (r: serde_json::Value)
    ensures
        json_text(r) == crate::text::decimal(n as nat),
{
    serde_json::Value::from(n)
}

/// Makes a JSON boolean with `Value::from`. Trusted: it prints as `true` or
/// `false`.
#[verifier::external_body]
pub(crate) fn value_from_bool(b: bool) -> (r: serde_json::Value)
    ensures
        json_text(r) == (if b {
            "true"@
        } else {
            "false"@
        }),
{
    serde_json::Value::from(b)
}

/// Makes a JSON string with `Value::from`. Trusted: how it prints depends on
/// the characters alone.
#[verifier::external_body]
pub(crate) fn value_from_str(s: &str) -> (r: serde_json::Value)
    ensures
        json_text(r) == json_string_text(s@),
{
    serde_json::Value::from(s)
}

/// Makes a JSON array of the given items with `Value::from`. Trusted: how it
/// prints depends on how the items print, in their order.
#[verifier::external_body]
pub(crate) fn value_from_items(items: Vec<serde_json::Value>) -> (r: serde_json::Value)
    ensures
        json_text(r) == json_array_text(Seq::new(items@.len(), |i: int| json_text(items@[i]))),
{
    serde_json::Value::from(items)
}

/// Makes an object without members. Trusted: it prints as `{}`.
#[verifier::external_body]
pub(crate) fn value_empty_object() -> (r: serde_json::Value)
    ensures
        json_text(r) == "{}"@,
{
    serde_json::Value::Object(serde_json::Map::new())
}

/// The number under `key`, where the document has such a member and it is a
/// number that fits `u64`.
pub open spec fn member_u64(doc: Seq<char>, key: Seq<char>) -> Option<u64> {
    match json_member(doc, key) {
        Some(m) => json_u64(m),
        None => None,
    }
}

/// The string under `key`, where the document has such a member and it is a
/// string.
pub open spec fn member_str(doc: Seq<char>, key: Seq<char>) -> Option<Seq<char>> {
    match json_member(doc, key) {
        Some(m) => json_str(m),
        None => None,
    }
}

/// The printed form of the member under `key`, or `null` where there is none.
pub open spec fn member_or_null(doc: Seq<char>, key: Seq<char>) -> Seq<char> {
    match json_member(doc, key) {
        Some(m) => m,
        None => "null"@,
    }
}

/// Reads the number under `key`.
pub fn get_u64(v: &serde_json::Value, key: &str) -> (r: Option<u64>)
    ensures
        r == member_u64(json_text(*v), key@),
{
    match value_get(v, key) {
        Some(m) => m.as_u64(),
        None => None,
    }
}

/// Reads the string under `key`.
pub fn get_string(v: &serde_json::Value, key: &str) -> (r: Option<String>)
    ensures
        match r {
            Some(s) => member_str(json_text(*v), key@) == Some(s@),
            None => member_str(json_text(*v), key@) is None,
        },
{
    match value_get(v, key) {
        Some(m) => match m.as_str() {
            Some(s) => Some(String::from_str(s)),
            None => None,
        },
        None => None,
    }
}

/// Copies the member under `key`, or makes a JSON `null` where there is none.
pub fn get_or_null(v: &serde_json::Value, key: &str) -> (r: serde_json::Value)
    ensures
        json_text(r) == member_or_null(json_text(*v), key@),
{
    match value_get(v, key) {
        Some(m) => m.clone(),
        None => value_null(),
    }
}

} // verus!
