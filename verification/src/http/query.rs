//! Query strings of endpoint addresses.

use vstd::prelude::*;
use vstd::string::*;
use crate::text::{decimal, join, joined, u64_to_string};

verus! {

/// One parameter of a query: `key=value`.
pub open spec fn pair_text(key: Seq<char>, value: Seq<char>) -> Seq<char> {
    key + "="@ + value
}

/// Writes one parameter of a query.
pub fn pair(key: &str, value: &str) -> (s: String)
    ensures
        s@ == pair_text(key@, value@),
{
    let mut s = String::from_str(key);
    s.append("=");
    s.append(value);
    s
}

/// How a query writes a boolean.
pub open spec fn bool_text(b: bool) -> Seq<char> {
    if b {
        "true"@
    } else {
        "false"@
    }
}

/// Writes a boolean as a query does.
pub fn bool_str(b: bool) -> (s: &'static str)
    ensures
        s@ == bool_text(b),
{
    if b {
        "true"
    } else {
        "false"
    }
}

/// The query that a list of parameters makes: nothing for no parameters,
/// else `?` and the parameters with `&` between them.
pub open spec fn query_text(params: Seq<Seq<char>>) -> Seq<char> {
    if params.len() == 0 {
        Seq::empty()
    } else {
        "?"@ + joined(params, "&"@)
    }
}

/// Puts a query behind an address.
pub fn with_query(url: String, params: &Vec<String>) -> (full: String)
    ensures
        full@ == url@ + query_text(params.deep_view()),
{
    let mut full = url;
    if params.len() > 0 {
        let query = join(params, "&");
        full.append("?");
        full.append(query.as_str());
        assert(full@ =~= url@ + query_text(params.deep_view()));
    } else {
        assert(params.deep_view().len() == 0);
        assert(full@ =~= url@ + query_text(params.deep_view()));
    }
    full
}

/// The parameter for an optional text: none if there is no text.
pub open spec fn text_param(key: Seq<char>, value: Option<Seq<char>>) -> Seq<Seq<char>> {
    match value {
        Some(v) => seq![pair_text(key, v)],
        None => Seq::empty(),
    }
}

/// The parameter for an optional number: none if there is no number.
pub open spec fn number_param(key: Seq<char>, value: Option<nat>) -> Seq<Seq<char>> {
    match value {
        Some(v) => seq![pair_text(key, decimal(v))],
        None => Seq::empty(),
    }
}

/// The parameter for an optional boolean: none if there is no boolean.
pub open spec fn bool_param(key: Seq<char>, value: Option<bool>) -> Seq<Seq<char>> {
    match value {
        Some(v) => seq![pair_text(key, bool_text(v))],
        None => Seq::empty(),
    }
}

/// A number as a wider one, where there is one.
pub open spec fn opt_nat_u8(v: Option<u8>) -> Option<nat> {
    match v {
        Some(n) => Some(n as nat),
        None => None,
    }
}

/// A number as a wider one, where there is one.
pub open spec fn opt_nat_u32(v: Option<u32>) -> Option<nat> {
    match v {
        Some(n) => Some(n as nat),
        None => None,
    }
}

/// The characters of an optional string.
pub open spec fn opt_text(s: Option<String>) -> Option<Seq<char>> {
    match s {
        Some(s) => Some(s@),
        None => None,
    }
}

/// The characters of an optional string slice.
pub open spec fn opt_slice(s: Option<&str>) -> Option<Seq<char>> {
    match s {
        Some(s) => Some(s@),
        None => None,
    }
}

/// Adds the parameter for an optional text to a list.
pub fn push_text(params: &mut Vec<String>, key: &str, value: Option<&str>)
    ensures
        final(params).deep_view() == old(params).deep_view() + text_param(key@, opt_slice(value)),
{
    if let Some(v) = value {
        let p = pair(key, v);
        params.push(p);
        assert(final(params).deep_view() =~= old(params).deep_view() + seq![pair_text(key@, v@)]);
    } else {
        assert(final(params).deep_view() =~= old(params).deep_view() + Seq::empty());
    }
}

/// Adds the parameter for an optional number to a list.
pub fn push_number(params: &mut Vec<String>, key: &str, value: Option<u64>)
    ensures
        final(params).deep_view() == old(params).deep_view() + number_param(
            key@,
            match value {
                Some(v) => Some(v as nat),
                None => None,
            },
        ),
{
    if let Some(v) = value {
        let text = u64_to_string(v);
        let p = pair(key, text.as_str());
        params.push(p);
        assert(final(params).deep_view() =~= old(params).deep_view() + seq![
            pair_text(key@, decimal(v as nat)),
        ]);
    } else {
        assert(final(params).deep_view() =~= old(params).deep_view() + Seq::empty());
    }
}

/// Adds the parameter for an optional boolean to a list.
pub fn push_bool(params: &mut Vec<String>, key: &str, value: Option<bool>)
    ensures
        final(params).deep_view() == old(params).deep_view() + bool_param(key@, value),
{
    if let Some(v) = value {
        let p = pair(key, bool_str(v));
        params.push(p);
        assert(final(params).deep_view() =~= old(params).deep_view() + seq![
            pair_text(key@, bool_text(v)),
        ]);
    } else {
        assert(final(params).deep_view() =~= old(params).deep_view() + Seq::empty());
    }
}

/// Widens an optional number.
pub(crate) fn widen_u8(v: Option<u8>) -> (r: Option<u64>)
    ensures
        match v {
            Some(n) => r == Some(n as u64),
            None => r is None,
        },
{
    match v {
        Some(n) => Some(n as u64),
        None => None,
    }
}

/// Widens an optional number.
pub(crate) fn widen_u32(v: Option<u32>) -> (r: Option<u64>)
    ensures
        match v {
            Some(n) => r == Some(n as u64),
            None => r is None,
        },
{
    match v {
        Some(n) => Some(n as u64),
        None => None,
    }
}

/// Borrows an optional string as a slice.
pub(crate) fn as_slice(s: &Option<String>) -> (r: Option<&str>)
    ensures
        opt_slice(r) == opt_text(*s),
{
    match s {
        Some(s) => Some(s.as_str()),
        None => None,
    }
}

/// `&limit=` and the number, or nothing.
pub open spec fn limit_suffix(limit: Option<nat>) -> Seq<char> {
    match limit {
        Some(n) => "&limit="@ + decimal(n),
        None => Seq::empty(),
    }
}

/// Puts `&limit=` and the number behind an address, if there is a number.
pub fn append_limit(url: &mut String, limit: Option<u64>)
    ensures
        final(url)@ == old(url)@ + limit_suffix(
            match limit {
                Some(n) => Some(n as nat),
                None => None,
            },
        ),
{
    if let Some(n) = limit {
        let text = u64_to_string(n);
        url.append("&limit=");
        url.append(text.as_str());
        assert(final(url)@ =~= old(url)@ + ("&limit="@ + decimal(n as nat)));
    } else {
        assert(final(url)@ =~= old(url)@ + Seq::empty());
    }
}

} // verus!
