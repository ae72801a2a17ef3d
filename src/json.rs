//! Reading JSON response bodies.
//!
//! Syntax is left to serde_json; each function here reads one layer of a
//! document (an object's members, an array's items, a scalar) and hands the
//! inner values back as JSON text, so that the decoders of the models can be
//! written and proved as ordinary code over members.
use vstd::prelude::*;

verus! {

/// The members of `text` read as a JSON object: each key with its value
/// written back as JSON text.
pub uninterp spec fn object_members(text: Seq<char>) -> Option<Seq<(Seq<char>, Seq<char>)>>;

/// The items of `text` read as a JSON array, each written back as JSON text.
pub uninterp spec fn array_items(text: Seq<char>) -> Option<Seq<Seq<char>>>;

/// The content of `text` read as a JSON string.
pub uninterp spec fn string_value(text: Seq<char>) -> Option<Seq<char>>;

/// `text` read as a JSON string or `null`.
pub uninterp spec fn nullable_string_value(text: Seq<char>) -> Option<Option<Seq<char>>>;

/// The whitespace that JSON allows around a value.
pub open spec fn json_space(c: char) -> bool {
    c == ' ' || c == '\n' || c == '\t' || c == '\r'
}

/// `text` is `word` with nothing but JSON whitespace around it.
pub open spec fn padded(text: Seq<char>, word: Seq<char>) -> bool {
    exists|i: int, j: int|
        0 <= i <= j <= text.len() && text.subrange(i, j) == word && (forall|k: int|
            0 <= k < i ==> json_space(#[trigger] text[k])) && (forall|k: int|
            j <= k < text.len() ==> json_space(#[trigger] text[k]))
}

/// `text` read as a JSON boolean.
pub open spec fn bool_value(text: Seq<char>) -> Option<bool> {
    if padded(text, "true"@) {
        Some(true)
    } else if padded(text, "false"@) {
        Some(false)
    } else {
        None
    }
}

/// `text` read as a JSON number that fits in a `u32`.
pub uninterp spec fn u32_value(text: Seq<char>) -> Option<u32>;

/// `s` written as a JSON string literal, quotes and escapes included.
pub uninterp spec fn quoted(s: Seq<char>) -> Seq<char>;

pub open spec fn pair_views(v: Seq<(String, String)>) -> Seq<(Seq<char>, Seq<char>)> {
    v.map_values(|p: (String, String)| (p.0@, p.1@))
}

pub open spec fn string_views(v: Seq<String>) -> Seq<Seq<char>> {
    v.map_values(|s: String| s@)
}

/// Relies on serde_json::from_str into a `serde_json::Map`: it accepts
/// exactly the JSON objects, and `Value`'s `Display` writes each value back.
#[verifier::external_body]
pub(crate) fn parse_object(text: &str) -> (r: Option<Vec<(String, String)>>)
    ensures
        match r {
            Some(v) => object_members(text@) == Some(pair_views(v@)),
            None => object_members(text@) is None,
        },
{
    match serde_json::from_str::<serde_json::Map<String, serde_json::Value>>(text) {
        Ok(m) => Some(m.into_iter().map(|(k, v)| (k, v.to_string())).collect()),
        Err(_) => None,
    }
}

/// Relies on serde_json::from_str into a `Vec<serde_json::Value>`: it accepts
/// exactly the JSON arrays, and `Value`'s `Display` writes each item back.
#[verifier::external_body]
pub(crate) fn parse_array(text: &str) -> (r: Option<Vec<String>>)
    ensures
        match r {
            Some(v) => array_items(text@) == Some(string_views(v@)),
            None => array_items(text@) is None,
        },
{
    match serde_json::from_str::<Vec<serde_json::Value>>(text) {
        Ok(items) => Some(items.into_iter().map(|v| v.to_string()).collect()),
        Err(_) => None,
    }
}

/// Relies on serde_json::from_str into a `String`.
#[verifier::external_body]
pub(crate) fn parse_string(text: &str) -> (r: Option<String>)
    ensures
        match r {
            Some(s) => string_value(text@) == Some(s@),
            None => string_value(text@) is None,
        },
{
    serde_json::from_str::<String>(text).ok()
}

/// Relies on serde_json::from_str into an `Option<String>`, which reads
/// `null` as `None`.
#[verifier::external_body]
pub(crate) fn parse_nullable_string(text: &str) -> (r: Option<Option<String>>)
    ensures
        match r {
            Some(Some(s)) => nullable_string_value(text@) == Some(Some(s@)),
            Some(None) => nullable_string_value(text@) == Some(None::<Seq<char>>),
            None => nullable_string_value(text@) is None,
        },
{
    serde_json::from_str::<Option<String>>(text).ok()
}

/// Relies on serde_json::from_str into a `bool`: after skipping spaces, tabs,
/// line feeds and carriage returns it reads `true` or `false`, and then
/// accepts only the same whitespace up to the end.
#[verifier::external_body]
pub(crate) fn parse_bool(text: &str) -> (r: Option<bool>)
    ensures
        r == bool_value(text@),
{
    serde_json::from_str::<bool>(text).ok()
}

/// Relies on serde_json::from_str into a `u32`.
#[verifier::external_body]
pub(crate) fn parse_u32(text: &str) -> (r: Option<u32>)
    ensures
        r == u32_value(text@),
{
    serde_json::from_str::<u32>(text).ok()
}

/// Relies on serde_json::to_string on a `str`: a JSON string literal, which
/// serde_json reads back as the same string.
#[verifier::external_body]
pub(crate) fn quote(s: &str) -> (r: String)
    ensures
        r@ == quoted(s@),
        string_value(r@) == Some(s@),
{
    serde_json::to_string(s).unwrap_or_default()
}

/// The value of the first member named `key`.
pub open spec fn lookup(ms: Seq<(Seq<char>, Seq<char>)>, key: Seq<char>) -> Option<Seq<char>> {
    lookup_from(ms, key, 0)
}

pub open spec fn lookup_from(ms: Seq<(Seq<char>, Seq<char>)>, key: Seq<char>, i: int) -> Option<
    Seq<char>,
>
    decreases ms.len() - i,
{
    if i < 0 || i >= ms.len() {
        None
    } else if ms[i].0 == key {
        Some(ms[i].1)
    } else {
        lookup_from(ms, key, i + 1)
    }
}

/// Finds the value of the first member named `key`.
pub fn find_member(members: &Vec<(String, String)>, key: &str) -> (r: Option<String>)
    ensures
        match r {
            Some(v) => lookup(pair_views(members@), key@) == Some(v@),
            None => lookup(pair_views(members@), key@) is None,
        },
{
    let k = String::from_str(key);
    let ghost ms = pair_views(members@);
    let mut i: usize = 0;
    while i < members.len()
        invariant
            0 <= i <= members@.len(),
            ms == pair_views(members@),
            k@ == key@,
            lookup(ms, key@) == lookup_from(ms, key@, i as int),
        decreases members@.len() - i,
    {
        if members[i].0 == k {
            return Some(members[i].1.clone());
        }
        i = i + 1;
    }
    None
}

/// The value of member `key` of the JSON object `text`.
pub open spec fn member_of(text: Seq<char>, key: Seq<char>) -> Option<Seq<char>> {
    match object_members(text) {
        Some(ms) => lookup(ms, key),
        None => None,
    }
}

/// A required string member.
pub open spec fn str_in(ms: Seq<(Seq<char>, Seq<char>)>, key: Seq<char>) -> Option<Seq<char>> {
    match lookup(ms, key) {
        Some(t) => string_value(t),
        None => None,
    }
}

/// A required boolean member.
pub open spec fn bool_in(ms: Seq<(Seq<char>, Seq<char>)>, key: Seq<char>) -> Option<bool> {
    match lookup(ms, key) {
        Some(t) => bool_value(t),
        None => None,
    }
}

/// A required `u32` member.
pub open spec fn u32_in(ms: Seq<(Seq<char>, Seq<char>)>, key: Seq<char>) -> Option<u32> {
    match lookup(ms, key) {
        Some(t) => u32_value(t),
        None => None,
    }
}

/// An optional string member: absent and `null` both read as `None`.
pub open spec fn opt_str_in(ms: Seq<(Seq<char>, Seq<char>)>, key: Seq<char>) -> Option<
    Option<Seq<char>>,
> {
    match lookup(ms, key) {
        Some(t) => nullable_string_value(t),
        None => Some(None),
    }
}

pub fn str_field(members: &Vec<(String, String)>, key: &str) -> (r: Option<String>)
    ensures
        match r {
            Some(s) => str_in(pair_views(members@), key@) == Some(s@),
            None => str_in(pair_views(members@), key@) is None,
        },
{
    match find_member(members, key) {
        Some(t) => parse_string(t.as_str()),
        None => None,
    }
}

pub fn bool_field(members: &Vec<(String, String)>, key: &str) -> (r: Option<bool>)
    ensures
        r == bool_in(pair_views(members@), key@),
{
    match find_member(members, key) {
        Some(t) => parse_bool(t.as_str()),
        None => None,
    }
}

pub fn u32_field(members: &Vec<(String, String)>, key: &str) -> (r: Option<u32>)
    ensures
        r == u32_in(pair_views(members@), key@),
{
    match find_member(members, key) {
        Some(t) => parse_u32(t.as_str()),
        None => None,
    }
}

pub fn opt_str_field(members: &Vec<(String, String)>, key: &str) -> (r: Option<Option<String>>)
    ensures
        match r {
            Some(Some(s)) => opt_str_in(pair_views(members@), key@) == Some(Some(s@)),
            Some(None) => opt_str_in(pair_views(members@), key@) == Some(None::<Seq<char>>),
            None => opt_str_in(pair_views(members@), key@) is None,
        },
{
    match find_member(members, key) {
        Some(t) => parse_nullable_string(t.as_str()),
        None => Some(None),
    }
}

} // verus!
