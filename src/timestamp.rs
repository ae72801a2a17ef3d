//! ISO-8601 UTC instants, held as plain numbers.
use crate::json::{lookup, pair_views, find_member};
use vstd::prelude::*;

verus! {

/// An instant in UTC: whole seconds since the Unix epoch and the nanoseconds
/// past that second.
#[derive(Clone, Copy, Debug, PartialEq, Eq, Structural)]
pub struct Timestamp {
    pub seconds: i64,
    pub nanos: u32,
}

impl Timestamp {
    pub open spec fn pair(self) -> (i64, u32) {
        (self.seconds, self.nanos)
    }
}

/// `text` read as a JSON string holding an RFC 3339 date and time, as
/// seconds and nanoseconds in UTC.
pub uninterp spec fn instant_value(text: Seq<char>) -> Option<(i64, u32)>;

/// `text` read as such a string or `null`.
pub uninterp spec fn nullable_instant_value(text: Seq<char>) -> Option<Option<(i64, u32)>>;

/// Relies on serde_json::from_str into a `chrono::DateTime<chrono::Utc>`:
/// chrono reads the JSON string with `FromStr` as a `DateTime<FixedOffset>`
/// and moves it to UTC; `timestamp` and `timestamp_subsec_nanos` give the
/// instant as numbers.
#[verifier::external_body]
pub(crate) fn parse_instant(text: &str) -> (r: Option<Timestamp>)
    ensures
        match r {
            Some(t) => instant_value(text@) == Some(t.pair()),
            None => instant_value(text@) is None,
        },
{
    serde_json::from_str::<chrono::DateTime<chrono::Utc>>(text).ok().map(
        |t| Timestamp { seconds: t.timestamp(), nanos: t.timestamp_subsec_nanos() },
    )
}

/// Relies on serde_json::from_str into an
/// `Option<chrono::DateTime<chrono::Utc>>`: `null` reads as `None`, a string
/// as above.
#[verifier::external_body]
pub(crate) fn parse_nullable_instant(text: &str) -> (r: Option<Option<Timestamp>>)
    ensures
        match r {
            Some(Some(t)) => nullable_instant_value(text@) == Some(Some(t.pair())),
            Some(None) => nullable_instant_value(text@) == Some(None::<(i64, u32)>),
            None => nullable_instant_value(text@) is None,
        },
{
    serde_json::from_str::<Option<chrono::DateTime<chrono::Utc>>>(text).ok().map(
        |o| o.map(|t| Timestamp { seconds: t.timestamp(), nanos: t.timestamp_subsec_nanos() }),
    )
}

/// A required instant member.
pub open spec fn instant_in(ms: Seq<(Seq<char>, Seq<char>)>, key: Seq<char>) -> Option<(i64, u32)> {
    match lookup(ms, key) {
        Some(t) => instant_value(t),
        None => None,
    }
}

/// An optional instant member: absent and `null` both read as `None`.
pub open spec fn opt_instant_in(ms: Seq<(Seq<char>, Seq<char>)>, key: Seq<char>) -> Option<
    Option<(i64, u32)>,
> {
    match lookup(ms, key) {
        Some(t) => nullable_instant_value(t),
        None => Some(None),
    }
}

pub open spec fn opt_pair(t: Option<Timestamp>) -> Option<(i64, u32)> {
    match t {
        Some(t) => Some(t.pair()),
        None => None,
    }
}

pub fn instant_field(members: &Vec<(String, String)>, key: &str) -> (r: Option<Timestamp>)
    ensures
        opt_pair(r) == instant_in(pair_views(members@), key@),
{
    match find_member(members, key) {
        Some(t) => parse_instant(t.as_str()),
        None => None,
    }
}

pub fn opt_instant_field(members: &Vec<(String, String)>, key: &str) -> (r: Option<
    Option<Timestamp>,
>)
    ensures
        match r {
            Some(o) => opt_instant_in(pair_views(members@), key@) == Some(opt_pair(o)),
            None => opt_instant_in(pair_views(members@), key@) is None,
        },
{
    match find_member(members, key) {
        Some(t) => parse_nullable_instant(t.as_str()),
        None => Some(None),
    }
}

} // verus!
