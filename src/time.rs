//! Instants, as the service writes them: RFC 3339 text.
use crate::json::{text_of, Json};
use vstd::prelude::*;

verus! {

/// An instant: whole seconds since 1970-01-01T00:00:00Z, and nanoseconds past them
/// (from 1,000,000,000 up during a leap second).
#[derive(Clone, Copy, Debug, PartialEq, Eq, Structural)]
pub struct Timestamp {
    /// Seconds since the Unix epoch, in UTC.
    pub seconds: i64,
    /// Nanoseconds past `seconds`.
    pub nanos: u32,
}

/// The instant that `chrono` reads from the text `s`; `None` where it reads none.
pub uninterp spec fn instant_of(s: Seq<char>) -> Option<Timestamp>;

/// Relies on `chrono`'s `FromStr` for `DateTime<Utc>`, which reads RFC 3339 text (as
/// its serde support does), and on `timestamp` and `timestamp_subsec_nanos`: the
/// outcome depends on the text alone.
#[verifier::external_body]
fn parse_instant(s: &str) -> (r: Option<Timestamp>)
    ensures
        r == instant_of(s@),
{
    <chrono::DateTime<chrono::Utc> as std::str::FromStr>::from_str(s).ok().map(
        |d| Timestamp { seconds: d.timestamp(), nanos: d.timestamp_subsec_nanos() },
    )
}

/// The instant in an optional JSON member: a string of RFC 3339 text.
pub open spec fn instant_in(v: Option<Json>) -> Option<Timestamp> {
    match text_of(v) {
        Some(s) => instant_of(s),
        None => None,
    }
}

impl Timestamp {
    /// Reads an instant from RFC 3339 text, such as `2021-03-04T05:06:07.123Z`.
    pub fn parse(s: &str) -> (r: Option<Timestamp>)
        ensures
            r == instant_of(s@),
    {
        parse_instant(s)
    }

    /// Reads an instant from an optional JSON member.
    pub fn from_member(v: Option<&Json>) -> (r: Option<Timestamp>)
        ensures
            r == instant_in(crate::json::deref(v)),
    {
        match v {
            Some(Json::Str(s)) => parse_instant(s.as_str()),
            _ => None,
        }
    }
}

} // verus!
