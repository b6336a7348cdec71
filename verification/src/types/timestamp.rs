//! Points in time as the API writes them.
use time::format_description::well_known::Rfc3339;
use time::OffsetDateTime;
use vstd::prelude::*;
use crate::json::{Json, JsonValue};

verus! {

/// A point in time together with the offset from UTC that it was written
/// with.
#[derive(Debug, Clone, Copy, PartialEq, Eq)]
pub struct Timestamp {
    /// Whole seconds since 1970-01-01T00:00:00Z.
    pub unix_seconds: i64,
    /// The nanoseconds within the second.
    pub nanosecond: u32,
    /// The offset from UTC, in seconds.
    pub offset_seconds: i32,
}

/// What `OffsetDateTime::parse` with the `Rfc3339` description reads from a
/// text: the point in time, or `None` where it refuses the text.
pub uninterp spec fn rfc3339_instant(text: Seq<char>) -> Option<Timestamp>;

/// Calls `OffsetDateTime::parse` with the `Rfc3339` description, and takes
/// from the result its `unix_timestamp`, `nanosecond` and the
/// `whole_seconds` of its `offset`. The contract gives the outcome its name
/// and claims nothing else.
#[verifier::external_body]
fn read_rfc3339(text: &str) -> (r: Option<Timestamp>)
    ensures
        r == rfc3339_instant(text@),
{
    let t = OffsetDateTime::parse(text, &Rfc3339).ok()?;
    Some(
        Timestamp {
            unix_seconds: t.unix_timestamp(),
            nanosecond: t.nanosecond(),
            offset_seconds: t.offset().whole_seconds(),
        },
    )
}

/// The point in time under the member `name`, if the member is there and is
/// a string that reads as one.
pub open spec fn timestamp_member(j: Json, name: Seq<char>) -> Option<Timestamp> {
    match j.text_member(name) {
        Some(t) => rfc3339_instant(t),
        None => None,
    }
}

/// The point in time under the member `name` where it may be left out:
/// `Some(None)` where the member is missing or null, `None` where it is there
/// and does not read as a point in time.
pub open spec fn optional_timestamp_member(j: Json, name: Seq<char>) -> Option<Option<Timestamp>> {
    match j.optional_text_member(name) {
        None => None,
        Some(None) => Some(None),
        Some(Some(t)) => match rfc3339_instant(t) {
            Some(at) => Some(Some(at)),
            None => None,
        },
    }
}

impl Timestamp {
    /// Reads a point in time written as RFC 3339 asks.
    pub fn parse(text: &str) -> (r: Option<Timestamp>)
        ensures
            r == rfc3339_instant(text@),
    {
        read_rfc3339(text)
    }

    /// Reads the point in time under the member `name`.
    pub fn get(v: &JsonValue, name: &str) -> (r: Option<Timestamp>)
        ensures
            r == timestamp_member(v@, name@),
    {
        match v.get_text(name) {
            Some(t) => Timestamp::parse(t),
            None => None,
        }
    }

    /// Reads the point in time under the member `name` where it may be left
    /// out. `Err` where the member is there and does not read as one.
    pub fn get_optional(v: &JsonValue, name: &str) -> (r: Result<Option<Timestamp>, ()>)
        ensures
            match r {
                Ok(at) => optional_timestamp_member(v@, name@) == Some(at),
                Err(_) => optional_timestamp_member(v@, name@) is None,
            },
    {
        match v.get_optional_text(name) {
            Err(_) => Err(()),
            Ok(None) => Ok(None),
            Ok(Some(t)) => match Timestamp::parse(t) {
                Some(at) => Ok(Some(at)),
                None => Err(()),
            },
        }
    }
}

} // verus!
