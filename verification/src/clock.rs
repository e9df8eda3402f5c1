//! Time as this crate sees it: whole seconds since the Unix epoch, with the
//! nanoseconds of the running second where they matter.

use vstd::prelude::*;

verus! {

/// A moment in UTC: `secs` seconds after 1970-01-01T00:00:00Z (before it,
/// if negative) and `nanos` nanoseconds into that second.
#[derive(Debug, Clone, Copy, PartialEq, Eq, Structural)]
pub struct Timestamp {
    pub secs: i64,
    pub nanos: u32,
}

/// One past the last second whose year has four digits
/// (10000-01-01T00:00:00Z).
pub const YEAR_10000_SECS: i64 = 253_402_300_800;

/// The RFC 3339 text of a moment, as `chrono` writes it, or `None` where
/// `chrono` has no date for the moment.
pub uninterp spec fn rfc3339_text(secs: i64, nanos: u32) -> Option<Seq<char>>;

/// Reads the system clock through `chrono::Utc::now` and takes the result
/// apart with `DateTime::timestamp` and `DateTime::timestamp_subsec_nanos`.
/// Which moment comes back is left open. The contract claims only that
/// the moment has a text: `chrono` documents that the two numbers taken
/// from any of its dates are accepted again by `DateTime::from_timestamp`.
/// `chrono` panics if the system clock stands before 1970.
#[verifier::external_body]
pub(crate) fn utc_now() -> (now: Timestamp)
    ensures
        rfc3339_text(now.secs, now.nanos) is Some,
{
    let now = chrono::Utc::now();
    Timestamp { secs: now.timestamp(), nanos: now.timestamp_subsec_nanos() }
}

/// Formats a moment with `chrono`: `DateTime::from_timestamp` builds the
/// date and `DateTime::to_rfc3339` writes it. The contract claims that the
/// text depends on the two numbers alone, and that every moment from 1970
/// up to the year 10000 with fewer than a billion nanoseconds has a text:
/// `from_timestamp` refuses only days outside `chrono`'s calendar and
/// nanoseconds that do not fit the second.
#[verifier::external_body]
pub(crate) fn to_rfc3339(at: &Timestamp) -> (text: Option<String>)
    ensures
        match text {
            Some(t) => rfc3339_text(at.secs, at.nanos) == Some(t@),
            None => rfc3339_text(at.secs, at.nanos) is None,
        },
        0 <= at.secs < YEAR_10000_SECS && at.nanos < 1_000_000_000 ==> text is Some,
{
    match chrono::DateTime::from_timestamp(at.secs, at.nanos) {
        Some(moment) => Some(moment.to_rfc3339()),
        None => None,
    }
}

} // verus!
