//! Time stamps, held as plain values, and the calls into chrono that make them.
use vstd::prelude::*;

use chrono::{DateTime, FixedOffset, Local};

verus! {

/// An instant together with the UTC offset it was written in.
#[derive(Clone, Copy, Debug, PartialEq, Eq, Structural)]
pub struct Timestamp {
    /// Whole seconds since the Unix epoch.
    pub secs: i64,
    /// Nanoseconds past `secs`; a leap second runs past one billion.
    pub nanos: u32,
    /// Local time minus UTC, in seconds.
    pub offset_secs: i32,
}

impl Timestamp {
    /// The ranges that chrono keeps these parts in.
    pub open spec fn wf(&self) -> bool {
        &&& self.nanos < 2_000_000_000
        &&& -86_400 < self.offset_secs < 86_400
    }
}

/// What chrono reads from a stored time stamp text, if it can read one.
pub uninterp spec fn parsed_timestamp(text: Seq<char>) -> Option<Timestamp>;

/// Relies on `<DateTime<FixedOffset> as FromStr>::from_str` (relaxed RFC 3339):
/// the outcome depends on the text alone, and chrono's values stay in range.
#[verifier::external_body]
pub(crate) fn parse_timestamp(text: &str) -> (r: Option<Timestamp>)
    ensures
        r == parsed_timestamp(text@),
        r matches Some(t) ==> t.wf(),
{
    text.parse::<DateTime<FixedOffset>>().ok().map(|t| Timestamp {
        secs: t.timestamp(),
        nanos: t.timestamp_subsec_nanos(),
        offset_secs: t.offset().local_minus_utc(),
    })
}

/// Relies on `chrono::Local::now`: the current instant in the local zone.
#[verifier::external_body]
pub(crate) fn local_now() -> (r: Timestamp)
    ensures
        r.wf(),
{
    let t = Local::now();
    Timestamp {
        secs: t.timestamp(),
        nanos: t.timestamp_subsec_nanos(),
        offset_secs: t.offset().local_minus_utc(),
    }
}

/// Relies on `chrono::Local::now` and the `Display` of `DateTime<Local>`:
/// the current local time as the text that is stored.
#[verifier::external_body]
pub(crate) fn local_now_text() -> String {
    Local::now().to_string()
}

/// The stored time when it could be read, else the fallback.
pub open spec fn resolved(parsed: Option<Timestamp>, fallback: Timestamp) -> Timestamp {
    match parsed {
        Some(t) => t,
        None => fallback,
    }
}

/// Picks the time stamp of a record read back: the parsed one, or `now`
/// exactly when the stored text could not be read.
pub fn resolve_created_at(parsed: Option<Timestamp>, now: Timestamp) -> (r: Timestamp)
    ensures
        r == resolved(parsed, now),
{
    match parsed {
        Some(t) => t,
        None => now,
    }
}

/// Reads a stored time stamp, falling back to `now` when it cannot be read.
pub fn read_created_at(text: &str, now: Timestamp) -> (r: Timestamp)
    ensures
        r == resolved(parsed_timestamp(text@), now),
        now.wf() ==> r.wf(),
{
    resolve_created_at(parse_timestamp(text), now)
}

} // verus!
