//! Instants on the UTC time line.

use vstd::prelude::*;
use crate::errors::{DingError, RequestFailure};

verus! {

/// What chrono's `FromStr` for `DateTime<Utc>` makes of `text`: the instant
/// as whole seconds since the Unix epoch and the nanoseconds past that
/// second, or `None` where the text is not an RFC 3339 date and time.
pub uninterp spec fn rfc3339_instant(text: Seq<char>) -> Option<(i64, u32)>;

/// Calls `str::parse::<chrono::DateTime<chrono::Utc>>`, then reads the
/// instant with `timestamp` and `timestamp_subsec_nanos`.
///
/// Trusted: the outcome is a function of the input text alone; it is named
/// `rfc3339_instant` and nothing more is claimed of it.
#[verifier::external_body]
fn parse_instant(input: &str) -> (r: Option<(i64, u32)>)
    ensures
        r == rfc3339_instant(input@),
{
    match input.parse::<chrono::DateTime<chrono::Utc>>() {
        Ok(dt) => Some((dt.timestamp(), dt.timestamp_subsec_nanos())),
        Err(_) => None,
    }
}

/// A UTC instant: seconds since the Unix epoch, and nanoseconds past them.
#[derive(Debug, Clone, Copy, PartialEq, Eq, Structural)]
pub struct Timestamp {
    pub seconds: i64,
    pub nanos: u32,
}

impl Timestamp {
    /// The instant that a pair of seconds and nanoseconds stands for.
    pub open spec fn of(pair: (i64, u32)) -> Timestamp {
        Timestamp { seconds: pair.0, nanos: pair.1 }
    }

    /// Reads an RFC 3339 date and time. Fails with a decode failure exactly
    /// when the text is not one.
    pub fn parse(input: &str) -> (r: Result<Timestamp, DingError>)
        ensures
            match r {
                Ok(t) => rfc3339_instant(input@) == Some((t.seconds, t.nanos)),
                Err(e) => rfc3339_instant(input@) is None && e.is_decode(),
            },
    {
        match parse_instant(input) {
            Some(pair) => Ok(Timestamp { seconds: pair.0, nanos: pair.1 }),
            None => Err(DingError::Request { source: RequestFailure::Decode }),
        }
    }
}

} // verus!
