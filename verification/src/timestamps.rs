use vstd::prelude::*;

use crate::external::{iso8601_reading, parse_iso8601_text, parse_rfc2822_text, rfc2822_reading};

verus! {

/// A timestamp field of a legacy response: what `time` reads from its text
/// as an RFC 2822 timestamp, or none when it is absent or unreadable.
pub open spec fn rfc2822_value(v: Option<String>) -> Option<time::OffsetDateTime> {
    match v {
        Some(s) => rfc2822_reading(s@),
        None => None,
    }
}

/// Read a legacy response timestamp; absent or unreadable text gives none.
pub fn parse_rfc2822(value: Option<String>) -> (r: Option<time::OffsetDateTime>)
    ensures
        r == rfc2822_value(value),
{
    match value {
        Some(s) => parse_rfc2822_text(s.as_str()),
        None => None,
    }
}

/// A timestamp field of a v1 response: what `time` reads from its text as
/// an ISO 8601 timestamp, or none when it is absent or unreadable.
pub open spec fn iso8601_value(v: Option<String>) -> Option<time::OffsetDateTime> {
    match v {
        Some(s) => iso8601_reading(s@),
        None => None,
    }
}

/// Read a v1 response timestamp; absent or unreadable text gives none.
pub fn parse_iso8601(value: Option<String>) -> (r: Option<time::OffsetDateTime>)
    ensures
        r == iso8601_value(value),
{
    match value {
        Some(s) => parse_iso8601_text(s.as_str()),
        None => None,
    }
}

} // verus!
