//! Timestamp derivation: reading an RFC-3339 date-and-time string as
//! milliseconds since the epoch, and converting the signed result to the
//! unsigned timestamp a normalized record carries.

use vstd::prelude::*;

use crate::context::FailureCause;

verus! {

/// The milliseconds since the epoch denoted by an RFC-3339 date-and-time
/// string, or nothing when the string is not one. A function of the
/// characters alone.
pub uninterp spec fn rfc3339_millis(s: Seq<char>) -> Option<i64>;

/// Relies on chrono::DateTime::parse_from_rfc3339 and
/// chrono::DateTime::timestamp_millis: parsing reads only the characters of
/// `s` (the offset comes from the string itself, never from the
/// environment), and the millisecond count is a pure function of the parsed
/// value, so the composition depends on the input characters alone.
#[verifier::external_body]
pub(crate) fn parse_rfc3339_millis(s: &str) -> (r: Option<i64>)
    ensures
        r == rfc3339_millis(s@),
{
    chrono::DateTime::parse_from_rfc3339(s).ok().map(|d| d.timestamp_millis())
}

/// Derives the unsigned record timestamp from a parsed millisecond value:
/// an unparseable timestamp and a pre-epoch instant are distinct, typed
/// failures.
pub fn timestamp_from_parsed(parsed: Option<i64>) -> (r: Result<u64, FailureCause>)
    ensures
        match parsed {
            None => r == Err::<u64, FailureCause>(FailureCause::TimestampParseError),
            Some(ms) => if ms >= 0 {
                r == Ok::<u64, FailureCause>(ms as u64)
            } else {
                r == Err::<u64, FailureCause>(FailureCause::IntegerConversionOverflow)
            },
        },
{
    match parsed {
        None => Err(FailureCause::TimestampParseError),
        Some(ms) => if ms >= 0 {
            Ok(ms as u64)
        } else {
            Err(FailureCause::IntegerConversionOverflow)
        },
    }
}

} // verus!
