//! Wall-clock timestamps, modeled as milliseconds since the Unix epoch.
//!
//! Timestamps travel on the wire as RFC 3339 text. What instant a given text
//! denotes is an outside computation (calendar arithmetic); it is given the
//! name `rfc3339_millis`, and all time-dependent contracts are stated over
//! that name.

use vstd::prelude::*;

verus! {

/// The instant denoted by an RFC 3339 timestamp string, in milliseconds since
/// the Unix epoch; `None` when the string is not a well-formed RFC 3339
/// timestamp. A function of the text alone.
pub uninterp spec fn rfc3339_millis(s: Seq<char>) -> Option<int>;

/// Relies on `chrono::DateTime::parse_from_rfc3339` and
/// `DateTime::timestamp_millis`: parses an RFC 3339 timestamp and returns the
/// instant it denotes in epoch milliseconds.
#[verifier::external_body]
pub(crate) fn parse_rfc3339_millis(s: &str) -> (r: Option<i64>)
    ensures
        r is Some <==> rfc3339_millis(s@) is Some,
        r matches Some(ms) ==> rfc3339_millis(s@) == Some(ms as int),
{
    chrono::DateTime::parse_from_rfc3339(s).ok().map(|d| d.timestamp_millis())
}

/// Relies on `chrono::Utc::now` (with `timestamp_millis` and `to_rfc3339`):
/// reads the wall clock once and returns the instant both as epoch
/// milliseconds and as non-empty RFC 3339 text denoting that same instant.
/// The clock value itself is outside anyone's control; nothing more is
/// promised about it.
#[verifier::external_body]
pub(crate) fn clock_now() -> (r: (i64, String))
    ensures
        rfc3339_millis(r.1@) == Some(r.0 as int),
        r.1@.len() > 0,
{
    let now = chrono::Utc::now();
    (now.timestamp_millis(), now.to_rfc3339())
}

/// Elapsed milliseconds from `start_ms` to `end_ms`, clamped to be
/// non-negative and to fit in a `u64`.
pub open spec fn duration_of(start_ms: int, end_ms: int) -> u64 {
    if end_ms <= start_ms {
        0u64
    } else if end_ms - start_ms > u64::MAX {
        u64::MAX
    } else {
        (end_ms - start_ms) as u64
    }
}

/// Compute `duration_of` on machine integers.
pub(crate) fn duration_between(start_ms: i64, end_ms: i64) -> (r: u64)
    ensures
        r == duration_of(start_ms as int, end_ms as int),
{
    let d: i128 = end_ms as i128 - start_ms as i128;
    if d <= 0 {
        0
    } else if d > u64::MAX as i128 {
        u64::MAX
    } else {
        d as u64
    }
}

} // verus!
