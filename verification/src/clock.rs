//! Wall-clock time and calendar dates as `chrono` computes them.
//!
//! Nothing in this module is proved: each function states what the `chrono`
//! call in its body is taken to do.

use vstd::prelude::*;

verus! {

/// The seconds since the Unix epoch of the instant that `chrono` reads from
/// an RFC 3339 text, if it reads one.
pub uninterp spec fn rfc3339_seconds(text: Seq<char>) -> Option<i64>;

/// Whether `chrono` can hold the instant that lies this many milliseconds
/// after the Unix epoch.
pub uninterp spec fn millis_in_range(millis: i64) -> bool;

/// `Local::now` and `DateTime::timestamp_millis`: the milliseconds since the
/// Unix epoch at the moment of the call. Nothing is known of the result.
#[verifier::external_body]
pub(crate) fn now_millis() -> i64 {
    chrono::Local::now().timestamp_millis()
}

/// `DateTime::parse_from_rfc3339` and `DateTime::timestamp`: the result is a
/// function of the text alone.
#[verifier::external_body]
pub(crate) fn parse_rfc3339(text: &str) -> (r: Option<i64>)
    ensures
        r == rfc3339_seconds(text@),
{
    chrono::DateTime::parse_from_rfc3339(text).ok().map(|d| d.timestamp())
}

/// `DateTime::from_timestamp_millis` and `DateTime::timestamp`: nothing
/// where the instant is out of range, and otherwise the whole seconds below
/// it.
#[verifier::external_body]
pub(crate) fn seconds_of_millis(millis: i64) -> (r: Option<i64>)
    ensures
        r == if millis_in_range(millis) {
            Some((millis / 1000) as i64)
        } else {
            None
        },
{
    chrono::DateTime::from_timestamp_millis(millis).map(|d| d.timestamp())
}

} // verus!
