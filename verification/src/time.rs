//! Timestamps.
//!
//! The protocol exchanges instants as RFC 3339 text; this crate holds them
//! as whole seconds since the Unix epoch. Reading and writing the text, and
//! the clock, are chrono's work.

use vstd::prelude::*;

verus! {

/// The RFC 3339 text of an instant given as whole seconds since the epoch,
/// with a `Z` offset and no fractional digits.
pub uninterp spec fn rfc3339_of_seconds(ts: i64) -> Seq<char>;

/// The instant an RFC 3339 text denotes, in whole seconds since the epoch;
/// nothing for text that is no RFC 3339 timestamp.
pub uninterp spec fn seconds_of_rfc3339(s: Seq<char>) -> Option<i64>;

/// Relies on chrono's `DateTime::from_timestamp` and `to_rfc3339_opts`
/// (seconds precision, `Z` offset): the text depends on the seconds value
/// alone. For the few seconds values whose instant chrono cannot represent
/// (more than about 262000 years away) the text is empty.
#[verifier::external_body]
pub fn format_rfc3339_seconds(ts: i64) -> (r: String)
    ensures
        r@ == rfc3339_of_seconds(ts),
{
    match chrono::DateTime::<chrono::Utc>::from_timestamp(ts, 0) {
        Some(d) => d.to_rfc3339_opts(chrono::SecondsFormat::Secs, true),
        None => String::new(),
    }
}

/// Relies on chrono's `DateTime::parse_from_rfc3339` and `timestamp`: the
/// result depends on the text alone.
#[verifier::external_body]
pub fn parse_rfc3339_seconds(s: &str) -> (r: Option<i64>)
    ensures
        r == seconds_of_rfc3339(s@),
{
    match chrono::DateTime::parse_from_rfc3339(s) {
        Ok(d) => Some(d.timestamp()),
        Err(_) => None,
    }
}

/// Relies on chrono's `Utc::now`: the clock. Nothing holds of the value it
/// returns.
#[verifier::external_body]
pub fn now_epoch_seconds() -> i64 {
    chrono::Utc::now().timestamp()
}

} // verus!
