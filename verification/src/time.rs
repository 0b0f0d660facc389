//! The two clock-and-calendar facts the pipeline needs from chrono: which UTC
//! calendar day an RFC 3339 timestamp falls on, and which day it is now.
//! Days are counted as chrono counts them: day 1 is the first day of the
//! common era, so the count orders dates exactly as the calendar does.

use vstd::prelude::*;

verus! {

/// The UTC calendar day that the RFC 3339 date-time `s` falls on, as a count
/// of days from the common era, or `None` where `s` is not a valid RFC 3339
/// date-time. The value depends on the characters of `s` alone.
pub uninterp spec fn rfc3339_utc_day(s: Seq<char>) -> Option<i32>;

/// Relies on chrono's `DateTime::parse_from_rfc3339`,
/// `DateTime::with_timezone`, `DateTime::date_naive` and
/// `Datelike::num_days_from_ce`: parsing an RFC 3339 date-time and taking the
/// day number of its UTC calendar date depend on the input characters alone,
/// and the parse fails exactly on strings that are not valid RFC 3339.
#[verifier::external_body]
pub(crate) fn parse_rfc3339_day(s: &str) -> (r: Option<i32>)
    ensures
        r == rfc3339_utc_day(s@),
{
    match chrono::DateTime::parse_from_rfc3339(s) {
        Ok(dt) => Some(chrono::Datelike::num_days_from_ce(
            &dt.with_timezone(&chrono::Utc).date_naive(),
        )),
        Err(_) => None,
    }
}

/// Relies on chrono's `Utc::now`, `DateTime::date_naive` and
/// `Datelike::num_days_from_ce`. The result is the day number of the current
/// UTC date; nothing is promised of it, since it depends on the clock.
#[verifier::external_body]
pub(crate) fn today_utc_day() -> i32 {
    chrono::Datelike::num_days_from_ce(&chrono::Utc::now().date_naive())
}

} // verus!
