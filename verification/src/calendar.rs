//! Dates and instants, read and written with `chrono`.
//!
//! The functions marked `external_body` are the only places where `chrono`
//! is called. Their contracts are believed, not proved: each says that the
//! call's result is a fixed function of its arguments, and names it.

use vstd::prelude::*;
use vstd::string::*;

verus! {

/// The instant that `DateTime::parse_from_rfc3339` reads from a text, as the
/// seconds since the epoch (`timestamp`) and the nanoseconds past the second
/// (`timestamp_subsec_nanos`); `None` where it reports an error.
pub uninterp spec fn rfc3339_instant(text: Seq<char>) -> Option<(int, int)>;

/// The calendar date, written as year-month-day, of the instant that
/// `DateTime::from_timestamp` makes of `secs` seconds; `None` where it makes
/// none.
pub uninterp spec fn calendar_date(secs: int) -> Option<Seq<char>>;

/// The month, from 1 to 12, of the instant that `DateTime::from_timestamp`
/// makes of `secs` seconds; `None` where it makes none.
pub uninterp spec fn calendar_month(secs: int) -> Option<int>;

/// Calls `DateTime::parse_from_rfc3339` and takes the instant's `timestamp`
/// and `timestamp_subsec_nanos`. The result is `rfc3339_instant` of the
/// text.
#[verifier::external_body]
pub(crate) fn parse_rfc3339(text: &str) -> (r: Option<(i64, u32)>)
    ensures
        r matches Some(t) ==> rfc3339_instant(text@) == Some((t.0 as int, t.1 as int)),
        r is None ==> rfc3339_instant(text@) is None,
{
    match chrono::DateTime::parse_from_rfc3339(text) {
        Ok(t) => Some((t.timestamp(), t.timestamp_subsec_nanos())),
        Err(_) => None,
    }
}

/// Calls `DateTime::from_timestamp` and writes the date with
/// `DateTime::format` and the pattern `%Y-%m-%d`. The result is
/// `calendar_date` of the seconds.
#[verifier::external_body]
pub(crate) fn write_date(secs: i64) -> (r: Option<String>)
    ensures
        r matches Some(s) ==> calendar_date(secs as int) == Some(s@),
        r is None ==> calendar_date(secs as int) is None,
{
    match chrono::DateTime::from_timestamp(secs, 0) {
        Some(t) => Some(t.format("%Y-%m-%d").to_string()),
        None => None,
    }
}

/// Calls `DateTime::from_timestamp` and `Datelike::month`. The result is
/// `calendar_month` of the seconds.
#[verifier::external_body]
pub(crate) fn month_of(secs: i64) -> (r: Option<u32>)
    ensures
        r matches Some(m) ==> calendar_month(secs as int) == Some(m as int),
        r is None ==> calendar_month(secs as int) is None,
{
    match chrono::DateTime::from_timestamp(secs, 0) {
        Some(t) => Some(chrono::Datelike::month(&t)),
        None => None,
    }
}

} // verus!
