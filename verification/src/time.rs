//! Calendar computations, done by `chrono`.

use vstd::prelude::*;
use chrono::{Datelike, TimeZone};

verus! {

/// The UNIX time (seconds) of a `YYYY-MM-DDTHH:MM:SS` date-time read as UTC,
/// as `chrono::NaiveDateTime::parse_from_str` reads it; `None` when it does
/// not read it.
pub uninterp spec fn naive_iso_seconds(s: Seq<char>) -> Option<i64>;

/// `chrono::NaiveDateTime::parse_from_str` with the format
/// `%Y-%m-%dT%H:%M:%S`, the result taken as UTC and given as a UNIX
/// timestamp. Claimed: the result is a function of the text alone, named
/// `naive_iso_seconds`.
#[verifier::external_body]
pub(crate) fn iso_to_unix(ts: &str) -> (r: Option<i64>)
    ensures
        r == naive_iso_seconds(ts@),
{
    match chrono::NaiveDateTime::parse_from_str(ts, "%Y-%m-%dT%H:%M:%S") {
        Ok(d) => Some(d.and_utc().timestamp()),
        Err(_) => None,
    }
}

/// The RFC 3339 text `chrono` writes for a UNIX time (seconds) in UTC.
pub uninterp spec fn rfc3339_utc(secs: i64) -> Seq<char>;

/// `chrono::TimeZone::timestamp_opt` on `Utc`, then `DateTime::to_rfc3339`.
/// Claimed: for times from the epoch to the year 2554 (all that an unsigned
/// 64-bit nanosecond count reaches) the date-time exists, so the call does
/// not panic, and the text is a function of the time alone.
#[verifier::external_body]
pub(crate) fn unix_to_rfc3339(secs: i64) -> (r: String)
    requires
        0 <= secs <= 18_446_744_073,
    ensures
        r@ == rfc3339_utc(secs),
{
    chrono::Utc.timestamp_opt(secs, 0).unwrap().to_rfc3339()
}

/// Year, month and day of a UNIX time (seconds) in UTC, as `chrono` computes them.
pub uninterp spec fn utc_civil_date(secs: i64) -> (i32, u32, u32);

/// `chrono::DateTime::from_timestamp`, then `year`, `month` and `day`.
/// Claimed: from the first second of the year -262143 to the last of the
/// year 262142 (the dates `chrono` represents) the date exists, so the call
/// does not panic; the result is a function of the time alone, with a month
/// from 1 to 12 and a day from 1 to 31 (as `chrono` documents them).
#[verifier::external_body]
pub(crate) fn civil_date(secs: i64) -> (r: (i32, u32, u32))
    requires
        -8_334_601_315_200 <= secs <= 8_210_266_876_799,
    ensures
        r == utc_civil_date(secs),
        1 <= r.1 <= 12,
        1 <= r.2 <= 31,
{
    let d = chrono::DateTime::from_timestamp(secs, 0).unwrap();
    (d.year(), d.month(), d.day())
}

} // verus!
