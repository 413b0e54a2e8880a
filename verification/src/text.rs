//! Trusted text renderings: UTF-8 decoding and calendar formatting.
//!
//! Each rendering is a pure function of its arguments; what it returns on
//! given values takes pages to state, so it is given a name (an
//! uninterpreted spec function) that the callers' contracts speak of.

use vstd::prelude::*;

verus! {

/// The UTF-8 decoding of a byte sequence: `Some` exactly on valid UTF-8.
pub uninterp spec fn utf8_decoded(bytes: Seq<u8>) -> Option<Seq<char>>;

/// The calendar date rendering (year-month-day) of a proleptic Gregorian day
/// number counted from the common era: `Some` exactly on the supported range.
pub uninterp spec fn civil_date_text(ce_days: int) -> Option<Seq<char>>;

/// The calendar date-time rendering, with a millisecond fraction truncated
/// from the nanosecond count, of a Unix second count: `Some` exactly on the
/// supported range.
pub uninterp spec fn civil_datetime_text(secs: int, nanos: int) -> Option<Seq<char>>;

/// Relies on std's `String::from_utf8`: returns the decoded string exactly
/// when the bytes are valid UTF-8. The result depends on the bytes alone.
#[verifier::external_body]
pub(crate) fn decode_utf8(bytes: &Vec<u8>) -> (r: Option<String>)
    ensures
        r is Some <==> utf8_decoded(bytes@) is Some,
        r matches Some(s) ==> Some(s@) == utf8_decoded(bytes@),
{
    String::from_utf8(bytes.clone()).ok()
}

/// Relies on chrono's `NaiveDate::from_num_days_from_ce_opt`, which returns
/// `None` exactly when the day number lies outside chrono's calendar range,
/// and on `NaiveDate::format` with `"%Y-%m-%d"`, which never fails for a
/// date. The rendering depends on the day number alone.
#[verifier::external_body]
pub(crate) fn render_ce_date(ce_days: i32) -> (r: Option<String>)
    ensures
        r is Some <==> civil_date_text(ce_days as int) is Some,
        r matches Some(s) ==> Some(s@) == civil_date_text(ce_days as int),
{
    chrono::NaiveDate::from_num_days_from_ce_opt(ce_days)
        .map(|d| d.format("%Y-%m-%d").to_string())
}

/// Relies on chrono's `DateTime::from_timestamp`, which returns `None`
/// exactly on an out-of-range second count or an invalid nanosecond count,
/// and on `NaiveDateTime::format` with `"%Y-%m-%d %H:%M:%S.%3f"`, which
/// renders a three-digit fraction truncated from the nanoseconds and never
/// fails for a date-time. The rendering depends on the two counts alone.
#[verifier::external_body]
pub(crate) fn render_timestamp(secs: i64, nanos: u32) -> (r: Option<String>)
    ensures
        r is Some <==> civil_datetime_text(secs as int, nanos as int) is Some,
        r matches Some(s) ==> Some(s@) == civil_datetime_text(secs as int, nanos as int),
{
    chrono::DateTime::from_timestamp(secs, nanos)
        .map(|t| t.naive_utc().format("%Y-%m-%d %H:%M:%S.%3f").to_string())
}

} // verus!
