//! Calendar dates in UTC, as the document writes them.

use vstd::prelude::*;

verus! {

/// Month name, day, year, hour and minute, and the name of the time zone.
pub const MINUTE_PATTERN: &'static str = "%B %d, %Y, %H:%M %Z";

/// Month name, day, year, hour, minute and second, marked as UTC.
pub const SECOND_PATTERN: &'static str = "%B %d, %Y, %H:%M:%S UTC";

/// The patterns by which this library writes a date.
pub open spec fn is_date_pattern(pattern: Seq<char>) -> bool {
    pattern == MINUTE_PATTERN@ || pattern == SECOND_PATTERN@
}

/// The date and time in UTC that lie `millis` milliseconds after the start
/// of 1970, as chrono writes them by `pattern`; `None` where chrono has no
/// calendar date for them.
pub uninterp spec fn utc_text(millis: i64, pattern: Seq<char>) -> Option<Seq<char>>;

/// Calls `chrono::DateTime::from_timestamp_millis` and, where that gives a
/// date, `DateTime::format` with `pattern`. The date is `None` for a number
/// of milliseconds out of chrono's range. What is written depends on the
/// two arguments alone; the contract gives it a name and says no more.
#[verifier::external_body]
pub(crate) fn utc_millis_text(millis: i64, pattern: &str) -> (r: Option<String>)
    requires
        is_date_pattern(pattern@),
    ensures
        match r {
            Some(text) => utc_text(millis, pattern@) == Some(text@),
            None => utc_text(millis, pattern@) is None,
        },
{
    chrono::DateTime::from_timestamp_millis(millis).map(|date| date.format(pattern).to_string())
}

/// `text` is a date in UTC as `pattern` writes it: what `utc_text` gives for
/// some number of milliseconds.
pub open spec fn is_utc_date(text: Seq<char>, pattern: Seq<char>) -> bool {
    exists|millis: i64| utc_text(millis, pattern) == Some(text)
}

/// Calls `chrono::Utc::now` and `DateTime::format` with `pattern`. The
/// result is the time of the call. Which time that is, is not known here;
/// the contract says that it is written as a date of `utc_text` is.
/// `Utc::now` makes its value with `DateTime::from_timestamp` from the whole
/// seconds since 1970 and the nanoseconds below a second, and
/// `DateTime::from_timestamp_millis` makes the value for the same seconds
/// with the same function; the two patterns write month, day, year, hour,
/// minute, second and the name of the zone, and nothing below a second. On a
/// machine whose clock stands before 1970, `Utc::now` does not return.
#[verifier::external_body]
pub(crate) fn utc_now_text(pattern: &str) -> (r: String)
    requires
        is_date_pattern(pattern@),
    ensures
        is_utc_date(r@, pattern@),
{
    chrono::Utc::now().format(pattern).to_string()
}

} // verus!
