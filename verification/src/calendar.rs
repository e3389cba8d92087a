//! UTC calendar facts the dashboard needs, and the calls into `chrono` that
//! provide the ones that are not simple arithmetic.

use chrono::Datelike;
use vstd::prelude::*;

verus! {

pub const SECONDS_PER_DAY: i64 = 86400;

/// Start (00:00:00 UTC) of the day containing `ts`.
pub open spec fn day_start(ts: int) -> int {
    ts - ts % 86400
}

/// Days since the last Monday for the UTC day containing `ts`
/// (1970-01-01 was a Thursday, three days after a Monday).
pub open spec fn days_since_monday(ts: int) -> int {
    (ts / 86400 + 3) % 7
}

/// Start of the UTC day containing `ts`, as `chrono` computes it for
/// `date_naive().and_hms(0, 0, 0)`.
pub fn utc_day_start(ts: i64) -> (r: i64)
    requires
        ts >= i64::MIN + 86400,
    ensures
        r == day_start(ts as int),
        r <= ts < r + 86400,
{
    let m: i64 = ts % SECONDS_PER_DAY;
    let m: i64 = if m < 0 {
        m + SECONDS_PER_DAY
    } else {
        m
    };
    assert(m == ts as int % 86400);
    ts - m
}

/// Weekday index of the UTC day containing `ts`, Monday being 0.
pub fn utc_days_since_monday(ts: i64) -> (r: i64)
    requires
        ts >= i64::MIN + 86400,
    ensures
        r == days_since_monday(ts as int),
        0 <= r < 7,
{
    let s: i64 = utc_day_start(ts);
    let day: i64 = s / SECONDS_PER_DAY;
    assert(s == 86400 * (ts as int / 86400));
    assert(day == ts as int / 86400);
    let m: i64 = (day + 3) % 7;
    let m: i64 = if m < 0 {
        m + 7
    } else {
        m
    };
    assert(m == (ts as int / 86400 + 3) % 7);
    m
}

/// The current time in seconds since the Unix epoch (`chrono::Utc::now`
/// followed by `timestamp`). It depends on the clock, so nothing is claimed
/// about its value.
#[verifier::external_body]
pub(crate) fn unix_now() -> (r: i64) {
    chrono::Utc::now().timestamp()
}

/// Year and month (1 to 12) of the UTC instant `ts`, or nothing where `ts`
/// is outside the range of `chrono` dates.
pub uninterp spec fn utc_year_month_of(ts: i64) -> Option<(i32, u32)>;

/// The month before `month` of `year`: December of the year before for
/// January.
pub open spec fn previous_month(year: i32, month: u32) -> (i32, u32) {
    if month == 1 {
        ((year - 1) as i32, 12)
    } else {
        (year, (month - 1) as u32)
    }
}

/// What the Gregorian calendar that chrono implements gives for the month
/// `(year, month)` that contains `ts`: its first midnight exists, lies at or
/// before `ts`, and less than 31 days before it; and the month before, where
/// chrono has it, started 28 to 31 days earlier.
pub open spec fn month_of_instant(ts: i64, year: i32, month: u32) -> bool {
    match month_start_of(year, month) {
        None => false,
        Some(f) => {
            &&& f <= ts < f + 31 * 86400
            &&& match month_start_of(previous_month(year, month).0, previous_month(year, month).1) {
                None => true,
                Some(p) => f - 31 * 86400 <= p && p + 28 * 86400 <= f,
            }
        },
    }
}

/// `chrono::DateTime::from_timestamp(ts, 0)` with `year()` and `month()` of
/// the result. Claimed: the result is `utc_year_month_of(ts)`; a month is in
/// 1..=12 and a year in chrono's range (-262143..=262142); `from_timestamp`
/// yields nothing for instants more than 10^13 seconds from the epoch, which
/// lie beyond that year range; the month found contains `ts` as
/// `month_of_instant` describes (a month is 28 to 31 days long); and every
/// instant within 8 * 10^12 seconds of the epoch (about 253,500 years) has a
/// date, whose year lies within 260,000 of year 0.
#[verifier::external_body]
pub(crate) fn utc_year_month(ts: i64) -> (r: Option<(i32, u32)>)
    ensures
        r == utc_year_month_of(ts),
        r is Some ==> -10_000_000_000_000 <= ts <= 10_000_000_000_000,
        r matches Some(ym) ==> 1 <= ym.1 <= 12 && -262_143 <= ym.0 <= 262_142,
        r matches Some(ym) ==> month_of_instant(ts, ym.0, ym.1),
        r is None ==> !(-8_000_000_000_000 <= ts <= 8_000_000_000_000),
        r matches Some(ym) ==> (-8_000_000_000_000 <= ts <= 8_000_000_000_000 ==> -260_000 <= ym.0 <= 260_000),
{
    chrono::DateTime::from_timestamp(ts, 0).map(|dt| (dt.year(), dt.month()))
}

/// Timestamp of 00:00:00 UTC on the first day of `month` in `year`, or nothing
/// where that date does not exist.
pub uninterp spec fn month_start_of(year: i32, month: u32) -> Option<i64>;

/// `chrono::NaiveDate::from_ymd_opt(year, month, 1)` at midnight, as a UTC
/// timestamp. Claimed: the result is `month_start_of(year, month)`; it is
/// nothing for a month outside 1..=12, as `from_ymd_opt` documents; a date
/// that exists lies within 10^13 seconds of the epoch; a UTC midnight is a
/// whole number of days from the epoch; and the first of every month of a
/// year within chrono's range (-262143..=262142) exists.
#[verifier::external_body]
pub(crate) fn utc_month_start(year: i32, month: u32) -> (r: Option<i64>)
    ensures
        r == month_start_of(year, month),
        r is Some ==> 1 <= month <= 12,
        r matches Some(t) ==> -10_000_000_000_000 <= t <= 10_000_000_000_000,
        r matches Some(t) ==> t % 86400 == 0,
        r is None ==> !(1 <= month <= 12 && -262_000 <= year <= 262_000),
{
    chrono::NaiveDate::from_ymd_opt(year, month, 1).map(
        |d| d.and_hms_opt(0, 0, 0).unwrap().and_utc().timestamp(),
    )
}

/// The `%Y-%m-%d` rendering of the UTC date of `ts`, or the empty string where
/// `ts` is outside the range of `chrono` dates.
pub uninterp spec fn utc_date_text_of(ts: i64) -> Seq<char>;

/// `chrono::DateTime::from_timestamp(ts, 0)` formatted with `%Y-%m-%d`, or an
/// empty string when there is no such date. Claimed: the result is
/// `utc_date_text_of(ts)`.
#[verifier::external_body]
pub(crate) fn utc_date_text(ts: i64) -> (r: String)
    ensures
        r@ == utc_date_text_of(ts),
{
    chrono::DateTime::from_timestamp(ts, 0).map(|dt| dt.format("%Y-%m-%d").to_string()).unwrap_or_default()
}

/// Timestamp of 00:00:00 UTC on the date that `text` names in the
/// `%Y-%m-%d` form, or nothing where `text` does not parse as such a date.
pub uninterp spec fn date_midnight_of(text: Seq<char>) -> Option<i64>;

/// `chrono::NaiveDate::parse_from_str(text, "%Y-%m-%d")` at midnight, as a
/// UTC timestamp. Claimed: the result is `date_midnight_of(text)`, and a UTC
/// midnight is a whole number of days from the epoch; what chrono accepts as
/// such a date is left to chrono.
#[verifier::external_body]
pub(crate) fn utc_date_midnight(text: &str) -> (r: Option<i64>)
    ensures
        r == date_midnight_of(text@),
        r matches Some(t) ==> t % 86400 == 0,
{
    chrono::NaiveDate::parse_from_str(text, "%Y-%m-%d").ok().map(
        |d| d.and_hms_opt(0, 0, 0).unwrap().and_utc().timestamp(),
    )
}

} // verus!
