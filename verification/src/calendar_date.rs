//! Proleptic Gregorian calendar dates as plain values, with the month and
//! day arithmetic that the calendar views and date pickers use.
//!
//! The calendar itself is `chrono`'s: validity, the day before and after a
//! date, whole-day offsets and weekdays all come from `chrono::NaiveDate`
//! through the small trusted wrappers at the end of this file.

use chrono::Datelike;
use vstd::prelude::*;

verus! {

/// Earliest year that `chrono::NaiveDate` represents.
pub const MIN_YEAR: i32 = -262143;

/// Latest year that `chrono::NaiveDate` represents.
pub const MAX_YEAR: i32 = 262142;

/// Gregorian leap-year rule (year 0 is a leap year).
pub open spec fn is_leap_year(y: int) -> bool {
    (y % 4 == 0 && y % 100 != 0) || y % 400 == 0
}

/// Number of days of month `m` (1..=12) in year `y`.
pub open spec fn month_length(y: int, m: int) -> int {
    if m == 2 {
        if is_leap_year(y) { 29 } else { 28 }
    } else if m == 4 || m == 6 || m == 9 || m == 11 {
        30
    } else {
        31
    }
}

/// A year that `chrono` can hold.
pub open spec fn year_in_range(y: int) -> bool {
    MIN_YEAR <= y <= MAX_YEAR
}

/// `(y, m, d)` names an existing, representable calendar day.
pub open spec fn is_valid_ymd(y: int, m: int, d: int) -> bool {
    year_in_range(y) && 1 <= m <= 12 && 1 <= d <= month_length(y, m)
}

/// A calendar date (year, month 1..=12, day of month).
#[derive(Debug, Clone, Copy, PartialEq, Eq, Hash, Structural)]
pub struct CalDate {
    pub year: i32,
    pub month: u32,
    pub day: u32,
}

/// A wall-clock time of day (no leap seconds).
#[derive(Debug, Clone, Copy, PartialEq, Eq, Hash, Structural)]
pub struct TimeOfDay {
    pub hour: u32,
    pub minute: u32,
    pub second: u32,
}

pub open spec fn mk_date(y: int, m: int, d: int) -> CalDate {
    CalDate { year: y as i32, month: m as u32, day: d as u32 }
}

impl CalDate {
    /// The date exists in the calendar and in `chrono`'s range.
    pub open spec fn wf(self) -> bool {
        is_valid_ymd(self.year as int, self.month as int, self.day as int)
    }

    /// Lexicographic (chronological) order on well-formed dates.
    pub open spec fn before(self, other: CalDate) -> bool {
        self.year < other.year || (self.year == other.year && (self.month < other.month || (
        self.month == other.month && self.day < other.day)))
    }

    /// Builds a date when `(year, month, day)` exists, as
    /// `NaiveDate::from_ymd_opt` does.
    pub fn from_ymd_opt(year: i32, month: u32, day: u32) -> (r: Option<CalDate>)
        ensures
            r == (if is_valid_ymd(year as int, month as int, day as int) {
                Some(CalDate { year, month, day })
            } else {
                None
            }),
    {
        chrono_from_ymd(year, month, day)
    }

    /// Strictly earlier than `other`.
    pub fn is_before(&self, other: &CalDate) -> (r: bool)
        ensures
            r == self.before(*other),
    {
        self.year < other.year || (self.year == other.year && (self.month < other.month || (
        self.month == other.month && self.day < other.day)))
    }
}

impl TimeOfDay {
    /// Hour, minute and second are in range, as `NaiveTime::from_hms_opt` requires.
    pub open spec fn wf(self) -> bool {
        self.hour < 24 && self.minute < 60 && self.second < 60
    }

    /// Seconds since midnight.
    pub open spec fn seconds(self) -> int {
        self.hour * 3600 + self.minute * 60 + self.second
    }

    /// Builds a time of day when the parts are in range.
    pub fn from_hms_opt(hour: u32, minute: u32, second: u32) -> (r: Option<TimeOfDay>)
        ensures
            r == (if hour < 24 && minute < 60 && second < 60 {
                Some(TimeOfDay { hour, minute, second })
            } else {
                None
            }),
    {
        if hour < 24 && minute < 60 && second < 60 {
            Some(TimeOfDay { hour, minute, second })
        } else {
            None
        }
    }
}

/// The calendar day before `d`, if it is representable.
pub open spec fn spec_pred(d: CalDate) -> Option<CalDate> {
    if d.day > 1 {
        Some(CalDate { year: d.year, month: d.month, day: (d.day - 1) as u32 })
    } else if d.month > 1 {
        Some(mk_date(d.year as int, d.month - 1, month_length(d.year as int, d.month - 1)))
    } else if d.year > MIN_YEAR {
        Some(mk_date(d.year - 1, 12, 31))
    } else {
        None
    }
}

/// The calendar day after `d`, if it is representable.
pub open spec fn spec_succ(d: CalDate) -> Option<CalDate> {
    if d.day < month_length(d.year as int, d.month as int) {
        Some(CalDate { year: d.year, month: d.month, day: (d.day + 1) as u32 })
    } else if d.month < 12 {
        Some(mk_date(d.year as int, d.month + 1, 1))
    } else if d.year < MAX_YEAR {
        Some(mk_date(d.year + 1, 1, 1))
    } else {
        None
    }
}

/// The date `n` days after `d` (before it when `n` is negative).
pub open spec fn spec_add_days(d: CalDate, n: int) -> Option<CalDate>
    decreases (if n < 0 { -n } else { n }),
{
    if n == 0 {
        Some(d)
    } else if n > 0 {
        match spec_succ(d) {
            Some(e) => spec_add_days(e, n - 1),
            None => None,
        }
    } else {
        match spec_pred(d) {
            Some(e) => spec_add_days(e, n + 1),
            None => None,
        }
    }
}

/// A whole-day offset of a real date is a real date.
pub proof fn lemma_add_days_wf(d: CalDate, n: int)
    requires
        d.wf(),
        spec_add_days(d, n) is Some,
    ensures
        spec_add_days(d, n)->Some_0.wf(),
    decreases (if n < 0 { -n } else { n }),
{
    if n > 0 {
        lemma_add_days_wf(spec_succ(d)->Some_0, n - 1);
    } else if n < 0 {
        lemma_add_days_wf(spec_pred(d)->Some_0, n + 1);
    }
}

/// Going forward `k` days and then one more is going forward `k + 1`.
pub proof fn lemma_add_days_step(s: CalDate, k: nat)
    requires
        s.wf(),
        spec_add_days(s, k as int) is Some,
    ensures
        spec_add_days(s, (k + 1) as int) == spec_add_days(spec_add_days(s, k as int)->Some_0, 1),
    decreases k,
{
    if k > 0 {
        let s1 = spec_succ(s)->Some_0;
        assert(spec_add_days(s, k as int) == spec_add_days(s1, (k - 1) as int));
        lemma_add_days_step(s1, (k - 1) as nat);
        assert(spec_add_days(s, (k + 1) as int) == spec_add_days(s1, k as int));
    } else {
        match spec_succ(s) {
            Some(x) => {
                assert(spec_add_days(x, 0) == Some(x));
            },
            None => {},
        }
    }
}

/// When a date `k` days ahead exists, so do all the dates before it.
pub proof fn lemma_add_days_prefix(s: CalDate, k: nat, j: nat)
    requires
        s.wf(),
        j <= k,
        spec_add_days(s, k as int) is Some,
    ensures
        spec_add_days(s, j as int) is Some,
    decreases k,
{
    if j > 0 {
        let s1 = spec_succ(s)->Some_0;
        assert(spec_add_days(s, k as int) == spec_add_days(s1, (k - 1) as int));
        assert(spec_add_days(s, j as int) == spec_add_days(s1, (j - 1) as int));
        lemma_add_days_prefix(s1, (k - 1) as nat, (j - 1) as nat);
    }
}

/// Days of month `m` as the date pickers compute it: the day before the
/// first of the following month, or 30 when that date is out of range.
pub open spec fn spec_days_in_month(y: int, m: int) -> int {
    if MIN_YEAR <= y && (if m == 12 { y + 1 } else { y }) <= MAX_YEAR {
        month_length(y, m)
    } else {
        30
    }
}

/// `total` months counted from January of year 0, split into a date.
pub open spec fn month_total(d: CalDate, delta: int) -> int {
    d.year * 12 + (d.month - 1) + delta
}

/// Month shift of the date pickers: same day, clamped to the target month;
/// the date itself when the target is out of range.
pub open spec fn spec_shift_month(d: CalDate, delta: int) -> CalDate {
    let total = month_total(d, delta);
    let ny = total / 12;
    let nm = total % 12 + 1;
    let day = if d.day <= spec_days_in_month(ny, nm) {
        d.day as int
    } else {
        spec_days_in_month(ny, nm)
    };
    if is_valid_ymd(ny, nm, day) {
        mk_date(ny, nm, day)
    } else {
        d
    }
}

/// The month shift of view navigation is defined (its target month and the
/// month after it are representable, and the arithmetic fits in `i32`).
pub open spec fn month_shift_defined(d: CalDate, delta: int) -> bool {
    let total = month_total(d, delta);
    let ny = total / 12;
    let nm = total % 12 + 1;
    &&& i32::MIN <= total <= i32::MAX
    &&& MIN_YEAR <= ny
    &&& (if nm == 12 { ny + 1 } else { ny }) <= MAX_YEAR
}

/// Month shift of view navigation: same day, clamped to the last day of the
/// target month.
pub open spec fn spec_shift_month_preserving_day(d: CalDate, delta: int) -> CalDate {
    let total = month_total(d, delta);
    let ny = total / 12;
    let nm = total % 12 + 1;
    let ml = month_length(ny, nm);
    mk_date(ny, nm, if d.day <= ml { d.day as int } else { ml })
}

/// Splits a month count into (year, month 1..=12), rounding toward negative
/// infinity as `div_euclid`/`rem_euclid` do.
fn split_month_total(total: i32) -> (r: (i32, u32))
    ensures
        r.0 == total / 12,
        r.1 == total % 12 + 1,
        1 <= r.1 <= 12,
{
    if total >= 0 {
        let t = total as u32;
        ((t / 12) as i32, t % 12 + 1)
    } else {
        let p: u32 = (-(total as i64) - 1) as u32;
        let q: i32 = -((p / 12) as i32) - 1;
        let rem: u32 = 11 - p % 12;
        assert(total == q * 12 + rem as int) by {
            assert(p == (p / 12) * 12 + p % 12);
        }
        assert(total / 12 == q && total % 12 == rem as int) by {
            vstd::arithmetic::div_mod::lemma_fundamental_div_mod_converse(
                total as int,
                12,
                q as int,
                rem as int,
            );
        }
        (q, rem + 1)
    }
}

/// Number of days in `month` of `year`, computed from the day before the
/// first of the following month; 30 when that date cannot be formed.
pub fn days_in_month(year: i32, month: u32) -> (r: u32)
    requires
        1 <= month <= 12,
    ensures
        r == spec_days_in_month(year as int, month as int),
{
    let (next_year, next_month) = if month == 12 {
        if year == i32::MAX {
            return 30;
        }
        (year + 1, 1u32)
    } else {
        (year, month + 1)
    };
    match chrono_from_ymd(next_year, next_month, 1) {
        Some(first) => match chrono_pred(first) {
            Some(last) => last.day,
            None => 30,
        },
        None => 30,
    }
}

/// Last day of `month` in `year`; both that month and the following one must
/// be representable.
pub fn last_day_of_month(year: i32, month: u32) -> (r: u32)
    requires
        1 <= month <= 12,
        MIN_YEAR <= year,
        (if month == 12 { year + 1 } else { year as int }) <= MAX_YEAR,
    ensures
        r == month_length(year as int, month as int),
{
    days_in_month(year, month)
}

/// The date `(year, month, desired_day)` with the day clamped to the month.
pub fn clamp_day(year: i32, month: u32, desired_day: u32) -> (r: CalDate)
    requires
        1 <= month <= 12,
        MIN_YEAR <= year,
        (if month == 12 { year + 1 } else { year as int }) <= MAX_YEAR,
        1 <= desired_day,
    ensures
        r == mk_date(
            year as int,
            month as int,
            if desired_day <= month_length(year as int, month as int) {
                desired_day as int
            } else {
                month_length(year as int, month as int)
            },
        ),
        r.wf(),
{
    let max_day = last_day_of_month(year, month);
    let day = if desired_day < max_day {
        desired_day
    } else {
        max_day
    };
    match chrono_from_ymd(year, month, day) {
        Some(d) => d,
        None => {
            assert(false);
            CalDate { year, month, day: max_day }
        },
    }
}

/// Shift `date` by `delta` months keeping the day of month, clamped to the
/// target month (the date picker variant: the date is kept when the target
/// cannot be formed).
pub fn shift_month(date: CalDate, delta: i32) -> (r: CalDate)
    requires
        date.wf(),
        i32::MIN <= month_total(date, delta as int) <= i32::MAX,
    ensures
        r == spec_shift_month(date, delta as int),
{
    let total: i32 = date.year * 12 + (date.month as i32 - 1) + delta;
    let (new_year, new_month) = split_month_total(total);
    let max_day = days_in_month(new_year, new_month);
    let day = if date.day < max_day {
        date.day
    } else {
        max_day
    };
    match CalDate::from_ymd_opt(new_year, new_month, day) {
        Some(d) => d,
        None => date,
    }
}

/// Shift `date` by `delta` months keeping the day of month, clamped to the
/// last day of the target month (the view navigation variant).
pub fn shift_month_preserving_day(date: CalDate, delta: i32) -> (r: CalDate)
    requires
        date.wf(),
        month_shift_defined(date, delta as int),
    ensures
        r == spec_shift_month_preserving_day(date, delta as int),
        r.wf(),
{
    let total: i32 = date.year * 12 + (date.month as i32 - 1) + delta;
    let (new_year, new_month) = split_month_total(total);
    clamp_day(new_year, new_month, date.day)
}

/// The date `days` days after `date` (before it for negative `days`);
/// `None` when it leaves the representable range.
pub fn add_days(date: CalDate, days: i64) -> (r: Option<CalDate>)
    requires
        date.wf(),
        -106_751_991_167 <= days <= 106_751_991_167,
    ensures
        r == spec_add_days(date, days as int),
{
    chrono_add_days(date, days)
}

/// Days from 1970-01-01 to the date (negative before it), in the
/// proleptic Gregorian calendar: whole 400-year eras of 146097 days, then
/// the years of the era counted from March, then the day of that year.
pub open spec fn day_number(year: int, month: int, day: int) -> int {
    let y = if month <= 2 { year - 1 } else { year };
    let era = y / 400;
    let yoe = y - era * 400;
    let mp = (month + 9) % 12;
    let doy = (153 * mp + 2) / 5 + day - 1;
    let doe = yoe * 365 + yoe / 4 - yoe / 100 + doy;
    era * 146097 + doe - 719468
}

/// Every date of `chrono`'s range lies within a hundred million days of
/// 1970-01-01.
pub proof fn lemma_day_number_bounds(year: int, month: int, day: int)
    requires
        MIN_YEAR <= year <= MAX_YEAR,
        1 <= month <= 12,
        1 <= day <= 31,
    ensures
        -100_000_000 <= day_number(year, month, day) <= 100_000_000,
{
    let y = if month <= 2 { year - 1 } else { year };
    let era = y / 400;
    let yoe = y - era * 400;
    let mp = (month + 9) % 12;
    let doy = (153 * mp + 2) / 5 + day - 1;
    assert(-657 <= era <= 656 && 0 <= yoe < 400) by (nonlinear_arith)
        requires
            -262144 <= y <= 262142,
            era == y / 400,
            yoe == y - era * 400,
    ;
    assert(0 <= mp < 12);
    assert(0 <= doy <= 400);
    let doe = yoe * 365 + yoe / 4 - yoe / 100 + doy;
    assert(0 <= doe <= 146500) by (nonlinear_arith)
        requires
            0 <= yoe < 400,
            0 <= doy <= 400,
            doe == yoe * 365 + yoe / 4 - yoe / 100 + doy,
    ;
    assert(-100_000_000 <= era * 146097 + doe - 719468 <= 100_000_000) by (nonlinear_arith)
        requires
            -657 <= era <= 656,
            0 <= doe <= 146500,
    ;
}

/// Weekday of a date counted from Sunday (0) to Saturday (6):
/// 1970-01-01 was a Thursday.
pub open spec fn weekday_from_sunday(year: int, month: int, day: int) -> int {
    (day_number(year, month, day) + 4) % 7
}

/// Day of the week of `date`, Sunday = 0.
pub fn weekday_index(date: CalDate) -> (r: u32)
    requires
        date.wf(),
    ensures
        r < 7,
        r == weekday_from_sunday(date.year as int, date.month as int, date.day as int),
{
    chrono_weekday_from_sunday(date)
}

/// Builds a date through `NaiveDate::from_ymd_opt` and reads it back.
///
/// Trusted: `chrono` returns a date exactly when the year is within its
/// range, the month is 1..=12 and the day exists in that month of the
/// proleptic Gregorian calendar, and the date reads back as the same
/// year, month and day.
#[verifier::external_body]
fn chrono_from_ymd(year: i32, month: u32, day: u32) -> (r: Option<CalDate>)
    ensures
        r == (if is_valid_ymd(year as int, month as int, day as int) {
            Some(CalDate { year, month, day })
        } else {
            None
        }),
{
    match chrono::NaiveDate::from_ymd_opt(year, month, day) {
        Some(d) => Some(CalDate { year: d.year(), month: d.month(), day: d.day() }),
        None => None,
    }
}

/// The day before a date, through `NaiveDate::pred_opt`.
///
/// Trusted: `pred_opt` gives the previous calendar day, or `None` on the
/// first representable date.
#[verifier::external_body]
fn chrono_pred(date: CalDate) -> (r: Option<CalDate>)
    requires
        date.wf(),
    ensures
        r == spec_pred(date),
{
    let d = chrono::NaiveDate::from_ymd_opt(date.year, date.month, date.day).unwrap();
    match d.pred_opt() {
        Some(p) => Some(CalDate { year: p.year(), month: p.month(), day: p.day() }),
        None => None,
    }
}

/// A whole-day offset, through `NaiveDate::checked_add_signed` with
/// `TimeDelta::days`.
///
/// Trusted: the result is the date that many calendar days later (earlier
/// for a negative count), or `None` when it leaves the representable range;
/// the count is one that `TimeDelta::days` takes without panicking
/// (`days * 86400` within its bound of `i64::MAX` milliseconds).
#[verifier::external_body]
fn chrono_add_days(date: CalDate, days: i64) -> (r: Option<CalDate>)
    requires
        date.wf(),
        -106_751_991_167 <= days <= 106_751_991_167,
    ensures
        r == spec_add_days(date, days as int),
{
    let d = chrono::NaiveDate::from_ymd_opt(date.year, date.month, date.day).unwrap();
    match d.checked_add_signed(chrono::TimeDelta::days(days)) {
        Some(p) => Some(CalDate { year: p.year(), month: p.month(), day: p.day() }),
        None => None,
    }
}

/// Weekday through `Datelike::weekday` and `Weekday::num_days_from_sunday`.
///
/// Trusted: the value is `chrono`'s weekday of the date, Sunday = 0: the
/// proleptic Gregorian weekday, counted from the Thursday 1970-01-01.
#[verifier::external_body]
fn chrono_weekday_from_sunday(date: CalDate) -> (r: u32)
    requires
        date.wf(),
    ensures
        r < 7,
        r == weekday_from_sunday(date.year as int, date.month as int, date.day as int),
{
    let d = chrono::NaiveDate::from_ymd_opt(date.year, date.month, date.day).unwrap();
    d.weekday().num_days_from_sunday()
}

} // verus!
