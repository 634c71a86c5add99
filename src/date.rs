//! The Gregorian date that every rule of this library reads.
//!
//! A `CalendarDate` holds a year, a month and a day as plain integers. What
//! only a calendar library computes (whether a triple names a real day, its
//! day of the week, the day before or after it, the date one month on) comes
//! from `chrono`, through the trusted wrappers at the end of this module,
//! whose contracts restate what `chrono` documents.
use chrono::Datelike;
use vstd::prelude::*;

verus! {

/// The first year that `chrono::NaiveDate` can hold.
pub const MIN_YEAR: i32 = -262143;

/// The last year that `chrono::NaiveDate` can hold.
pub const MAX_YEAR: i32 = 262142;

/// A proleptic Gregorian leap year.
pub open spec fn is_leap_year(y: int) -> bool {
    (y % 4 == 0 && y % 100 != 0) || y % 400 == 0
}

/// The number of days in month `m` (1 to 12) of year `y`.
pub open spec fn days_in_month(y: int, m: int) -> int {
    if m == 2 {
        if is_leap_year(y) {
            29
        } else {
            28
        }
    } else if m == 4 || m == 6 || m == 9 || m == 11 {
        30
    } else {
        31
    }
}

/// `(y, m, d)` names a day that exists and that `chrono` can represent.
pub open spec fn is_valid_ymd(y: int, m: int, d: int) -> bool {
    &&& MIN_YEAR <= y <= MAX_YEAR
    &&& 1 <= m <= 12
    &&& 1 <= d <= days_in_month(y, m)
}

/// The days before January 1 of year `y`, counted from January 1 of year 1.
pub open spec fn days_before_year(y: int) -> int {
    365 * (y - 1) + (y - 1) / 4 - (y - 1) / 100 + (y - 1) / 400
}

/// The days of year `y` before the first of month `m`.
pub open spec fn days_before_month(y: int, m: int) -> int
    decreases m,
{
    if m <= 1 {
        0
    } else {
        days_before_month(y, m - 1) + days_in_month(y, m - 1)
    }
}

/// The day count of the proleptic Gregorian calendar, with January 1 of
/// year 1 as day 1.
pub open spec fn days_from_ce(y: int, m: int, d: int) -> int {
    days_before_year(y) + days_before_month(y, m) + d
}

/// The ISO day of the week: 1 for Monday up to 7 for Sunday. January 1 of
/// year 1 was a Monday.
pub open spec fn weekday_of(y: int, m: int, d: int) -> int {
    (days_from_ce(y, m, d) - 1) % 7 + 1
}

/// `(y1, m1, d1)` is the same day as `(y2, m2, d2)` or an earlier one.
pub open spec fn ymd_le(y1: int, m1: int, d1: int, y2: int, m2: int, d2: int) -> bool {
    y1 < y2 || (y1 == y2 && (m1 < m2 || (m1 == m2 && d1 <= d2)))
}

/// The day before `(y, m, d)`.
pub open spec fn prev_ymd(y: int, m: int, d: int) -> (int, int, int) {
    if d > 1 {
        (y, m, d - 1)
    } else if m > 1 {
        (y, m - 1, days_in_month(y, m - 1))
    } else {
        (y - 1, 12, 31)
    }
}

/// The day after `(y, m, d)`.
pub open spec fn next_ymd(y: int, m: int, d: int) -> (int, int, int) {
    if d < days_in_month(y, m) {
        (y, m, d + 1)
    } else if m < 12 {
        (y, m + 1, 1)
    } else {
        (y + 1, 1, 1)
    }
}

/// The year and month that follow month `m` of year `y`.
pub open spec fn next_month(y: int, m: int) -> (int, int) {
    if m < 12 {
        (y, m + 1)
    } else {
        (y + 1, 1)
    }
}

/// The date one month after `(y, m, d)`, its day cut down to the length of
/// that month.
pub open spec fn one_month_later(y: int, m: int, d: int) -> (int, int, int) {
    let (ny, nm) = next_month(y, m);
    let last = days_in_month(ny, nm);
    (ny, nm, if d <= last { d } else { last })
}

/// `n / d`, rounded down (toward negative infinity).
pub(crate) fn floor_div(n: i64, d: i64) -> (r: i64)
    requires
        d > 0,
    ensures
        r == n / d,
{
    if n >= 0 {
        n / d
    } else {
        let q = (-(n + 1)) / d;
        proof {
            let m: int = -(n as int + 1);
            let dd: int = d as int;
            let rem: int = m % dd;
            vstd::arithmetic::div_mod::lemma_fundamental_div_mod(m, dd);
            vstd::arithmetic::div_mod::lemma_mod_bound(m, dd);
            assert(m == dd * (q as int) + rem);
            assert(n as int == dd * (-(q as int) - 1) + (dd - 1 - rem)) by (nonlinear_arith)
                requires
                    m == dd * (q as int) + rem,
                    m == -(n as int + 1),
            ;
            vstd::arithmetic::div_mod::lemma_fundamental_div_mod_converse(
                n as int,
                dd,
                -(q as int) - 1,
                dd - 1 - rem,
            );
        }
        -q - 1
    }
}

/// The weekday number of Monday.
pub const MONDAY: u32 = 1;

/// The weekday number of Sunday.
pub const SUNDAY: u32 = 7;

/// A calendar date: year, month (1 to 12) and day of the month.
#[derive(Clone, Copy, Debug, PartialEq, Eq, Structural)]
pub struct CalendarDate {
    pub year: i32,
    pub month: u32,
    pub day: u32,
}

impl CalendarDate {
    /// The date names a real day within `chrono`'s range.
    pub open spec fn wf(&self) -> bool {
        is_valid_ymd(self.year as int, self.month as int, self.day as int)
    }

    /// The date as a triple of mathematical integers.
    pub open spec fn ymd(&self) -> (int, int, int) {
        (self.year as int, self.month as int, self.day as int)
    }

    /// The ISO weekday number of this date (Monday 1, Sunday 7).
    pub open spec fn spec_weekday(&self) -> int {
        weekday_of(self.year as int, self.month as int, self.day as int)
    }

    /// The date `(year, month, day)`, or `None` where no such day exists
    /// (a month outside 1 to 12, February 30, a year outside `chrono`'s range).
    pub fn new(year: i32, month: u32, day: u32) -> (r: Option<CalendarDate>)
        ensures
            r is Some <==> is_valid_ymd(year as int, month as int, day as int),
            r matches Some(date) ==> date.year == year && date.month == month && date.day == day,
    {
        if ymd_exists(year, month, day) {
            Some(CalendarDate { year, month, day })
        } else {
            None
        }
    }

    /// This date is `other` or an earlier day.
    pub fn is_on_or_before(&self, other: &CalendarDate) -> (r: bool)
        ensures
            r == ymd_le(self.year as int, self.month as int, self.day as int, other.year as int, other.month as int, other.day as int),
    {
        self.year < other.year || (self.year == other.year && (self.month < other.month || (self.month
            == other.month && self.day <= other.day)))
    }

    /// The ISO weekday number: 1 for Monday up to 7 for Sunday.
    pub fn weekday(&self) -> (r: u32)
        requires
            self.wf(),
        ensures
            r == self.spec_weekday(),
            1 <= r <= 7,
    {
        weekday_number(self)
    }

    /// The day before this one; `None` only on the first day that `chrono`
    /// can represent.
    pub fn previous_day(&self) -> (r: Option<CalendarDate>)
        requires
            self.wf(),
        ensures
            r is None <==> (self.year == MIN_YEAR && self.month == 1 && self.day == 1),
            r matches Some(p) ==> p.wf() && p.ymd() == prev_ymd(self.year as int, self.month as int, self.day as int),
    {
        pred_date(self)
    }

    /// The day after this one; `None` only on the last day that `chrono` can
    /// represent.
    pub fn next_day(&self) -> (r: Option<CalendarDate>)
        requires
            self.wf(),
        ensures
            r is None <==> (self.year == MAX_YEAR && self.month == 12 && self.day == 31),
            r matches Some(n) ==> n.wf() && n.ymd() == next_ymd(self.year as int, self.month as int, self.day as int),
    {
        succ_date(self)
    }
}

/// Relies on `chrono::Datelike::weekday` and `chrono::Weekday::number_from_monday`:
/// the ISO weekday number of a valid date, counted in the proleptic Gregorian
/// calendar (`chrono` documents January 1 of year 1 as day 1 of its day count,
/// a Monday).
#[verifier::external_body]
fn weekday_number(date: &CalendarDate) -> (r: u32)
    requires
        date.wf(),
    ensures
        r == date.spec_weekday(),
{
    chrono::NaiveDate::from_ymd_opt(date.year, date.month, date.day).unwrap().weekday().number_from_monday()
}

/// Relies on `chrono::NaiveDate::pred_opt`: the previous calendar date, `None`
/// only for `NaiveDate::MIN`, January 1 of `MIN_YEAR`.
#[verifier::external_body]
fn pred_date(date: &CalendarDate) -> (r: Option<CalendarDate>)
    requires
        date.wf(),
    ensures
        r is None <==> (date.year == MIN_YEAR && date.month == 1 && date.day == 1),
        r matches Some(p) ==> p.ymd() == prev_ymd(date.year as int, date.month as int, date.day as int),
{
    let p = chrono::NaiveDate::from_ymd_opt(date.year, date.month, date.day).unwrap().pred_opt()?;
    Some(CalendarDate { year: p.year(), month: p.month(), day: p.day() })
}

/// Relies on `chrono::NaiveDate::succ_opt`: the next calendar date, `None`
/// only for `NaiveDate::MAX`, December 31 of `MAX_YEAR`.
#[verifier::external_body]
fn succ_date(date: &CalendarDate) -> (r: Option<CalendarDate>)
    requires
        date.wf(),
    ensures
        r is None <==> (date.year == MAX_YEAR && date.month == 12 && date.day == 31),
        r matches Some(n) ==> n.ymd() == next_ymd(date.year as int, date.month as int, date.day as int),
{
    let n = chrono::NaiveDate::from_ymd_opt(date.year, date.month, date.day).unwrap().succ_opt()?;
    Some(CalendarDate { year: n.year(), month: n.month(), day: n.day() })
}

/// Relies on `chrono::Local::now` and `chrono::DateTime::date_naive`: today's
/// date in the local time zone, a date that `chrono` represents.
#[verifier::external_body]
pub(crate) fn today() -> (r: CalendarDate)
    ensures
        r.wf(),
{
    let d = chrono::Local::now().date_naive();
    CalendarDate { year: d.year(), month: d.month(), day: d.day() }
}

/// Relies on `chrono::NaiveDate::checked_add_months` with one month: the same
/// day of the next month, cut down to that month's last day, and `None` where
/// that month lies after `MAX_YEAR`.
#[verifier::external_body]
pub(crate) fn add_one_month(date: &CalendarDate) -> (r: Option<CalendarDate>)
    requires
        date.wf(),
    ensures
        r is None <==> next_month(date.year as int, date.month as int).0 > MAX_YEAR,
        r matches Some(n) ==> n.ymd() == one_month_later(date.year as int, date.month as int, date.day as int),
{
    let d = chrono::NaiveDate::from_ymd_opt(date.year, date.month, date.day).unwrap();
    let n = d.checked_add_months(chrono::Months::new(1))?;
    Some(CalendarDate { year: n.year(), month: n.month(), day: n.day() })
}

/// Relies on `chrono::NaiveDate::from_ymd_opt`, which returns `Some` exactly
/// for a month in 1 to 12, a day that the month has in that year, and a year
/// in `MIN_YEAR ..= MAX_YEAR`.
#[verifier::external_body]
fn ymd_exists(year: i32, month: u32, day: u32) -> (r: bool)
    ensures
        r == is_valid_ymd(year as int, month as int, day as int),
{
    chrono::NaiveDate::from_ymd_opt(year, month, day).is_some()
}

} // verus!
