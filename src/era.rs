//! The imperial eras (元号) from Meiji on.
use crate::date::{ymd_le, CalendarDate};
use vstd::prelude::*;

verus! {

/// An imperial era with the year within it (the first year is 1).
#[derive(Clone, Copy, Debug, PartialEq, Eq, Structural)]
pub enum JapaneseEra {
    /// 令和
    Reiwa(u8),
    /// 平成
    Heisei(u8),
    /// 昭和
    Showa(u8),
    /// 大正
    Taisho(u8),
    /// 明治
    Meiji(u8),
}

/// The era of `(y, m, d)` and its year within the era: Meiji from October
/// 23, 1868, Taisho from July 30, 1912, Showa from December 25, 1926, Heisei
/// from January 8, 1989 and Reiwa from May 1, 2019; `None` before Meiji. The
/// year within an era is held in a `u8`, so the years of Reiwa wrap around
/// after its 255th.
pub open spec fn era_of(y: int, m: int, d: int) -> Option<JapaneseEra> {
    if ymd_le(2019, 5, 1, y, m, d) {
        Some(JapaneseEra::Reiwa((y - 2018) as u8))
    } else if ymd_le(1989, 1, 8, y, m, d) {
        Some(JapaneseEra::Heisei((y - 1988) as u8))
    } else if ymd_le(1926, 12, 25, y, m, d) {
        Some(JapaneseEra::Showa((y - 1925) as u8))
    } else if ymd_le(1912, 7, 30, y, m, d) {
        Some(JapaneseEra::Taisho((y - 1911) as u8))
    } else if ymd_le(1868, 10, 23, y, m, d) {
        Some(JapaneseEra::Meiji((y - 1867) as u8))
    } else {
        None
    }
}

/// The name of an era.
pub open spec fn era_name(e: JapaneseEra) -> Seq<char> {
    match e {
        JapaneseEra::Reiwa(_) => "令和"@,
        JapaneseEra::Heisei(_) => "平成"@,
        JapaneseEra::Showa(_) => "昭和"@,
        JapaneseEra::Taisho(_) => "大正"@,
        JapaneseEra::Meiji(_) => "明治"@,
    }
}

/// The date lies in `from ..= until`.
fn date_within(date: &CalendarDate, from: (i32, u32, u32), until: (i32, u32, u32)) -> (r: bool)
    ensures
        r == (ymd_le(from.0 as int, from.1 as int, from.2 as int, date.year as int, date.month as int, date.day as int)
            && ymd_le(date.year as int, date.month as int, date.day as int, until.0 as int, until.1 as int, until.2 as int)),
{
    date_on_or_after(date, from) && date_on_or_before(date, until)
}

/// The date is `from` or a later day.
fn date_on_or_after(date: &CalendarDate, from: (i32, u32, u32)) -> (r: bool)
    ensures
        r == ymd_le(from.0 as int, from.1 as int, from.2 as int, date.year as int, date.month as int, date.day as int),
{
    from.0 < date.year || (from.0 == date.year && (from.1 < date.month || (from.1 == date.month
        && from.2 <= date.day)))
}

/// The date is `until` or an earlier day.
fn date_on_or_before(date: &CalendarDate, until: (i32, u32, u32)) -> (r: bool)
    ensures
        r == ymd_le(date.year as int, date.month as int, date.day as int, until.0 as int, until.1 as int, until.2 as int),
{
    date.year < until.0 || (date.year == until.0 && (date.month < until.1 || (date.month == until.1
        && date.day <= until.2)))
}

impl JapaneseEra {
    /// The era of a date and the date's year within it; `None` before Meiji.
    pub fn from_datelike(date: &CalendarDate) -> (r: Option<Self>)
        requires
            date.wf(),
        ensures
            r == era_of(date.year as int, date.month as int, date.day as int),
    {
        if let Some(e) = JapaneseEra::reiwa(date) {
            Some(e)
        } else if let Some(e) = JapaneseEra::heisei(date) {
            Some(e)
        } else if let Some(e) = JapaneseEra::showa(date) {
            Some(e)
        } else if let Some(e) = JapaneseEra::taisho(date) {
            Some(e)
        } else {
            JapaneseEra::meiji(date)
        }
    }

    /// The era's name.
    pub fn to_str(&self) -> (r: &'static str)
        ensures
            r@ == era_name(*self),
    {
        match self {
            JapaneseEra::Reiwa(_) => "令和",
            JapaneseEra::Heisei(_) => "平成",
            JapaneseEra::Showa(_) => "昭和",
            JapaneseEra::Taisho(_) => "大正",
            JapaneseEra::Meiji(_) => "明治",
        }
    }

    /// Heisei: January 8, 1989 to April 30, 2019.
    fn heisei(date: &CalendarDate) -> (r: Option<Self>)
        requires
            date.wf(),
        ensures
            r == (if ymd_le(1989, 1, 8, date.year as int, date.month as int, date.day as int)
                && ymd_le(date.year as int, date.month as int, date.day as int, 2019, 4, 30) {
                Some(JapaneseEra::Heisei((date.year - 1988) as u8))
            } else {
                None
            }),
    {
        if date_within(date, (1989, 1, 8), (2019, 4, 30)) {
            Some(JapaneseEra::Heisei((date.year - 1988) as u8))
        } else {
            None
        }
    }

    /// Meiji: October 23, 1868 to July 29, 1912.
    fn meiji(date: &CalendarDate) -> (r: Option<Self>)
        requires
            date.wf(),
        ensures
            r == (if ymd_le(1868, 10, 23, date.year as int, date.month as int, date.day as int)
                && ymd_le(date.year as int, date.month as int, date.day as int, 1912, 7, 29) {
                Some(JapaneseEra::Meiji((date.year - 1867) as u8))
            } else {
                None
            }),
    {
        if date_within(date, (1868, 10, 23), (1912, 7, 29)) {
            Some(JapaneseEra::Meiji((date.year - 1867) as u8))
        } else {
            None
        }
    }

    /// Reiwa: from May 1, 2019.
    fn reiwa(date: &CalendarDate) -> (r: Option<Self>)
        requires
            date.wf(),
        ensures
            r == (if ymd_le(2019, 5, 1, date.year as int, date.month as int, date.day as int) {
                Some(JapaneseEra::Reiwa((date.year - 2018) as u8))
            } else {
                None
            }),
    {
        if date_on_or_after(date, (2019, 5, 1)) {
            Some(JapaneseEra::Reiwa(#[verifier::truncate] ((date.year - 2018) as u8)))
        } else {
            None
        }
    }

    /// Showa: December 25, 1926 to January 7, 1989.
    fn showa(date: &CalendarDate) -> (r: Option<Self>)
        requires
            date.wf(),
        ensures
            r == (if ymd_le(1926, 12, 25, date.year as int, date.month as int, date.day as int)
                && ymd_le(date.year as int, date.month as int, date.day as int, 1989, 1, 7) {
                Some(JapaneseEra::Showa((date.year - 1925) as u8))
            } else {
                None
            }),
    {
        if date_within(date, (1926, 12, 25), (1989, 1, 7)) {
            Some(JapaneseEra::Showa((date.year - 1925) as u8))
        } else {
            None
        }
    }

    /// Taisho: July 30, 1912 to December 24, 1926.
    fn taisho(date: &CalendarDate) -> (r: Option<Self>)
        requires
            date.wf(),
        ensures
            r == (if ymd_le(1912, 7, 30, date.year as int, date.month as int, date.day as int)
                && ymd_le(date.year as int, date.month as int, date.day as int, 1926, 12, 24) {
                Some(JapaneseEra::Taisho((date.year - 1911) as u8))
            } else {
                None
            }),
    {
        if date_within(date, (1912, 7, 30), (1926, 12, 24)) {
            Some(JapaneseEra::Taisho((date.year - 1911) as u8))
        } else {
            None
        }
    }
}

} // verus!
