//! A day of the calendar with all of its Japanese names, and calendars that
//! walk a range of days.
use crate::date::{
    add_one_month, days_in_month, is_valid_ymd, next_month, next_ymd, today, weekday_of,
    ymd_le, CalendarDate, MAX_YEAR, MIN_YEAR,
};
use crate::day::{holiday_name, holiday_of, weekday_index, weekday_name, JapaneseHoliday, JapaneseWeekday};
use crate::era::{era_name, era_of, JapaneseEra};
use crate::month::{month_index, month_name, JapaneseMonth};
use crate::year::{
    cycle_index, cycle_name, day_stem_index, stem_index, stem_name, year_zodiac_index,
    year_cycle_index, zodiac_index, zodiac_name, HeavenlyStem, JapaneseZodiac, SexagenaryCycle,
};
use vstd::prelude::*;

verus! {

/// A date with its Japanese calendar facts: era, heavenly stem of the day,
/// holiday, traditional month name, sexagenary pair, weekday and the
/// earthly branch of the year.
#[derive(Clone, Copy, Debug, PartialEq, Eq)]
pub struct JapaneseDate {
    day: u32,
    era: Option<JapaneseEra>,
    heavenly_stem: HeavenlyStem,
    holiday: Option<JapaneseHoliday>,
    month: JapaneseMonth,
    month_number: u32,
    sexagenary_cycle: SexagenaryCycle,
    weekday: JapaneseWeekday,
    western_year: i32,
    zodiac: JapaneseZodiac,
}

impl JapaneseDate {
    /// Every fact is the one of the date that the record holds.
    #[verifier::type_invariant]
    spec fn facts_match_date(&self) -> bool {
        let (y, m, d) = (self.western_year as int, self.month_number as int, self.day as int);
        &&& is_valid_ymd(y, m, d)
        &&& self.era == era_of(y, m, d)
        &&& stem_index(self.heavenly_stem) == day_stem_index(y, m, d)
        &&& self.holiday == holiday_of(y, m, d)
        &&& month_index(self.month) == m
        &&& cycle_index(self.sexagenary_cycle) == year_cycle_index(y)
        &&& weekday_index(self.weekday) == weekday_of(y, m, d)
        &&& zodiac_index(self.zodiac) == year_zodiac_index(y)
    }

    /// The Gregorian date that this record describes.
    pub closed spec fn date(&self) -> CalendarDate {
        CalendarDate { year: self.western_year, month: self.month_number, day: self.day }
    }

    /// The Japanese calendar facts of a date.
    pub fn from_datelike(date: &CalendarDate) -> (r: Self)
        requires
            date.wf(),
        ensures
            r.date() == *date,
    {
        JapaneseDate {
            day: date.day,
            era: JapaneseEra::from_datelike(date),
            heavenly_stem: HeavenlyStem::from_datelike(date),
            holiday: JapaneseHoliday::holiday(date),
            month: JapaneseMonth::from_datelike(date),
            month_number: date.month,
            sexagenary_cycle: SexagenaryCycle::from_datelike(date),
            weekday: JapaneseWeekday::from_datelike(date),
            western_year: date.year,
            zodiac: JapaneseZodiac::from_datelike(date),
        }
    }

    /// The day of the month.
    pub fn day(&self) -> (r: u32)
        ensures
            r == self.date().day,
    {
        self.day
    }

    /// The era and the year within it; `None` before Meiji.
    pub fn era(&self) -> (r: Option<JapaneseEra>)
        ensures
            r == era_of(self.date().year as int, self.date().month as int, self.date().day as int),
    {
        proof {
            use_type_invariant(self);
        }
        self.era
    }

    /// Whether the day is a national holiday, the substitute holiday
    /// included.
    pub fn is_holiday(&self) -> (r: bool)
        ensures
            r == holiday_of(self.date().year as int, self.date().month as int, self.date().day as int) is Some,
    {
        proof {
            use_type_invariant(self);
        }
        self.holiday.is_some()
    }

    /// The name of the era; `None` before Meiji.
    pub fn era_name(&self) -> (r: Option<&'static str>)
        ensures
            r is Some <==> era_of(self.date().year as int, self.date().month as int, self.date().day as int) is Some,
            r matches Some(s) ==> s@ == era_name(
                era_of(self.date().year as int, self.date().month as int, self.date().day as int).unwrap(),
            ),
    {
        proof {
            use_type_invariant(self);
        }
        match self.era {
            Some(e) => Some(e.to_str()),
            None => None,
        }
    }

    /// The heavenly stem of the day.
    pub fn heavenly_stem(&self) -> (r: HeavenlyStem)
        ensures
            stem_index(r) == day_stem_index(self.date().year as int, self.date().month as int, self.date().day as int),
    {
        proof {
            use_type_invariant(self);
        }
        self.heavenly_stem
    }

    /// The name of the heavenly stem of the day.
    pub fn heavenly_stem_name(&self) -> (r: &'static str)
        ensures
            exists|s: HeavenlyStem|
                stem_index(s) == day_stem_index(self.date().year as int, self.date().month as int, self.date().day as int)
                    && r@ == stem_name(s),
    {
        proof {
            use_type_invariant(self);
        }
        self.heavenly_stem.to_str()
    }

    /// The national holiday of the day, the substitute holiday included.
    pub fn holiday(&self) -> (r: Option<JapaneseHoliday>)
        ensures
            r == holiday_of(self.date().year as int, self.date().month as int, self.date().day as int),
    {
        proof {
            use_type_invariant(self);
        }
        self.holiday
    }

    /// The name of the day's holiday; `None` on a day that is no holiday.
    pub fn holiday_name(&self) -> (r: Option<&'static str>)
        ensures
            r is Some <==> holiday_of(self.date().year as int, self.date().month as int, self.date().day as int) is Some,
            r matches Some(s) ==> s@ == holiday_name(
                holiday_of(self.date().year as int, self.date().month as int, self.date().day as int).unwrap(),
            ),
    {
        proof {
            use_type_invariant(self);
        }
        match self.holiday {
            Some(h) => Some(h.to_str()),
            None => None,
        }
    }

    /// The month, by its traditional name.
    pub fn month(&self) -> (r: JapaneseMonth)
        ensures
            month_index(r) == self.date().month,
    {
        proof {
            use_type_invariant(self);
        }
        self.month
    }

    /// The traditional name of the month.
    pub fn month_name(&self) -> (r: &'static str)
        ensures
            exists|m: JapaneseMonth| month_index(m) == self.date().month && r@ == month_name(m),
    {
        proof {
            use_type_invariant(self);
        }
        self.month.name()
    }

    /// The number of the month, 1 to 12.
    pub fn month_number(&self) -> (r: u32)
        ensures
            r == self.date().month,
    {
        self.month_number
    }

    /// The pair of the sexagenary cycle of the year.
    pub fn sexagenary_cycle(&self) -> (r: SexagenaryCycle)
        ensures
            cycle_index(r) == year_cycle_index(self.date().year as int),
    {
        proof {
            use_type_invariant(self);
        }
        self.sexagenary_cycle
    }

    /// The name of the pair of the sexagenary cycle of the year.
    pub fn sexagenary_cycle_name(&self) -> (r: &'static str)
        ensures
            exists|c: SexagenaryCycle|
                cycle_index(c) == year_cycle_index(self.date().year as int) && r@ == cycle_name(c),
    {
        proof {
            use_type_invariant(self);
        }
        self.sexagenary_cycle.to_str()
    }

    /// The day of the week.
    pub fn weekday(&self) -> (r: JapaneseWeekday)
        ensures
            weekday_index(r) == weekday_of(self.date().year as int, self.date().month as int, self.date().day as int),
    {
        proof {
            use_type_invariant(self);
        }
        self.weekday
    }

    /// The Japanese name of the day of the week.
    pub fn weekday_name(&self) -> (r: &'static str)
        ensures
            exists|w: JapaneseWeekday|
                weekday_index(w) == weekday_of(self.date().year as int, self.date().month as int, self.date().day as int)
                    && r@ == weekday_name(w),
    {
        proof {
            use_type_invariant(self);
        }
        self.weekday.to_str()
    }

    /// The Gregorian year.
    pub fn western_year(&self) -> (r: i32)
        ensures
            r == self.date().year,
    {
        self.western_year
    }

    /// The earthly branch of the year.
    pub fn zodiac(&self) -> (r: JapaneseZodiac)
        ensures
            zodiac_index(r) == year_zodiac_index(self.date().year as int),
    {
        proof {
            use_type_invariant(self);
        }
        self.zodiac
    }

    /// The name of the earthly branch of the year.
    pub fn zodiac_name(&self) -> (r: &'static str)
        ensures
            exists|z: JapaneseZodiac| zodiac_index(z) == year_zodiac_index(self.date().year as int)
                && r@ == zodiac_name(z),
    {
        proof {
            use_type_invariant(self);
        }
        self.zodiac.to_str()
    }
}

/// A calendar: the days from a first date up to a last one, handed out one
/// at a time by `next`.
#[derive(Debug)]
pub struct Koyomi {
    current: CalendarDate,
    until: CalendarDate,
}

impl Koyomi {
    /// Both dates are real days.
    #[verifier::type_invariant]
    spec fn dates_valid(&self) -> bool {
        self.current.wf() && self.until.wf()
    }

    /// The day that `next` hands out next.
    pub closed spec fn current(&self) -> CalendarDate {
        self.current
    }

    /// The last day of the calendar.
    pub closed spec fn until(&self) -> CalendarDate {
        self.until
    }

    /// The calendar of the days from `from` to `until`.
    pub fn between(from: &CalendarDate, until: &CalendarDate) -> (r: Self)
        requires
            from.wf(),
            until.wf(),
        ensures
            r.current() == *from,
            r.until() == *until,
    {
        Koyomi { current: *from, until: *until }
    }

    /// The calendar of the month of `date`. Its last day must lie before the
    /// end of `chrono`'s range.
    pub fn current_month(date: &CalendarDate) -> (r: Self)
        requires
            date.wf(),
            next_month(date.year as int, date.month as int).0 <= MAX_YEAR,
        ensures
            r.current().ymd() == (date.year as int, date.month as int, 1int),
            r.until().ymd() == (date.year as int, date.month as int, days_in_month(date.year as int, date.month as int)),
    {
        Koyomi::month_of(date.year, date.month).unwrap()
    }

    /// The calendar of the year of `date`.
    pub fn current_year(date: &CalendarDate) -> (r: Self)
        requires
            date.wf(),
        ensures
            r.current().ymd() == (date.year as int, 1int, 1int),
            r.until().ymd() == (date.year as int, 12int, 31int),
    {
        Koyomi::year_of(date.year)
    }

    /// The calendar from today (in the local time zone) to `until`.
    pub fn from_now_until(until: &CalendarDate) -> (r: Self)
        requires
            until.wf(),
        ensures
            r.current().wf(),
            r.until() == *until,
    {
        Koyomi { current: today(), until: *until }
    }

    /// The calendar of month `month` of `year`; `None` where the month does
    /// not exist, or where the month after it lies beyond `chrono`'s range.
    pub fn month_of(year: i32, month: u32) -> (r: Option<Self>)
        ensures
            r is Some <==> (is_valid_ymd(year as int, month as int, 1) && next_month(year as int, month as int).0 <= MAX_YEAR),
            r matches Some(k) ==> k.current().ymd() == (year as int, month as int, 1int)
                && k.until().ymd() == (year as int, month as int, days_in_month(year as int, month as int)),
    {
        let first = CalendarDate::new(year, month, 1)?;
        let next = add_one_month(&first)?;
        let last = next.previous_day()?;
        Some(Koyomi { current: first, until: last })
    }

    /// The calendar from `from` to today (in the local time zone).
    pub fn until_now_from(from: &CalendarDate) -> (r: Self)
        requires
            from.wf(),
        ensures
            r.current() == *from,
            r.until().wf(),
    {
        Koyomi { current: *from, until: today() }
    }

    /// The calendar of `year`, January 1 to December 31.
    pub fn year_of(year: i32) -> (r: Self)
        requires
            MIN_YEAR <= year <= MAX_YEAR,
        ensures
            r.current().ymd() == (year as int, 1int, 1int),
            r.until().ymd() == (year as int, 12int, 31int),
    {
        Koyomi {
            current: CalendarDate { year, month: 1, day: 1 },
            until: CalendarDate { year, month: 12, day: 31 },
        }
    }

    /// The next day of the calendar, and the calendar moves on by one day;
    /// `None` once the last day is past. `None` too, with nothing handed
    /// out, on the last day that `chrono` represents, which has no next day.
    pub fn next(&mut self) -> (r: Option<JapaneseDate>)
        ensures
            !ymd_le(old(self).current().year as int, old(self).current().month as int, old(self).current().day as int,
                old(self).until().year as int, old(self).until().month as int, old(self).until().day as int)
                ==> r is None && final(self).current() == old(self).current(),
            old(self).current().ymd() == (MAX_YEAR as int, 12int, 31int) ==> r is None
                && final(self).current() == old(self).current(),
            final(self).until() == old(self).until(),
            r matches Some(jd) ==> jd.date() == old(self).current()
                && final(self).current().ymd() == next_ymd(old(self).current().year as int, old(self).current().month as int, old(self).current().day as int),
            ymd_le(old(self).current().year as int, old(self).current().month as int, old(self).current().day as int,
                old(self).until().year as int, old(self).until().month as int, old(self).until().day as int)
                && old(self).current().ymd() != (MAX_YEAR as int, 12int, 31int) ==> r is Some,
    {
        proof {
            use_type_invariant(&*self);
        }
        if !self.current.is_on_or_before(&self.until) {
            return None;
        }
        let current = self.current;
        match current.next_day() {
            Some(n) => {
                self.current = n;
                Some(JapaneseDate::from_datelike(&current))
            },
            None => None,
        }
    }
}

} // verus!
