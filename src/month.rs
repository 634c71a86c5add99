//! The traditional Japanese names of the months (和風月名).
use crate::date::CalendarDate;
use crate::text::str_equal;
use vstd::prelude::*;

verus! {

/// A month, by its traditional Japanese name.
#[derive(Clone, Copy, Debug, PartialEq, Eq, Structural, PartialOrd, Ord)]
pub enum JapaneseMonth {
    /// 睦月
    Mutsuki,
    /// 如月
    Kisaragi,
    /// 弥生
    Yayoi,
    /// 卯月
    Uzuki,
    /// 皐月
    Satsuki,
    /// 水無月
    Minazuki,
    /// 文月
    Fumizuki,
    /// 葉月
    Hazuki,
    /// 長月
    Nagatsuki,
    /// 神無月
    Kannazuki,
    /// 霜月
    Shimotsuki,
    /// 師走
    Shiwasu,
}

/// The number of a month, from 1 for 睦月 (January) to 12 for 師走 (December).
pub open spec fn month_index(m: JapaneseMonth) -> int {
    match m {
        JapaneseMonth::Mutsuki => 1,
        JapaneseMonth::Kisaragi => 2,
        JapaneseMonth::Yayoi => 3,
        JapaneseMonth::Uzuki => 4,
        JapaneseMonth::Satsuki => 5,
        JapaneseMonth::Minazuki => 6,
        JapaneseMonth::Fumizuki => 7,
        JapaneseMonth::Hazuki => 8,
        JapaneseMonth::Nagatsuki => 9,
        JapaneseMonth::Kannazuki => 10,
        JapaneseMonth::Shimotsuki => 11,
        JapaneseMonth::Shiwasu => 12,
    }
}

/// The traditional name of a month.
pub open spec fn month_name(m: JapaneseMonth) -> Seq<char> {
    match m {
        JapaneseMonth::Mutsuki => "睦月"@,
        JapaneseMonth::Kisaragi => "如月"@,
        JapaneseMonth::Yayoi => "弥生"@,
        JapaneseMonth::Uzuki => "卯月"@,
        JapaneseMonth::Satsuki => "皐月"@,
        JapaneseMonth::Minazuki => "水無月"@,
        JapaneseMonth::Fumizuki => "文月"@,
        JapaneseMonth::Hazuki => "葉月"@,
        JapaneseMonth::Nagatsuki => "長月"@,
        JapaneseMonth::Kannazuki => "神無月"@,
        JapaneseMonth::Shimotsuki => "霜月"@,
        JapaneseMonth::Shiwasu => "師走"@,
    }
}

impl JapaneseMonth {
    /// The month of a date.
    pub fn from_datelike(date: &CalendarDate) -> (r: Self)
        requires
            date.wf(),
        ensures
            month_index(r) == date.month,
    {
        JapaneseMonth::from_number(date.month as usize).unwrap()
    }

    /// The month with the given traditional name, or `None` where no month
    /// has it.
    pub fn from_name(name: &str) -> (r: Option<Self>)
        ensures
            r matches Some(m) ==> month_name(m) == name@,
            r is None ==> forall|m: JapaneseMonth| month_name(m) != name@,
    {
        let mut i: usize = 1;
        while i <= 12
            invariant
                1 <= i <= 13,
                forall|m: JapaneseMonth| month_index(m) < i ==> month_name(m) != name@,
            decreases 13 - i,
        {
            if let Some(m) = JapaneseMonth::from_number(i) {
                if str_equal(m.name(), name) {
                    return Some(m);
                }
            }
            i = i + 1;
        }
        None
    }

    /// The month numbered `number` (1 to 12), or `None` outside that range.
    pub fn from_number(number: usize) -> (r: Option<Self>)
        ensures
            r is Some <==> 1 <= number <= 12,
            r matches Some(m) ==> month_index(m) == number,
    {
        match number {
            1 => Some(JapaneseMonth::Mutsuki),
            2 => Some(JapaneseMonth::Kisaragi),
            3 => Some(JapaneseMonth::Yayoi),
            4 => Some(JapaneseMonth::Uzuki),
            5 => Some(JapaneseMonth::Satsuki),
            6 => Some(JapaneseMonth::Minazuki),
            7 => Some(JapaneseMonth::Fumizuki),
            8 => Some(JapaneseMonth::Hazuki),
            9 => Some(JapaneseMonth::Nagatsuki),
            10 => Some(JapaneseMonth::Kannazuki),
            11 => Some(JapaneseMonth::Shimotsuki),
            12 => Some(JapaneseMonth::Shiwasu),
            _ => None,
        }
    }

    /// The month's traditional name.
    pub fn name(&self) -> (r: &'static str)
        ensures
            r@ == month_name(*self),
    {
        match self {
            JapaneseMonth::Mutsuki => "睦月",
            JapaneseMonth::Kisaragi => "如月",
            JapaneseMonth::Yayoi => "弥生",
            JapaneseMonth::Uzuki => "卯月",
            JapaneseMonth::Satsuki => "皐月",
            JapaneseMonth::Minazuki => "水無月",
            JapaneseMonth::Fumizuki => "文月",
            JapaneseMonth::Hazuki => "葉月",
            JapaneseMonth::Nagatsuki => "長月",
            JapaneseMonth::Kannazuki => "神無月",
            JapaneseMonth::Shimotsuki => "霜月",
            JapaneseMonth::Shiwasu => "師走",
        }
    }

    /// The month's number, from 1 for January to 12 for December.
    pub fn number(&self) -> (r: usize)
        ensures
            r == month_index(*self),
    {
        match self {
            JapaneseMonth::Mutsuki => 1,
            JapaneseMonth::Kisaragi => 2,
            JapaneseMonth::Yayoi => 3,
            JapaneseMonth::Uzuki => 4,
            JapaneseMonth::Satsuki => 5,
            JapaneseMonth::Minazuki => 6,
            JapaneseMonth::Fumizuki => 7,
            JapaneseMonth::Hazuki => 8,
            JapaneseMonth::Nagatsuki => 9,
            JapaneseMonth::Kannazuki => 10,
            JapaneseMonth::Shimotsuki => 11,
            JapaneseMonth::Shiwasu => 12,
        }
    }
}

} // verus!
