//! Japanese national holidays (国民の祝日) and the days of the week.
//!
//! Each holiday has a rule over a date, valid only in the years that the law
//! gave it; `holiday` combines them with the substitute holiday (振替休日).
use crate::date::{
    floor_div, is_valid_ymd, prev_ymd, weekday_of, CalendarDate, MONDAY, SUNDAY,
};
use crate::text::str_equal;
use vstd::prelude::*;

verus! {

/// A Japanese public holiday.
#[derive(Clone, Copy, Debug, PartialEq, Eq, Structural)]
pub enum JapaneseHoliday {
    /// 秋分の日
    AutumnalEquinoxDay,
    /// こどもの日
    ChildrensDay,
    /// 成人の日
    ComingOfAgeDay,
    /// 憲法記念日
    ConstitutionDay,
    /// 文化の日
    CultureDay,
    /// 天皇誕生日
    EmperorsBirthday,
    /// 即位礼正殿の儀(平成天皇)
    EnthronmentCeremonyOfEmperorHeisei,
    /// 即位礼正殿の儀(令和天皇)
    EnthronmentCeremonyOfEmperorReiwa,
    /// 令和天皇即位
    EnthronmentOfEmperorReiwa,
    /// みどりの日
    GreenDay,
    /// 勤労感謝の日
    LaborThanksgivingDay,
    /// 海の日
    MarineDay,
    /// 山の日
    MountainDay,
    /// 昭和天皇大喪の礼
    MouringCeremonyOfEmperorShowa,
    /// 建国記念の日
    NationalFoundationDay,
    /// 元日
    NewYearsDay,
    /// 体育の日
    PhysicalEducationDay,
    /// 敬老の日
    RespectForTheAgeDay,
    /// 昭和の日
    ShowaDay,
    /// スポーツの日
    SportsDay,
    /// 振替休日
    SubstituteDay,
    /// 春分の日
    VernalEquinoxDay,
    /// 明仁親王の結婚の儀
    WeddingCeremonyOfPrinceAkihito,
    /// 徳仁親王の結婚の儀
    WeddingCeremonyOfPrinceNaruhito,
}

// ---------------------------------------------------------------------------
// Equinox days
// ---------------------------------------------------------------------------

/// The slope of the equinox approximation, in millionths of a day per year.
pub const EQUINOX_SLOPE: i64 = 242194;

/// The vernal equinox offset of the approximation, in millionths of a day.
pub const VERNAL_EQUINOX_BASE: i64 = 20843100;

/// The autumnal equinox offset of the approximation, in millionths of a day.
pub const AUTUMNAL_EQUINOX_BASE: i64 = 23248800;

/// The day of the month of an equinox in `year`, by the approximation
/// `|floor(0.242194 (year - 1980) + base) - floor((year - 1980) / 4)|`, with
/// `base` given in millionths of a day.
pub open spec fn equinox_day(base: int, year: int) -> int {
    let x = year - 1980;
    let y = (EQUINOX_SLOPE * x + base) / 1000000;
    let z = x / 4;
    if y >= z {
        y - z
    } else {
        z - y
    }
}

/// The day of March of the vernal equinox in `year`.
pub open spec fn vernal_equinox(year: int) -> int {
    equinox_day(VERNAL_EQUINOX_BASE as int, year)
}

/// The day of September of the autumnal equinox in `year`.
pub open spec fn autumnal_equinox(year: int) -> int {
    equinox_day(AUTUMNAL_EQUINOX_BASE as int, year)
}

/// The day of the month of an equinox in `year`; see `equinox_day`.
fn equinox_day_of_month(base: i64, year: i32) -> (r: u32)
    requires
        base == VERNAL_EQUINOX_BASE || base == AUTUMNAL_EQUINOX_BASE,
    ensures
        r == equinox_day(base as int, year as int),
{
    let x: i64 = year as i64 - 1980;
    let y: i64 = floor_div(EQUINOX_SLOPE * x + base, 1000000);
    let z: i64 = floor_div(x, 4);
    proof {
        lemma_equinox_terms_bounded(base as int, x as int);
    }
    if y >= z {
        (y - z) as u32
    } else {
        (z - y) as u32
    }
}

/// Both terms of the equinox approximation stay within a quarter of the
/// year offset (plus the base), so their difference fits a `u32`.
proof fn lemma_equinox_terms_bounded(base: int, x: int)
    requires
        0 <= base <= 30000000,
        -3000000000 <= x <= 3000000000,
    ensures
        -750000001 <= (EQUINOX_SLOPE * x + base) / 1000000 <= 750000030,
        -750000001 <= x / 4 <= 750000000,
{
    let n = EQUINOX_SLOPE * x + base;
    assert(-726582000000000 <= n <= 726582030000000) by (nonlinear_arith)
        requires
            n == 242194 * x + base,
            0 <= base <= 30000000,
            -3000000000 <= x <= 3000000000,
    ;
    vstd::arithmetic::div_mod::lemma_fundamental_div_mod(n, 1000000);
    vstd::arithmetic::div_mod::lemma_mod_bound(n, 1000000);
    vstd::arithmetic::div_mod::lemma_fundamental_div_mod(x, 4);
    vstd::arithmetic::div_mod::lemma_mod_bound(x, 4);
}

/// The day of March on which the vernal equinox falls in `year`, by the
/// approximation of `equinox_day`.
pub fn vernal_equinox_day_of_month(year: i32) -> (r: u32)
    ensures
        r == vernal_equinox(year as int),
{
    equinox_day_of_month(VERNAL_EQUINOX_BASE, year)
}

/// The day of September on which the autumnal equinox falls in `year`, by
/// the approximation of `equinox_day`.
pub fn autumnal_equinox_day_of_month(year: i32) -> (r: u32)
    ensures
        r == autumnal_equinox(year as int),
{
    equinox_day_of_month(AUTUMNAL_EQUINOX_BASE, year)
}

// ---------------------------------------------------------------------------
// The rules of each holiday
// ---------------------------------------------------------------------------

/// `Some(h)` where `c` holds, else `None`.
pub open spec fn holiday_if(c: bool, h: JapaneseHoliday) -> Option<JapaneseHoliday> {
    if c {
        Some(h)
    } else {
        None
    }
}

/// `(y, m, d)` is the `n`-th Monday of its month: a Monday whose day lies in
/// `7n - 6 ..= 7n` (the second Monday on days 8 to 14, the third on 15 to 21).
pub open spec fn is_nth_monday(y: int, m: int, d: int, n: int) -> bool {
    weekday_of(y, m, d) == MONDAY && 7 * n - 6 <= d <= 7 * n
}

/// 元日: January 1, from 1949.
pub open spec fn is_new_years_day(y: int, m: int, d: int) -> bool {
    y >= 1949 && m == 1 && d == 1
}

/// 成人の日: January 15 in 1949 to 1999; the second Monday of January from
/// 2000.
pub open spec fn is_coming_of_age_day(y: int, m: int, d: int) -> bool {
    ||| (1949 <= y <= 1999 && m == 1 && d == 15)
    ||| (y >= 2000 && m == 1 && is_nth_monday(y, m, d, 2))
}

/// 建国記念の日: February 11, from 1967.
pub open spec fn is_national_foundation_day(y: int, m: int, d: int) -> bool {
    y >= 1967 && m == 2 && d == 11
}

/// 天皇誕生日: April 29 in 1949 to 1988, December 23 in 1989 to 2018,
/// February 23 from 2020; none in 2019.
pub open spec fn is_emperors_birthday(y: int, m: int, d: int) -> bool {
    ||| (1949 <= y <= 1988 && m == 4 && d == 29)
    ||| (1989 <= y <= 2018 && m == 12 && d == 23)
    ||| (y >= 2020 && m == 2 && d == 23)
}

/// 春分の日: the day of the vernal equinox in March, from 1949.
pub open spec fn is_vernal_equinox_day(y: int, m: int, d: int) -> bool {
    y >= 1949 && m == 3 && d == vernal_equinox(y)
}

/// 昭和の日: April 29, from 2007.
pub open spec fn is_showa_day(y: int, m: int, d: int) -> bool {
    y >= 2007 && m == 4 && d == 29
}

/// みどりの日: April 29 in 1989 to 2006; May 4 from 2007.
pub open spec fn is_green_day(y: int, m: int, d: int) -> bool {
    ||| (1989 <= y <= 2006 && m == 4 && d == 29)
    ||| (y >= 2007 && m == 5 && d == 4)
}

/// 憲法記念日: May 3, from 1948.
pub open spec fn is_constitution_day(y: int, m: int, d: int) -> bool {
    y >= 1948 && m == 5 && d == 3
}

/// こどもの日: May 5, from 1948.
pub open spec fn is_childrens_day(y: int, m: int, d: int) -> bool {
    y >= 1948 && m == 5 && d == 5
}

/// 海の日: July 20 in 1996 to 2002; the third Monday of July from 2003,
/// except in the Olympic years, when it was July 23, 2020 and July 22, 2021.
pub open spec fn is_marine_day(y: int, m: int, d: int) -> bool {
    ||| (y == 2020 && m == 7 && d == 23)
    ||| (y == 2021 && m == 7 && d == 22)
    ||| (1996 <= y <= 2002 && m == 7 && d == 20)
    ||| (y >= 2003 && y != 2020 && y != 2021 && m == 7 && is_nth_monday(y, m, d, 3))
}

/// 山の日: August 11 from 2016, except in the Olympic years, when it was
/// August 10, 2020 and August 8, 2021.
pub open spec fn is_mountain_day(y: int, m: int, d: int) -> bool {
    ||| (y == 2020 && m == 8 && d == 10)
    ||| (y == 2021 && m == 8 && d == 8)
    ||| (y >= 2016 && y != 2020 && y != 2021 && m == 8 && d == 11)
}

/// 敬老の日: September 15 in 1966 to 2002; the third Monday of September
/// from 2003.
pub open spec fn is_respect_for_the_age_day(y: int, m: int, d: int) -> bool {
    ||| (1966 <= y <= 2002 && m == 9 && d == 15)
    ||| (y >= 2003 && m == 9 && is_nth_monday(y, m, d, 3))
}

/// 秋分の日: the day of the autumnal equinox in September, from 1949.
pub open spec fn is_autumnal_equinox_day(y: int, m: int, d: int) -> bool {
    y >= 1949 && m == 9 && d == autumnal_equinox(y)
}

/// 体育の日: October 10 in 1966 to 1999; the second Monday of October in
/// 2000 to 2019.
pub open spec fn is_physical_education_day(y: int, m: int, d: int) -> bool {
    ||| (1966 <= y <= 1999 && m == 10 && d == 10)
    ||| (2000 <= y <= 2019 && m == 10 && is_nth_monday(y, m, d, 2))
}

/// スポーツの日: the second Monday of October from 2020, except in the
/// Olympic years, when it was July 24, 2020 and July 23, 2021.
pub open spec fn is_sports_day(y: int, m: int, d: int) -> bool {
    ||| (y == 2020 && m == 7 && d == 24)
    ||| (y == 2021 && m == 7 && d == 23)
    ||| (y >= 2022 && m == 10 && is_nth_monday(y, m, d, 2))
}

/// 文化の日: November 3, from 1948.
pub open spec fn is_culture_day(y: int, m: int, d: int) -> bool {
    y >= 1948 && m == 11 && d == 3
}

/// 勤労感謝の日: November 23, from 1948.
pub open spec fn is_labor_thanksgiving_day(y: int, m: int, d: int) -> bool {
    y >= 1948 && m == 11 && d == 23
}

/// The holidays of the imperial family's ceremonies, each on one day.
pub open spec fn imperial_ceremony(y: int, m: int, d: int) -> Option<JapaneseHoliday> {
    if y == 1959 && m == 4 && d == 10 {
        Some(JapaneseHoliday::WeddingCeremonyOfPrinceAkihito)
    } else if y == 1989 && m == 2 && d == 24 {
        Some(JapaneseHoliday::MouringCeremonyOfEmperorShowa)
    } else if y == 1990 && m == 11 && d == 12 {
        Some(JapaneseHoliday::EnthronmentCeremonyOfEmperorHeisei)
    } else if y == 1993 && m == 6 && d == 9 {
        Some(JapaneseHoliday::WeddingCeremonyOfPrinceNaruhito)
    } else if y == 2019 && m == 5 && d == 1 {
        Some(JapaneseHoliday::EnthronmentOfEmperorReiwa)
    } else if y == 2019 && m == 10 && d == 22 {
        Some(JapaneseHoliday::EnthronmentCeremonyOfEmperorReiwa)
    } else {
        None
    }
}

/// The holiday that one of the rules above gives `(y, m, d)`, trying them in
/// a fixed order; at most one of them applies to a date (see
/// `lemma_at_most_one_rule_applies`).
pub open spec fn base_holiday(y: int, m: int, d: int) -> Option<JapaneseHoliday> {
    if is_autumnal_equinox_day(y, m, d) {
        Some(JapaneseHoliday::AutumnalEquinoxDay)
    } else if is_childrens_day(y, m, d) {
        Some(JapaneseHoliday::ChildrensDay)
    } else if is_coming_of_age_day(y, m, d) {
        Some(JapaneseHoliday::ComingOfAgeDay)
    } else if is_constitution_day(y, m, d) {
        Some(JapaneseHoliday::ConstitutionDay)
    } else if is_culture_day(y, m, d) {
        Some(JapaneseHoliday::CultureDay)
    } else if is_emperors_birthday(y, m, d) {
        Some(JapaneseHoliday::EmperorsBirthday)
    } else if is_green_day(y, m, d) {
        Some(JapaneseHoliday::GreenDay)
    } else if imperial_ceremony(y, m, d) is Some {
        imperial_ceremony(y, m, d)
    } else if is_labor_thanksgiving_day(y, m, d) {
        Some(JapaneseHoliday::LaborThanksgivingDay)
    } else if is_marine_day(y, m, d) {
        Some(JapaneseHoliday::MarineDay)
    } else if is_mountain_day(y, m, d) {
        Some(JapaneseHoliday::MountainDay)
    } else if is_national_foundation_day(y, m, d) {
        Some(JapaneseHoliday::NationalFoundationDay)
    } else if is_new_years_day(y, m, d) {
        Some(JapaneseHoliday::NewYearsDay)
    } else if is_physical_education_day(y, m, d) {
        Some(JapaneseHoliday::PhysicalEducationDay)
    } else if is_respect_for_the_age_day(y, m, d) {
        Some(JapaneseHoliday::RespectForTheAgeDay)
    } else if is_showa_day(y, m, d) {
        Some(JapaneseHoliday::ShowaDay)
    } else if is_sports_day(y, m, d) {
        Some(JapaneseHoliday::SportsDay)
    } else if is_vernal_equinox_day(y, m, d) {
        Some(JapaneseHoliday::VernalEquinoxDay)
    } else {
        None
    }
}

/// 振替休日: `(y, m, d)` is a substitute holiday when the day before it is a
/// holiday by the rules above and either falls on a Sunday or is itself a
/// substitute holiday, so that a Sunday holiday hands its rest on to the
/// first day after it that is not a holiday. The rule took effect on April
/// 30, 1973; no day of 1973 or earlier is a substitute holiday.
pub open spec fn is_substitute_holiday(y: int, m: int, d: int) -> bool
    decreases y - 1973, m, d,
{
    if y <= 1973 {
        false
    } else {
        let (py, pm, pd) = prev_ymd(y, m, d);
        if base_holiday(py, pm, pd) is None {
            false
        } else if weekday_of(py, pm, pd) == SUNDAY {
            true
        } else {
            is_substitute_holiday(py, pm, pd)
        }
    }
}

/// The national holiday of `(y, m, d)`: the holiday that a rule gives it, or
/// else the substitute holiday.
pub open spec fn holiday_of(y: int, m: int, d: int) -> Option<JapaneseHoliday> {
    if base_holiday(y, m, d) is Some {
        base_holiday(y, m, d)
    } else {
        holiday_if(is_substitute_holiday(y, m, d), JapaneseHoliday::SubstituteDay)
    }
}

/// The display name of a holiday.
pub open spec fn holiday_name(h: JapaneseHoliday) -> Seq<char> {
    match h {
        JapaneseHoliday::AutumnalEquinoxDay => "秋分の日"@,
        JapaneseHoliday::ChildrensDay => "こどもの日"@,
        JapaneseHoliday::ComingOfAgeDay => "成人の日"@,
        JapaneseHoliday::ConstitutionDay => "憲法記念日"@,
        JapaneseHoliday::CultureDay => "文化の日"@,
        JapaneseHoliday::EmperorsBirthday => "天皇誕生日"@,
        JapaneseHoliday::EnthronmentCeremonyOfEmperorHeisei => "即位礼正殿の儀"@,
        JapaneseHoliday::EnthronmentCeremonyOfEmperorReiwa => "即位礼正殿の儀"@,
        JapaneseHoliday::EnthronmentOfEmperorReiwa => "天皇即位"@,
        JapaneseHoliday::GreenDay => "みどりの日"@,
        JapaneseHoliday::LaborThanksgivingDay => "勤労感謝の日"@,
        JapaneseHoliday::MarineDay => "海の日"@,
        JapaneseHoliday::MountainDay => "山の日"@,
        JapaneseHoliday::MouringCeremonyOfEmperorShowa => "昭和天皇大喪の礼"@,
        JapaneseHoliday::NationalFoundationDay => "建国記念の日"@,
        JapaneseHoliday::NewYearsDay => "元日"@,
        JapaneseHoliday::PhysicalEducationDay => "体育の日"@,
        JapaneseHoliday::RespectForTheAgeDay => "敬老の日"@,
        JapaneseHoliday::ShowaDay => "昭和の日"@,
        JapaneseHoliday::SportsDay => "スポーツの日"@,
        JapaneseHoliday::SubstituteDay => "振替休日"@,
        JapaneseHoliday::VernalEquinoxDay => "春分の日"@,
        JapaneseHoliday::WeddingCeremonyOfPrinceAkihito => "明仁親王の結婚の儀"@,
        JapaneseHoliday::WeddingCeremonyOfPrinceNaruhito => "徳仁親王の結婚の儀"@,
    }
}

// ---------------------------------------------------------------------------
// Laws of the holiday rules
// ---------------------------------------------------------------------------

/// The number of holiday rules that `holiday_rule` numbers.
pub const HOLIDAY_RULE_COUNT: u32 = 18;

/// The holiday rules, numbered in the order in which
/// `holiday_without_substitute` tries them: the result of rule `i` for
/// `(y, m, d)`.
pub open spec fn holiday_rule(i: int, y: int, m: int, d: int) -> Option<JapaneseHoliday> {
    if i == 0 {
        holiday_if(is_autumnal_equinox_day(y, m, d), JapaneseHoliday::AutumnalEquinoxDay)
    } else if i == 1 {
        holiday_if(is_childrens_day(y, m, d), JapaneseHoliday::ChildrensDay)
    } else if i == 2 {
        holiday_if(is_coming_of_age_day(y, m, d), JapaneseHoliday::ComingOfAgeDay)
    } else if i == 3 {
        holiday_if(is_constitution_day(y, m, d), JapaneseHoliday::ConstitutionDay)
    } else if i == 4 {
        holiday_if(is_culture_day(y, m, d), JapaneseHoliday::CultureDay)
    } else if i == 5 {
        holiday_if(is_emperors_birthday(y, m, d), JapaneseHoliday::EmperorsBirthday)
    } else if i == 6 {
        holiday_if(is_green_day(y, m, d), JapaneseHoliday::GreenDay)
    } else if i == 7 {
        imperial_ceremony(y, m, d)
    } else if i == 8 {
        holiday_if(is_labor_thanksgiving_day(y, m, d), JapaneseHoliday::LaborThanksgivingDay)
    } else if i == 9 {
        holiday_if(is_marine_day(y, m, d), JapaneseHoliday::MarineDay)
    } else if i == 10 {
        holiday_if(is_mountain_day(y, m, d), JapaneseHoliday::MountainDay)
    } else if i == 11 {
        holiday_if(is_national_foundation_day(y, m, d), JapaneseHoliday::NationalFoundationDay)
    } else if i == 12 {
        holiday_if(is_new_years_day(y, m, d), JapaneseHoliday::NewYearsDay)
    } else if i == 13 {
        holiday_if(is_physical_education_day(y, m, d), JapaneseHoliday::PhysicalEducationDay)
    } else if i == 14 {
        holiday_if(is_respect_for_the_age_day(y, m, d), JapaneseHoliday::RespectForTheAgeDay)
    } else if i == 15 {
        holiday_if(is_showa_day(y, m, d), JapaneseHoliday::ShowaDay)
    } else if i == 16 {
        holiday_if(is_sports_day(y, m, d), JapaneseHoliday::SportsDay)
    } else if i == 17 {
        holiday_if(is_vernal_equinox_day(y, m, d), JapaneseHoliday::VernalEquinoxDay)
    } else {
        None
    }
}

/// From 1948 to 2100 the vernal equinox falls on March 19 to 21 and the
/// autumnal equinox on September 22 to 24.
pub proof fn lemma_equinox_day_range(year: int)
    requires
        1948 <= year <= 2100,
    ensures
        19 <= vernal_equinox(year) <= 21,
        22 <= autumnal_equinox(year) <= 24,
{
    let x = year - 1980;
    vstd::arithmetic::div_mod::lemma_fundamental_div_mod(x, 4);
    vstd::arithmetic::div_mod::lemma_mod_bound(x, 4);
    let nv = EQUINOX_SLOPE * x + VERNAL_EQUINOX_BASE;
    let na = EQUINOX_SLOPE * x + AUTUMNAL_EQUINOX_BASE;
    vstd::arithmetic::div_mod::lemma_fundamental_div_mod(nv, 1000000);
    vstd::arithmetic::div_mod::lemma_mod_bound(nv, 1000000);
    vstd::arithmetic::div_mod::lemma_fundamental_div_mod(na, 1000000);
    vstd::arithmetic::div_mod::lemma_mod_bound(na, 1000000);
}

/// At most one holiday rule applies to any date from 1948 to 2100: the rules
/// never compete, so the order in which `holiday_without_substitute` tries
/// them does not matter.
#[verifier::spinoff_prover]
pub proof fn lemma_at_most_one_rule_applies(y: int, m: int, d: int)
    requires
        is_valid_ymd(y, m, d),
        1948 <= y <= 2100,
    ensures
        forall|i: int, j: int|
            0 <= i < j < HOLIDAY_RULE_COUNT && (#[trigger] holiday_rule(i, y, m, d)) is Some
                ==> (#[trigger] holiday_rule(j, y, m, d)) is None,
{
    lemma_equinox_day_range(y);
}

/// No holiday rule applies before the year its law took effect, and each
/// fixed-date holiday applies on its date in that first year.
#[verifier::spinoff_prover]
pub proof fn lemma_rules_start_in_enactment_year(y: int, m: int, d: int)
    ensures
        y < 1949 ==> !is_new_years_day(y, m, d) && !is_coming_of_age_day(y, m, d)
            && !is_emperors_birthday(y, m, d) && !is_vernal_equinox_day(y, m, d)
            && !is_autumnal_equinox_day(y, m, d),
        y < 1948 ==> !is_constitution_day(y, m, d) && !is_childrens_day(y, m, d)
            && !is_culture_day(y, m, d) && !is_labor_thanksgiving_day(y, m, d)
            && base_holiday(y, m, d) is None && holiday_of(y, m, d) is None,
        y < 1966 ==> !is_respect_for_the_age_day(y, m, d) && !is_physical_education_day(y, m, d),
        y < 1967 ==> !is_national_foundation_day(y, m, d),
        y < 1989 ==> !is_green_day(y, m, d),
        y < 1996 ==> !is_marine_day(y, m, d),
        y < 2007 ==> !is_showa_day(y, m, d),
        y < 2016 ==> !is_mountain_day(y, m, d),
        y < 2020 ==> !is_sports_day(y, m, d),
        is_new_years_day(1949, 1, 1),
        is_coming_of_age_day(1949, 1, 15),
        is_national_foundation_day(1967, 2, 11),
        is_emperors_birthday(1949, 4, 29),
        is_vernal_equinox_day(1949, 3, 21),
        is_showa_day(2007, 4, 29),
        is_green_day(1989, 4, 29),
        is_constitution_day(1948, 5, 3),
        is_childrens_day(1948, 5, 5),
        is_marine_day(1996, 7, 20),
        is_mountain_day(2016, 8, 11),
        is_respect_for_the_age_day(1966, 9, 15),
        is_autumnal_equinox_day(1949, 9, 23),
        is_physical_education_day(1966, 10, 10),
        is_sports_day(2020, 7, 24),
        is_culture_day(1948, 11, 3),
        is_labor_thanksgiving_day(1948, 11, 23),
{
    if y < 1948 {
        assert(!is_substitute_holiday(y, m, d));
    }
    vstd::arithmetic::div_mod::lemma_fundamental_div_mod_converse(-31, 4, -8, 1);
    vstd::arithmetic::div_mod::lemma_fundamental_div_mod_converse(13335086, 1000000, 13, 335086);
    vstd::arithmetic::div_mod::lemma_fundamental_div_mod_converse(15740786, 1000000, 15, 740786);
    assert(vernal_equinox(1949) == 21);
    assert(autumnal_equinox(1949) == 23);
}

/// From 1949 to 2099 the day that `vernal_equinox_day_of_month` and
/// `autumnal_equinox_day_of_month` give is a real day of March or September
/// of that year, and `holiday` names it the vernal or autumnal equinox day.
pub proof fn lemma_equinox_days_are_holidays(year: int)
    requires
        1949 <= year <= 2099,
    ensures
        is_valid_ymd(year, 3, vernal_equinox(year)),
        is_vernal_equinox_day(year, 3, vernal_equinox(year)),
        holiday_of(year, 3, vernal_equinox(year)) == Some(JapaneseHoliday::VernalEquinoxDay),
        is_valid_ymd(year, 9, autumnal_equinox(year)),
        is_autumnal_equinox_day(year, 9, autumnal_equinox(year)),
        holiday_of(year, 9, autumnal_equinox(year)) == Some(JapaneseHoliday::AutumnalEquinoxDay),
{
    lemma_equinox_day_range(year);
}

/// The enthronement of the Reiwa emperor is the holiday of May 1, 2019 and
/// of no other day; in 2019 there was no Emperor's Birthday, so February 23
/// and December 23, 2019 are no holidays.
pub proof fn lemma_reiwa_enthronement_day(y: int, m: int, d: int)
    requires
        is_valid_ymd(y, m, d),
    ensures
        holiday_of(y, m, d) == Some(JapaneseHoliday::EnthronmentOfEmperorReiwa) <==> (y == 2019 && m
            == 5 && d == 1),
        holiday_of(2019, 2, 23) is None,
        holiday_of(2019, 12, 23) is None,
{
    assert(!is_substitute_holiday(2019, 2, 23));
    assert(!is_substitute_holiday(2019, 12, 23));
}

/// The second Monday of the date's month.
fn happy_monday_second(date: &CalendarDate) -> (r: bool)
    requires
        date.wf(),
    ensures
        r == is_nth_monday(date.year as int, date.month as int, date.day as int, 2),
{
    8 <= date.day && date.day <= 14 && date.weekday() == MONDAY
}

/// The third Monday of the date's month.
fn happy_monday_third(date: &CalendarDate) -> (r: bool)
    requires
        date.wf(),
    ensures
        r == is_nth_monday(date.year as int, date.month as int, date.day as int, 3),
{
    15 <= date.day && date.day <= 21 && date.weekday() == MONDAY
}

impl JapaneseHoliday {
    /// 秋分の日
    pub fn autumnal_equinox_day(date: &CalendarDate) -> (r: Option<Self>)
        requires
            date.wf(),
        ensures
            r == holiday_if(
                is_autumnal_equinox_day(date.year as int, date.month as int, date.day as int),
                JapaneseHoliday::AutumnalEquinoxDay,
            ),
    {
        if date.year >= 1949 && date.month == 9 && date.day == autumnal_equinox_day_of_month(date.year) {
            Some(JapaneseHoliday::AutumnalEquinoxDay)
        } else {
            None
        }
    }

    /// こどもの日
    pub fn childrens_day(date: &CalendarDate) -> (r: Option<Self>)
        requires
            date.wf(),
        ensures
            r == holiday_if(
                is_childrens_day(date.year as int, date.month as int, date.day as int),
                JapaneseHoliday::ChildrensDay,
            ),
    {
        if date.year >= 1948 && date.month == 5 && date.day == 5 {
            Some(JapaneseHoliday::ChildrensDay)
        } else {
            None
        }
    }

    /// 成人の日
    pub fn coming_of_age_day(date: &CalendarDate) -> (r: Option<Self>)
        requires
            date.wf(),
        ensures
            r == holiday_if(
                is_coming_of_age_day(date.year as int, date.month as int, date.day as int),
                JapaneseHoliday::ComingOfAgeDay,
            ),
    {
        if 1949 <= date.year && date.year <= 1999 && date.month == 1 && date.day == 15 {
            Some(JapaneseHoliday::ComingOfAgeDay)
        } else if date.year >= 2000 && date.month == 1 && happy_monday_second(date) {
            Some(JapaneseHoliday::ComingOfAgeDay)
        } else {
            None
        }
    }

    /// 憲法記念日
    pub fn constitution_day(date: &CalendarDate) -> (r: Option<Self>)
        requires
            date.wf(),
        ensures
            r == holiday_if(
                is_constitution_day(date.year as int, date.month as int, date.day as int),
                JapaneseHoliday::ConstitutionDay,
            ),
    {
        if date.year >= 1948 && date.month == 5 && date.day == 3 {
            Some(JapaneseHoliday::ConstitutionDay)
        } else {
            None
        }
    }

    /// 文化の日
    pub fn culture_day(date: &CalendarDate) -> (r: Option<Self>)
        requires
            date.wf(),
        ensures
            r == holiday_if(
                is_culture_day(date.year as int, date.month as int, date.day as int),
                JapaneseHoliday::CultureDay,
            ),
    {
        if date.year >= 1948 && date.month == 11 && date.day == 3 {
            Some(JapaneseHoliday::CultureDay)
        } else {
            None
        }
    }

    /// 天皇誕生日
    pub fn emperors_birthday(date: &CalendarDate) -> (r: Option<Self>)
        requires
            date.wf(),
        ensures
            r == holiday_if(
                is_emperors_birthday(date.year as int, date.month as int, date.day as int),
                JapaneseHoliday::EmperorsBirthday,
            ),
    {
        let (y, m, d) = (date.year, date.month, date.day);
        if (1949 <= y && y <= 1988 && m == 4 && d == 29) || (1989 <= y && y <= 2018 && m == 12
            && d == 23) || (y >= 2020 && m == 2 && d == 23) {
            Some(JapaneseHoliday::EmperorsBirthday)
        } else {
            None
        }
    }

    /// みどりの日
    pub fn green_day(date: &CalendarDate) -> (r: Option<Self>)
        requires
            date.wf(),
        ensures
            r == holiday_if(
                is_green_day(date.year as int, date.month as int, date.day as int),
                JapaneseHoliday::GreenDay,
            ),
    {
        let (y, m, d) = (date.year, date.month, date.day);
        if (1989 <= y && y <= 2006 && m == 4 && d == 29) || (y >= 2007 && m == 5 && d == 4) {
            Some(JapaneseHoliday::GreenDay)
        } else {
            None
        }
    }

    /// 皇室慶弔行事に伴う休日: the holidays of the imperial ceremonies.
    pub fn imperial_ceremony_day(date: &CalendarDate) -> (r: Option<Self>)
        requires
            date.wf(),
        ensures
            r == imperial_ceremony(date.year as int, date.month as int, date.day as int),
    {
        let (y, m, d) = (date.year, date.month, date.day);
        if y == 1959 && m == 4 && d == 10 {
            Some(JapaneseHoliday::WeddingCeremonyOfPrinceAkihito)
        } else if y == 1989 && m == 2 && d == 24 {
            Some(JapaneseHoliday::MouringCeremonyOfEmperorShowa)
        } else if y == 1990 && m == 11 && d == 12 {
            Some(JapaneseHoliday::EnthronmentCeremonyOfEmperorHeisei)
        } else if y == 1993 && m == 6 && d == 9 {
            Some(JapaneseHoliday::WeddingCeremonyOfPrinceNaruhito)
        } else if y == 2019 && m == 5 && d == 1 {
            Some(JapaneseHoliday::EnthronmentOfEmperorReiwa)
        } else if y == 2019 && m == 10 && d == 22 {
            Some(JapaneseHoliday::EnthronmentCeremonyOfEmperorReiwa)
        } else {
            None
        }
    }

    /// 勤労感謝の日
    pub fn labor_thanksgiving_day(date: &CalendarDate) -> (r: Option<Self>)
        requires
            date.wf(),
        ensures
            r == holiday_if(
                is_labor_thanksgiving_day(date.year as int, date.month as int, date.day as int),
                JapaneseHoliday::LaborThanksgivingDay,
            ),
    {
        if date.year >= 1948 && date.month == 11 && date.day == 23 {
            Some(JapaneseHoliday::LaborThanksgivingDay)
        } else {
            None
        }
    }

    /// 海の日
    pub fn marine_day(date: &CalendarDate) -> (r: Option<Self>)
        requires
            date.wf(),
        ensures
            r == holiday_if(
                is_marine_day(date.year as int, date.month as int, date.day as int),
                JapaneseHoliday::MarineDay,
            ),
    {
        let (y, m, d) = (date.year, date.month, date.day);
        if (y == 2020 && m == 7 && d == 23) || (y == 2021 && m == 7 && d == 22) {
            Some(JapaneseHoliday::MarineDay)
        } else if 1996 <= y && y <= 2002 && m == 7 && d == 20 {
            Some(JapaneseHoliday::MarineDay)
        } else if y >= 2003 && y != 2020 && y != 2021 && m == 7 && happy_monday_third(date) {
            Some(JapaneseHoliday::MarineDay)
        } else {
            None
        }
    }

    /// 山の日
    pub fn mountain_day(date: &CalendarDate) -> (r: Option<Self>)
        requires
            date.wf(),
        ensures
            r == holiday_if(
                is_mountain_day(date.year as int, date.month as int, date.day as int),
                JapaneseHoliday::MountainDay,
            ),
    {
        let (y, m, d) = (date.year, date.month, date.day);
        if (y == 2020 && m == 8 && d == 10) || (y == 2021 && m == 8 && d == 8) {
            Some(JapaneseHoliday::MountainDay)
        } else if y >= 2016 && y != 2020 && y != 2021 && m == 8 && d == 11 {
            Some(JapaneseHoliday::MountainDay)
        } else {
            None
        }
    }

    /// 建国記念の日
    pub fn national_foundation_day(date: &CalendarDate) -> (r: Option<Self>)
        requires
            date.wf(),
        ensures
            r == holiday_if(
                is_national_foundation_day(date.year as int, date.month as int, date.day as int),
                JapaneseHoliday::NationalFoundationDay,
            ),
    {
        if date.year >= 1967 && date.month == 2 && date.day == 11 {
            Some(JapaneseHoliday::NationalFoundationDay)
        } else {
            None
        }
    }

    /// 元日
    pub fn new_years_day(date: &CalendarDate) -> (r: Option<Self>)
        requires
            date.wf(),
        ensures
            r == holiday_if(
                is_new_years_day(date.year as int, date.month as int, date.day as int),
                JapaneseHoliday::NewYearsDay,
            ),
    {
        if date.year >= 1949 && date.month == 1 && date.day == 1 {
            Some(JapaneseHoliday::NewYearsDay)
        } else {
            None
        }
    }

    /// 体育の日
    pub fn physical_education_day(date: &CalendarDate) -> (r: Option<Self>)
        requires
            date.wf(),
        ensures
            r == holiday_if(
                is_physical_education_day(date.year as int, date.month as int, date.day as int),
                JapaneseHoliday::PhysicalEducationDay,
            ),
    {
        let (y, m, d) = (date.year, date.month, date.day);
        if 1966 <= y && y <= 1999 && m == 10 && d == 10 {
            Some(JapaneseHoliday::PhysicalEducationDay)
        } else if 2000 <= y && y <= 2019 && m == 10 && happy_monday_second(date) {
            Some(JapaneseHoliday::PhysicalEducationDay)
        } else {
            None
        }
    }

    /// 敬老の日
    pub fn respect_for_the_age_day(date: &CalendarDate) -> (r: Option<Self>)
        requires
            date.wf(),
        ensures
            r == holiday_if(
                is_respect_for_the_age_day(date.year as int, date.month as int, date.day as int),
                JapaneseHoliday::RespectForTheAgeDay,
            ),
    {
        let (y, m, d) = (date.year, date.month, date.day);
        if 1966 <= y && y <= 2002 && m == 9 && d == 15 {
            Some(JapaneseHoliday::RespectForTheAgeDay)
        } else if y >= 2003 && m == 9 && happy_monday_third(date) {
            Some(JapaneseHoliday::RespectForTheAgeDay)
        } else {
            None
        }
    }

    /// 昭和の日
    pub fn showa_day(date: &CalendarDate) -> (r: Option<Self>)
        requires
            date.wf(),
        ensures
            r == holiday_if(
                is_showa_day(date.year as int, date.month as int, date.day as int),
                JapaneseHoliday::ShowaDay,
            ),
    {
        if date.year >= 2007 && date.month == 4 && date.day == 29 {
            Some(JapaneseHoliday::ShowaDay)
        } else {
            None
        }
    }

    /// スポーツの日
    pub fn sports_day(date: &CalendarDate) -> (r: Option<Self>)
        requires
            date.wf(),
        ensures
            r == holiday_if(
                is_sports_day(date.year as int, date.month as int, date.day as int),
                JapaneseHoliday::SportsDay,
            ),
    {
        let (y, m, d) = (date.year, date.month, date.day);
        if (y == 2020 && m == 7 && d == 24) || (y == 2021 && m == 7 && d == 23) {
            Some(JapaneseHoliday::SportsDay)
        } else if y >= 2022 && m == 10 && happy_monday_second(date) {
            Some(JapaneseHoliday::SportsDay)
        } else {
            None
        }
    }

    /// The holiday that one of the rules gives the date, without the
    /// substitute holiday.
    pub fn holiday_without_substitute(date: &CalendarDate) -> (r: Option<Self>)
        requires
            date.wf(),
        ensures
            r == base_holiday(date.year as int, date.month as int, date.day as int),
    {
        if let Some(h) = JapaneseHoliday::autumnal_equinox_day(date) {
            Some(h)
        } else if let Some(h) = JapaneseHoliday::childrens_day(date) {
            Some(h)
        } else if let Some(h) = JapaneseHoliday::coming_of_age_day(date) {
            Some(h)
        } else if let Some(h) = JapaneseHoliday::constitution_day(date) {
            Some(h)
        } else if let Some(h) = JapaneseHoliday::culture_day(date) {
            Some(h)
        } else if let Some(h) = JapaneseHoliday::emperors_birthday(date) {
            Some(h)
        } else if let Some(h) = JapaneseHoliday::green_day(date) {
            Some(h)
        } else if let Some(h) = JapaneseHoliday::imperial_ceremony_day(date) {
            Some(h)
        } else if let Some(h) = JapaneseHoliday::labor_thanksgiving_day(date) {
            Some(h)
        } else if let Some(h) = JapaneseHoliday::marine_day(date) {
            Some(h)
        } else if let Some(h) = JapaneseHoliday::mountain_day(date) {
            Some(h)
        } else if let Some(h) = JapaneseHoliday::national_foundation_day(date) {
            Some(h)
        } else if let Some(h) = JapaneseHoliday::new_years_day(date) {
            Some(h)
        } else if let Some(h) = JapaneseHoliday::physical_education_day(date) {
            Some(h)
        } else if let Some(h) = JapaneseHoliday::respect_for_the_age_day(date) {
            Some(h)
        } else if let Some(h) = JapaneseHoliday::showa_day(date) {
            Some(h)
        } else if let Some(h) = JapaneseHoliday::sports_day(date) {
            Some(h)
        } else {
            JapaneseHoliday::vernal_equinox_day(date)
        }
    }

    /// 振替休日
    pub fn substitute_holiday(date: &CalendarDate) -> (r: Option<Self>)
        requires
            date.wf(),
        ensures
            r == holiday_if(
                is_substitute_holiday(date.year as int, date.month as int, date.day as int),
                JapaneseHoliday::SubstituteDay,
            ),
        decreases date.year - 1973, date.month, date.day,
    {
        if date.year <= 1973 {
            return None;
        }
        let prev = match date.previous_day() {
            Some(p) => p,
            None => return None,
        };
        if JapaneseHoliday::holiday_without_substitute(&prev).is_none() {
            None
        } else if prev.weekday() == SUNDAY {
            Some(JapaneseHoliday::SubstituteDay)
        } else {
            JapaneseHoliday::substitute_holiday(&prev)
        }
    }

    /// 国民の祝日: the national holiday of the date, the substitute holiday
    /// included.
    pub fn holiday(date: &CalendarDate) -> (r: Option<Self>)
        requires
            date.wf(),
        ensures
            r == holiday_of(date.year as int, date.month as int, date.day as int),
    {
        match JapaneseHoliday::holiday_without_substitute(date) {
            Some(h) => Some(h),
            None => JapaneseHoliday::substitute_holiday(date),
        }
    }

    /// The holiday's name.
    pub fn to_str(&self) -> (r: &'static str)
        ensures
            r@ == holiday_name(*self),
    {
        match self {
            JapaneseHoliday::AutumnalEquinoxDay => "秋分の日",
            JapaneseHoliday::ChildrensDay => "こどもの日",
            JapaneseHoliday::ComingOfAgeDay => "成人の日",
            JapaneseHoliday::ConstitutionDay => "憲法記念日",
            JapaneseHoliday::CultureDay => "文化の日",
            JapaneseHoliday::EmperorsBirthday => "天皇誕生日",
            JapaneseHoliday::EnthronmentCeremonyOfEmperorHeisei => "即位礼正殿の儀",
            JapaneseHoliday::EnthronmentCeremonyOfEmperorReiwa => "即位礼正殿の儀",
            JapaneseHoliday::EnthronmentOfEmperorReiwa => "天皇即位",
            JapaneseHoliday::GreenDay => "みどりの日",
            JapaneseHoliday::LaborThanksgivingDay => "勤労感謝の日",
            JapaneseHoliday::MarineDay => "海の日",
            JapaneseHoliday::MountainDay => "山の日",
            JapaneseHoliday::MouringCeremonyOfEmperorShowa => "昭和天皇大喪の礼",
            JapaneseHoliday::NationalFoundationDay => "建国記念の日",
            JapaneseHoliday::NewYearsDay => "元日",
            JapaneseHoliday::PhysicalEducationDay => "体育の日",
            JapaneseHoliday::RespectForTheAgeDay => "敬老の日",
            JapaneseHoliday::ShowaDay => "昭和の日",
            JapaneseHoliday::SportsDay => "スポーツの日",
            JapaneseHoliday::SubstituteDay => "振替休日",
            JapaneseHoliday::VernalEquinoxDay => "春分の日",
            JapaneseHoliday::WeddingCeremonyOfPrinceAkihito => "明仁親王の結婚の儀",
            JapaneseHoliday::WeddingCeremonyOfPrinceNaruhito => "徳仁親王の結婚の儀",
        }
    }

    /// 春分の日
    pub fn vernal_equinox_day(date: &CalendarDate) -> (r: Option<Self>)
        requires
            date.wf(),
        ensures
            r == holiday_if(
                is_vernal_equinox_day(date.year as int, date.month as int, date.day as int),
                JapaneseHoliday::VernalEquinoxDay,
            ),
    {
        if date.year >= 1949 && date.month == 3 && date.day == vernal_equinox_day_of_month(date.year) {
            Some(JapaneseHoliday::VernalEquinoxDay)
        } else {
            None
        }
    }
}

// ---------------------------------------------------------------------------
// Days of the week
// ---------------------------------------------------------------------------

/// A day of the week, by its Japanese name.
#[derive(Clone, Copy, Debug, PartialEq, Eq, Structural, PartialOrd, Ord)]
pub enum JapaneseWeekday {
    /// 月
    Getsu,
    /// 火
    Ka,
    /// 水
    Sui,
    /// 木
    Moku,
    /// 金
    Kin,
    /// 土
    Do,
    /// 日
    Nichi,
}

/// The position of a weekday in the week, from 1 for Monday to 7 for Sunday.
pub open spec fn weekday_index(w: JapaneseWeekday) -> int {
    match w {
        JapaneseWeekday::Getsu => 1,
        JapaneseWeekday::Ka => 2,
        JapaneseWeekday::Sui => 3,
        JapaneseWeekday::Moku => 4,
        JapaneseWeekday::Kin => 5,
        JapaneseWeekday::Do => 6,
        JapaneseWeekday::Nichi => 7,
    }
}

/// The one-character Japanese name of a weekday.
pub open spec fn weekday_name(w: JapaneseWeekday) -> Seq<char> {
    match w {
        JapaneseWeekday::Getsu => "月"@,
        JapaneseWeekday::Ka => "火"@,
        JapaneseWeekday::Sui => "水"@,
        JapaneseWeekday::Moku => "木"@,
        JapaneseWeekday::Kin => "金"@,
        JapaneseWeekday::Do => "土"@,
        JapaneseWeekday::Nichi => "日"@,
    }
}

impl JapaneseWeekday {
    /// The weekday of a date.
    pub fn from_datelike(date: &CalendarDate) -> (r: Self)
        requires
            date.wf(),
        ensures
            weekday_index(r) == date.spec_weekday(),
    {
        let n = date.weekday();
        JapaneseWeekday::from_usize(n as usize).unwrap()
    }

    /// The weekday with the given name, or `None` where no weekday has it.
    pub fn from_str(name: &str) -> (r: Option<Self>)
        ensures
            r matches Some(w) ==> weekday_name(w) == name@,
            r is None ==> forall|w: JapaneseWeekday| weekday_name(w) != name@,
    {
        let mut i: usize = 1;
        while i <= 7
            invariant
                1 <= i <= 8,
                forall|w: JapaneseWeekday| weekday_index(w) < i ==> weekday_name(w) != name@,
            decreases 8 - i,
        {
            if let Some(w) = JapaneseWeekday::from_usize(i) {
                if str_equal(w.to_str(), name) {
                    return Some(w);
                }
            }
            i = i + 1;
        }
        None
    }

    /// The weekday at position `num` of the week (1 for Monday up to 7 for
    /// Sunday), or `None` outside 1 to 7.
    pub fn from_usize(num: usize) -> (r: Option<Self>)
        ensures
            r is Some <==> 1 <= num <= 7,
            r matches Some(w) ==> weekday_index(w) == num,
    {
        match num {
            1 => Some(JapaneseWeekday::Getsu),
            2 => Some(JapaneseWeekday::Ka),
            3 => Some(JapaneseWeekday::Sui),
            4 => Some(JapaneseWeekday::Moku),
            5 => Some(JapaneseWeekday::Kin),
            6 => Some(JapaneseWeekday::Do),
            7 => Some(JapaneseWeekday::Nichi),
            _ => None,
        }
    }

    /// The weekday's Japanese name.
    pub fn to_str(&self) -> (r: &'static str)
        ensures
            r@ == weekday_name(*self),
    {
        match self {
            JapaneseWeekday::Getsu => "月",
            JapaneseWeekday::Ka => "火",
            JapaneseWeekday::Sui => "水",
            JapaneseWeekday::Moku => "木",
            JapaneseWeekday::Kin => "金",
            JapaneseWeekday::Do => "土",
            JapaneseWeekday::Nichi => "日",
        }
    }

    /// The weekday's position in the week, from 1 for Monday to 7 for Sunday.
    pub fn to_usize(&self) -> (r: usize)
        ensures
            r == weekday_index(*self),
    {
        match self {
            JapaneseWeekday::Getsu => 1,
            JapaneseWeekday::Ka => 2,
            JapaneseWeekday::Sui => 3,
            JapaneseWeekday::Moku => 4,
            JapaneseWeekday::Kin => 5,
            JapaneseWeekday::Do => 6,
            JapaneseWeekday::Nichi => 7,
        }
    }
}

} // verus!
