//! The ten heavenly stems (十干), the twelve earthly branches (十二支) and
//! the sixty combinations of the sexagenary cycle (六十干支).
use crate::date::{floor_div, CalendarDate};
use crate::text::str_equal;
use vstd::prelude::*;

verus! {

// ---------------------------------------------------------------------------
// Heavenly stems
// ---------------------------------------------------------------------------

/// One of the ten heavenly stems.
#[derive(Clone, Copy, Debug, PartialEq, Eq, Structural, PartialOrd, Ord)]
pub enum HeavenlyStem {
    /// 甲
    Kinoe,
    /// 乙
    Kinoto,
    /// 丙
    Hinoe,
    /// 丁
    Hinoto,
    /// 戊
    Tsuchinoe,
    /// 己
    Tsuchinoto,
    /// 庚
    Kanoe,
    /// 辛
    Kanoto,
    /// 壬
    Mizunoe,
    /// 癸
    Mizunoto,
}

/// The position of a stem in the cycle of ten, from 1 for 甲.
pub open spec fn stem_index(s: HeavenlyStem) -> int {
    match s {
        HeavenlyStem::Kinoe => 1,
        HeavenlyStem::Kinoto => 2,
        HeavenlyStem::Hinoe => 3,
        HeavenlyStem::Hinoto => 4,
        HeavenlyStem::Tsuchinoe => 5,
        HeavenlyStem::Tsuchinoto => 6,
        HeavenlyStem::Kanoe => 7,
        HeavenlyStem::Kanoto => 8,
        HeavenlyStem::Mizunoe => 9,
        HeavenlyStem::Mizunoto => 10,
    }
}

/// The one-character name of a stem.
pub open spec fn stem_name(s: HeavenlyStem) -> Seq<char> {
    match s {
        HeavenlyStem::Kinoe => "甲"@,
        HeavenlyStem::Kinoto => "乙"@,
        HeavenlyStem::Hinoe => "丙"@,
        HeavenlyStem::Hinoto => "丁"@,
        HeavenlyStem::Tsuchinoe => "戊"@,
        HeavenlyStem::Tsuchinoto => "己"@,
        HeavenlyStem::Kanoe => "庚"@,
        HeavenlyStem::Kanoto => "辛"@,
        HeavenlyStem::Mizunoe => "壬"@,
        HeavenlyStem::Mizunoto => "癸"@,
    }
}

/// The part of the day count of a stem that the parity of the year gives.
pub open spec fn stem_year_offset(y: int) -> int {
    if y % 2 == 0 {
        0
    } else {
        5
    }
}

/// The part of the day count of a stem that the month gives: 9, 0, 8, 9, 9,
/// 0, 0, 1, 2, 2, 3, 3 for January to December.
pub open spec fn stem_month_offset(m: int) -> int {
    if m == 2 || m == 6 || m == 7 {
        0
    } else if m == 8 {
        1
    } else if m == 9 || m == 10 {
        2
    } else if m == 11 || m == 12 {
        3
    } else if m == 3 {
        8
    } else {
        9
    }
}

/// The leap days that the day count of a stem adds for `(y, m)`: those of
/// the years up to `y` (up to `y - 1` in January and February).
pub open spec fn stem_leap_days(y: int, m: int) -> int {
    let ly: int = if m <= 2 {
        y - 1
    } else {
        y
    };
    ly / 4 - ly / 100 + (ly / 4) / 100
}

/// The position (1 to 10) of the stem of the day `(y, m, d)`: the day count
/// `stem_year_offset(y) + stem_leap_days(y, m) + stem_month_offset(m) + d`,
/// taken modulo 10.
pub open spec fn day_stem_index(y: int, m: int, d: int) -> int {
    (stem_year_offset(y) + stem_leap_days(y, m) + stem_month_offset(m) + d) % 10 + 1
}

/// See `stem_month_offset`.
fn month_offset(m: u32) -> (r: i64)
    ensures
        r == stem_month_offset(m as int),
{
    if m == 2 || m == 6 || m == 7 {
        0
    } else if m == 8 {
        1
    } else if m == 9 || m == 10 {
        2
    } else if m == 11 || m == 12 {
        3
    } else if m == 3 {
        8
    } else {
        9
    }
}

/// See `stem_leap_days`.
fn leap_days(y: i32, m: u32) -> (r: i64)
    ensures
        r == stem_leap_days(y as int, m as int),
{
    let ly: i64 = if m <= 2 {
        y as i64 - 1
    } else {
        y as i64
    };
    let leap4 = floor_div(ly, 4);
    let leap100 = floor_div(ly, 100);
    let leap400 = floor_div(leap4, 100);
    proof {
        vstd::arithmetic::div_mod::lemma_fundamental_div_mod(ly as int, 4);
        vstd::arithmetic::div_mod::lemma_fundamental_div_mod(ly as int, 100);
        vstd::arithmetic::div_mod::lemma_mod_bound(ly as int, 4);
        vstd::arithmetic::div_mod::lemma_mod_bound(ly as int, 100);
    }
    leap4 - leap100 + leap400
}

impl HeavenlyStem {
    /// The heavenly stem of the day of a date.
    #[verifier::spinoff_prover]
    pub fn from_datelike(date: &CalendarDate) -> (r: Self)
        requires
            date.wf(),
        ensures
            stem_index(r) == day_stem_index(date.year as int, date.month as int, date.day as int),
    {
        let year_part: i64 = if date.year % 2 == 0 {
            0
        } else {
            5
        };
        let total: i64 = year_part + leap_days(date.year, date.month) + month_offset(date.month)
            + date.day as i64;
        let index = total - 10 * floor_div(total, 10);
        proof {
            vstd::arithmetic::div_mod::lemma_fundamental_div_mod(total as int, 10);
            vstd::arithmetic::div_mod::lemma_mod_bound(total as int, 10);
            assert(year_part == stem_year_offset(date.year as int));
        }
        HeavenlyStem::from_usize((index + 1) as usize).unwrap()
    }

    /// The stem with the given name, or `None` where no stem has it.
    pub fn from_str(name: &str) -> (r: Option<Self>)
        ensures
            r matches Some(s) ==> stem_name(s) == name@,
            r is None ==> forall|s: HeavenlyStem| stem_name(s) != name@,
    {
        let mut i: usize = 1;
        while i <= 10
            invariant
                1 <= i <= 11,
                forall|s: HeavenlyStem| stem_index(s) < i ==> stem_name(s) != name@,
            decreases 11 - i,
        {
            if let Some(s) = HeavenlyStem::from_usize(i) {
                if str_equal(s.to_str(), name) {
                    return Some(s);
                }
            }
            i = i + 1;
        }
        None
    }

    /// The stem at position `num` (1 to 10), or `None` outside that range.
    pub fn from_usize(num: usize) -> (r: Option<Self>)
        ensures
            r is Some <==> 1 <= num <= 10,
            r matches Some(s) ==> stem_index(s) == num,
    {
        match num {
            1 => Some(HeavenlyStem::Kinoe),
            2 => Some(HeavenlyStem::Kinoto),
            3 => Some(HeavenlyStem::Hinoe),
            4 => Some(HeavenlyStem::Hinoto),
            5 => Some(HeavenlyStem::Tsuchinoe),
            6 => Some(HeavenlyStem::Tsuchinoto),
            7 => Some(HeavenlyStem::Kanoe),
            8 => Some(HeavenlyStem::Kanoto),
            9 => Some(HeavenlyStem::Mizunoe),
            10 => Some(HeavenlyStem::Mizunoto),
            _ => None,
        }
    }

    /// The stem's name.
    pub fn to_str(&self) -> (r: &'static str)
        ensures
            r@ == stem_name(*self),
    {
        match self {
            HeavenlyStem::Kinoe => "甲",
            HeavenlyStem::Kinoto => "乙",
            HeavenlyStem::Hinoe => "丙",
            HeavenlyStem::Hinoto => "丁",
            HeavenlyStem::Tsuchinoe => "戊",
            HeavenlyStem::Tsuchinoto => "己",
            HeavenlyStem::Kanoe => "庚",
            HeavenlyStem::Kanoto => "辛",
            HeavenlyStem::Mizunoe => "壬",
            HeavenlyStem::Mizunoto => "癸",
        }
    }

    /// The stem's position, from 1 for 甲 to 10 for 癸.
    pub fn to_usize(&self) -> (r: usize)
        ensures
            r == stem_index(*self),
    {
        match self {
            HeavenlyStem::Kinoe => 1,
            HeavenlyStem::Kinoto => 2,
            HeavenlyStem::Hinoe => 3,
            HeavenlyStem::Hinoto => 4,
            HeavenlyStem::Tsuchinoe => 5,
            HeavenlyStem::Tsuchinoto => 6,
            HeavenlyStem::Kanoe => 7,
            HeavenlyStem::Kanoto => 8,
            HeavenlyStem::Mizunoe => 9,
            HeavenlyStem::Mizunoto => 10,
        }
    }
}

// ---------------------------------------------------------------------------
// Earthly branches
// ---------------------------------------------------------------------------

/// One of the twelve earthly branches, the animals of the Japanese zodiac.
#[derive(Clone, Copy, Debug, PartialEq, Eq, Structural, PartialOrd, Ord)]
pub enum JapaneseZodiac {
    /// 子
    Ne,
    /// 丑
    Ushi,
    /// 寅
    Tora,
    /// 卯
    Wu,
    /// 辰
    Tatsu,
    /// 巳
    Mi,
    /// 午
    Uma,
    /// 未
    Hitsuji,
    /// 申
    Saru,
    /// 酉
    Tori,
    /// 戌
    Inu,
    /// 亥
    Yi,
}

/// The position of a branch in the cycle of twelve, from 1 for 子.
pub open spec fn zodiac_index(z: JapaneseZodiac) -> int {
    match z {
        JapaneseZodiac::Ne => 1,
        JapaneseZodiac::Ushi => 2,
        JapaneseZodiac::Tora => 3,
        JapaneseZodiac::Wu => 4,
        JapaneseZodiac::Tatsu => 5,
        JapaneseZodiac::Mi => 6,
        JapaneseZodiac::Uma => 7,
        JapaneseZodiac::Hitsuji => 8,
        JapaneseZodiac::Saru => 9,
        JapaneseZodiac::Tori => 10,
        JapaneseZodiac::Inu => 11,
        JapaneseZodiac::Yi => 12,
    }
}

/// The one-character name of a branch.
pub open spec fn zodiac_name(z: JapaneseZodiac) -> Seq<char> {
    match z {
        JapaneseZodiac::Ne => "子"@,
        JapaneseZodiac::Ushi => "丑"@,
        JapaneseZodiac::Tora => "寅"@,
        JapaneseZodiac::Wu => "卯"@,
        JapaneseZodiac::Tatsu => "辰"@,
        JapaneseZodiac::Mi => "巳"@,
        JapaneseZodiac::Uma => "午"@,
        JapaneseZodiac::Hitsuji => "未"@,
        JapaneseZodiac::Saru => "申"@,
        JapaneseZodiac::Tori => "酉"@,
        JapaneseZodiac::Inu => "戌"@,
        JapaneseZodiac::Yi => "亥"@,
    }
}

/// The position (1 to 12) of the branch of year `y`: `(y + 9) mod 12`, with
/// 12 in place of 0 (2020 is the year of 子).
pub open spec fn year_zodiac_index(y: int) -> int {
    if (y + 9) % 12 == 0 {
        12
    } else {
        (y + 9) % 12
    }
}

impl JapaneseZodiac {
    /// The earthly branch of the year of a date.
    pub fn from_datelike(date: &CalendarDate) -> (r: Self)
        requires
            date.wf(),
        ensures
            zodiac_index(r) == year_zodiac_index(date.year as int),
    {
        let n: i64 = date.year as i64 + 9;
        let rem = n - 12 * floor_div(n, 12);
        proof {
            vstd::arithmetic::div_mod::lemma_fundamental_div_mod(n as int, 12);
            vstd::arithmetic::div_mod::lemma_mod_bound(n as int, 12);
        }
        let index: usize = if rem == 0 {
            12
        } else {
            rem as usize
        };
        JapaneseZodiac::from_usize(index).unwrap()
    }

    /// The branch with the given name, or `None` where no branch has it.
    pub fn from_str(name: &str) -> (r: Option<Self>)
        ensures
            r matches Some(z) ==> zodiac_name(z) == name@,
            r is None ==> forall|z: JapaneseZodiac| zodiac_name(z) != name@,
    {
        let mut i: usize = 1;
        while i <= 12
            invariant
                1 <= i <= 13,
                forall|z: JapaneseZodiac| zodiac_index(z) < i ==> zodiac_name(z) != name@,
            decreases 13 - i,
        {
            if let Some(z) = JapaneseZodiac::from_usize(i) {
                if str_equal(z.to_str(), name) {
                    return Some(z);
                }
            }
            i = i + 1;
        }
        None
    }

    /// The branch at position `num` (1 to 12), or `None` outside that range.
    pub fn from_usize(num: usize) -> (r: Option<Self>)
        ensures
            r is Some <==> 1 <= num <= 12,
            r matches Some(z) ==> zodiac_index(z) == num,
    {
        match num {
            1 => Some(JapaneseZodiac::Ne),
            2 => Some(JapaneseZodiac::Ushi),
            3 => Some(JapaneseZodiac::Tora),
            4 => Some(JapaneseZodiac::Wu),
            5 => Some(JapaneseZodiac::Tatsu),
            6 => Some(JapaneseZodiac::Mi),
            7 => Some(JapaneseZodiac::Uma),
            8 => Some(JapaneseZodiac::Hitsuji),
            9 => Some(JapaneseZodiac::Saru),
            10 => Some(JapaneseZodiac::Tori),
            11 => Some(JapaneseZodiac::Inu),
            12 => Some(JapaneseZodiac::Yi),
            _ => None,
        }
    }

    /// The branch's name.
    pub fn to_str(&self) -> (r: &'static str)
        ensures
            r@ == zodiac_name(*self),
    {
        match self {
            JapaneseZodiac::Ne => "子",
            JapaneseZodiac::Ushi => "丑",
            JapaneseZodiac::Tora => "寅",
            JapaneseZodiac::Wu => "卯",
            JapaneseZodiac::Tatsu => "辰",
            JapaneseZodiac::Mi => "巳",
            JapaneseZodiac::Uma => "午",
            JapaneseZodiac::Hitsuji => "未",
            JapaneseZodiac::Saru => "申",
            JapaneseZodiac::Tori => "酉",
            JapaneseZodiac::Inu => "戌",
            JapaneseZodiac::Yi => "亥",
        }
    }

    /// The branch's position, from 1 for 子 to 12 for 亥.
    pub fn to_usize(&self) -> (r: usize)
        ensures
            r == zodiac_index(*self),
    {
        match self {
            JapaneseZodiac::Ne => 1,
            JapaneseZodiac::Ushi => 2,
            JapaneseZodiac::Tora => 3,
            JapaneseZodiac::Wu => 4,
            JapaneseZodiac::Tatsu => 5,
            JapaneseZodiac::Mi => 6,
            JapaneseZodiac::Uma => 7,
            JapaneseZodiac::Hitsuji => 8,
            JapaneseZodiac::Saru => 9,
            JapaneseZodiac::Tori => 10,
            JapaneseZodiac::Inu => 11,
            JapaneseZodiac::Yi => 12,
        }
    }
}

// ---------------------------------------------------------------------------
// The sexagenary cycle
// ---------------------------------------------------------------------------

/// The stem at position `n` (1 to 10) of the cycle of ten.
pub open spec fn stem_at(n: int) -> HeavenlyStem {
    if n == 1 {
        HeavenlyStem::Kinoe
    } else if n == 2 {
        HeavenlyStem::Kinoto
    } else if n == 3 {
        HeavenlyStem::Hinoe
    } else if n == 4 {
        HeavenlyStem::Hinoto
    } else if n == 5 {
        HeavenlyStem::Tsuchinoe
    } else if n == 6 {
        HeavenlyStem::Tsuchinoto
    } else if n == 7 {
        HeavenlyStem::Kanoe
    } else if n == 8 {
        HeavenlyStem::Kanoto
    } else if n == 9 {
        HeavenlyStem::Mizunoe
    } else {
        HeavenlyStem::Mizunoto
    }
}

/// The branch at position `n` (1 to 12) of the cycle of twelve.
pub open spec fn zodiac_at(n: int) -> JapaneseZodiac {
    if n == 1 {
        JapaneseZodiac::Ne
    } else if n == 2 {
        JapaneseZodiac::Ushi
    } else if n == 3 {
        JapaneseZodiac::Tora
    } else if n == 4 {
        JapaneseZodiac::Wu
    } else if n == 5 {
        JapaneseZodiac::Tatsu
    } else if n == 6 {
        JapaneseZodiac::Mi
    } else if n == 7 {
        JapaneseZodiac::Uma
    } else if n == 8 {
        JapaneseZodiac::Hitsuji
    } else if n == 9 {
        JapaneseZodiac::Saru
    } else if n == 10 {
        JapaneseZodiac::Tori
    } else if n == 11 {
        JapaneseZodiac::Inu
    } else {
        JapaneseZodiac::Yi
    }
}

/// One of the sixty stem-branch pairs of the sexagenary cycle.
#[derive(Clone, Copy, Debug, PartialEq, Eq, Structural, PartialOrd, Ord)]
pub enum SexagenaryCycle {
    /// 甲子
    KinoeNe,
    /// 乙丑
    KinotoUshi,
    /// 丙寅
    HinoeTora,
    /// 丁卯
    HinotoWu,
    /// 戊辰
    TsuchinoeTatsu,
    /// 己巳
    TsuchinotoMi,
    /// 庚午
    KanoeUma,
    /// 辛未
    KanotoHitsuji,
    /// 壬申
    MizunoeSaru,
    /// 癸酉
    MizunotoTori,
    /// 甲戌
    KinoeInu,
    /// 乙亥
    KinotoYi,
    /// 丙子
    HinoeNe,
    /// 丁丑
    HinotoUshi,
    /// 戊寅
    TsuchinoeTora,
    /// 己卯
    TsuchinotoWu,
    /// 庚辰
    KanoeTatsu,
    /// 辛巳
    KanotoMi,
    /// 壬午
    MizunoeUma,
    /// 癸未
    MizunotoHitsuji,
    /// 甲申
    KinoeSaru,
    /// 乙酉
    KinotoTori,
    /// 丙戌
    HinoeInu,
    /// 丁亥
    HinotoYi,
    /// 戊子
    TsuchinoeNe,
    /// 己丑
    TsuchinotoUshi,
    /// 庚寅
    KanoeTora,
    /// 辛卯
    KanotoWu,
    /// 壬辰
    MizunoeTatsu,
    /// 癸巳
    MizunotoMi,
    /// 甲午
    KinoeUma,
    /// 乙未
    KinotoHitsuji,
    /// 丙申
    HinoeSaru,
    /// 丁酉
    HinotoTori,
    /// 戊戌
    TsuchinoeInu,
    /// 己亥
    TsuchinotoYi,
    /// 庚子
    KanoeNe,
    /// 辛丑
    KanotoUshi,
    /// 壬寅
    MizunoeTora,
    /// 癸卯
    MizunotoWu,
    /// 甲辰
    KinoeTatsu,
    /// 乙巳
    KinotoMi,
    /// 丙午
    HinoeUma,
    /// 丁未
    HinotoHitsuji,
    /// 戊申
    TsuchinoeSaru,
    /// 己酉
    TsuchinotoTori,
    /// 庚戌
    KanoeInu,
    /// 辛亥
    KanotoYi,
    /// 壬子
    MizunoeNe,
    /// 癸丑
    MizunotoUshi,
    /// 甲寅
    KinoeTora,
    /// 乙卯
    KinotoWu,
    /// 丙辰
    HinoeTatsu,
    /// 丁巳
    HinotoMi,
    /// 戊午
    TsuchinoeUma,
    /// 己未
    TsuchinotoHitsuji,
    /// 庚申
    KanoeSaru,
    /// 辛酉
    KanotoTori,
    /// 壬戌
    MizunoeInu,
    /// 癸亥
    MizunotoYi,
}

/// The position of a pair in the cycle of sixty, from 1 for 甲子.
pub open spec fn cycle_index(c: SexagenaryCycle) -> int {
    match c {
        SexagenaryCycle::KinoeNe => 1,
        SexagenaryCycle::KinotoUshi => 2,
        SexagenaryCycle::HinoeTora => 3,
        SexagenaryCycle::HinotoWu => 4,
        SexagenaryCycle::TsuchinoeTatsu => 5,
        SexagenaryCycle::TsuchinotoMi => 6,
        SexagenaryCycle::KanoeUma => 7,
        SexagenaryCycle::KanotoHitsuji => 8,
        SexagenaryCycle::MizunoeSaru => 9,
        SexagenaryCycle::MizunotoTori => 10,
        SexagenaryCycle::KinoeInu => 11,
        SexagenaryCycle::KinotoYi => 12,
        SexagenaryCycle::HinoeNe => 13,
        SexagenaryCycle::HinotoUshi => 14,
        SexagenaryCycle::TsuchinoeTora => 15,
        SexagenaryCycle::TsuchinotoWu => 16,
        SexagenaryCycle::KanoeTatsu => 17,
        SexagenaryCycle::KanotoMi => 18,
        SexagenaryCycle::MizunoeUma => 19,
        SexagenaryCycle::MizunotoHitsuji => 20,
        SexagenaryCycle::KinoeSaru => 21,
        SexagenaryCycle::KinotoTori => 22,
        SexagenaryCycle::HinoeInu => 23,
        SexagenaryCycle::HinotoYi => 24,
        SexagenaryCycle::TsuchinoeNe => 25,
        SexagenaryCycle::TsuchinotoUshi => 26,
        SexagenaryCycle::KanoeTora => 27,
        SexagenaryCycle::KanotoWu => 28,
        SexagenaryCycle::MizunoeTatsu => 29,
        SexagenaryCycle::MizunotoMi => 30,
        SexagenaryCycle::KinoeUma => 31,
        SexagenaryCycle::KinotoHitsuji => 32,
        SexagenaryCycle::HinoeSaru => 33,
        SexagenaryCycle::HinotoTori => 34,
        SexagenaryCycle::TsuchinoeInu => 35,
        SexagenaryCycle::TsuchinotoYi => 36,
        SexagenaryCycle::KanoeNe => 37,
        SexagenaryCycle::KanotoUshi => 38,
        SexagenaryCycle::MizunoeTora => 39,
        SexagenaryCycle::MizunotoWu => 40,
        SexagenaryCycle::KinoeTatsu => 41,
        SexagenaryCycle::KinotoMi => 42,
        SexagenaryCycle::HinoeUma => 43,
        SexagenaryCycle::HinotoHitsuji => 44,
        SexagenaryCycle::TsuchinoeSaru => 45,
        SexagenaryCycle::TsuchinotoTori => 46,
        SexagenaryCycle::KanoeInu => 47,
        SexagenaryCycle::KanotoYi => 48,
        SexagenaryCycle::MizunoeNe => 49,
        SexagenaryCycle::MizunotoUshi => 50,
        SexagenaryCycle::KinoeTora => 51,
        SexagenaryCycle::KinotoWu => 52,
        SexagenaryCycle::HinoeTatsu => 53,
        SexagenaryCycle::HinotoMi => 54,
        SexagenaryCycle::TsuchinoeUma => 55,
        SexagenaryCycle::TsuchinotoHitsuji => 56,
        SexagenaryCycle::KanoeSaru => 57,
        SexagenaryCycle::KanotoTori => 58,
        SexagenaryCycle::MizunoeInu => 59,
        SexagenaryCycle::MizunotoYi => 60,
    }
}

/// The position (1 to 10) of the stem of a pair: the stems advance one step
/// with each pair.
pub open spec fn cycle_stem_index(c: SexagenaryCycle) -> int {
    (cycle_index(c) - 1) % 10 + 1
}

/// The position (1 to 12) of the branch of a pair: the branches advance one
/// step with each pair.
pub open spec fn cycle_zodiac_index(c: SexagenaryCycle) -> int {
    (cycle_index(c) - 1) % 12 + 1
}

/// The name of a pair: the name of its stem followed by that of its branch.
pub open spec fn cycle_name(c: SexagenaryCycle) -> Seq<char> {
    stem_name(stem_at(cycle_stem_index(c))) + zodiac_name(zodiac_at(cycle_zodiac_index(c)))
}

/// The name of each pair as written.
spec fn cycle_literal(c: SexagenaryCycle) -> Seq<char> {
    match c {
        SexagenaryCycle::KinoeNe => "甲子"@,
        SexagenaryCycle::KinotoUshi => "乙丑"@,
        SexagenaryCycle::HinoeTora => "丙寅"@,
        SexagenaryCycle::HinotoWu => "丁卯"@,
        SexagenaryCycle::TsuchinoeTatsu => "戊辰"@,
        SexagenaryCycle::TsuchinotoMi => "己巳"@,
        SexagenaryCycle::KanoeUma => "庚午"@,
        SexagenaryCycle::KanotoHitsuji => "辛未"@,
        SexagenaryCycle::MizunoeSaru => "壬申"@,
        SexagenaryCycle::MizunotoTori => "癸酉"@,
        SexagenaryCycle::KinoeInu => "甲戌"@,
        SexagenaryCycle::KinotoYi => "乙亥"@,
        SexagenaryCycle::HinoeNe => "丙子"@,
        SexagenaryCycle::HinotoUshi => "丁丑"@,
        SexagenaryCycle::TsuchinoeTora => "戊寅"@,
        SexagenaryCycle::TsuchinotoWu => "己卯"@,
        SexagenaryCycle::KanoeTatsu => "庚辰"@,
        SexagenaryCycle::KanotoMi => "辛巳"@,
        SexagenaryCycle::MizunoeUma => "壬午"@,
        SexagenaryCycle::MizunotoHitsuji => "癸未"@,
        SexagenaryCycle::KinoeSaru => "甲申"@,
        SexagenaryCycle::KinotoTori => "乙酉"@,
        SexagenaryCycle::HinoeInu => "丙戌"@,
        SexagenaryCycle::HinotoYi => "丁亥"@,
        SexagenaryCycle::TsuchinoeNe => "戊子"@,
        SexagenaryCycle::TsuchinotoUshi => "己丑"@,
        SexagenaryCycle::KanoeTora => "庚寅"@,
        SexagenaryCycle::KanotoWu => "辛卯"@,
        SexagenaryCycle::MizunoeTatsu => "壬辰"@,
        SexagenaryCycle::MizunotoMi => "癸巳"@,
        SexagenaryCycle::KinoeUma => "甲午"@,
        SexagenaryCycle::KinotoHitsuji => "乙未"@,
        SexagenaryCycle::HinoeSaru => "丙申"@,
        SexagenaryCycle::HinotoTori => "丁酉"@,
        SexagenaryCycle::TsuchinoeInu => "戊戌"@,
        SexagenaryCycle::TsuchinotoYi => "己亥"@,
        SexagenaryCycle::KanoeNe => "庚子"@,
        SexagenaryCycle::KanotoUshi => "辛丑"@,
        SexagenaryCycle::MizunoeTora => "壬寅"@,
        SexagenaryCycle::MizunotoWu => "癸卯"@,
        SexagenaryCycle::KinoeTatsu => "甲辰"@,
        SexagenaryCycle::KinotoMi => "乙巳"@,
        SexagenaryCycle::HinoeUma => "丙午"@,
        SexagenaryCycle::HinotoHitsuji => "丁未"@,
        SexagenaryCycle::TsuchinoeSaru => "戊申"@,
        SexagenaryCycle::TsuchinotoTori => "己酉"@,
        SexagenaryCycle::KanoeInu => "庚戌"@,
        SexagenaryCycle::KanotoYi => "辛亥"@,
        SexagenaryCycle::MizunoeNe => "壬子"@,
        SexagenaryCycle::MizunotoUshi => "癸丑"@,
        SexagenaryCycle::KinoeTora => "甲寅"@,
        SexagenaryCycle::KinotoWu => "乙卯"@,
        SexagenaryCycle::HinoeTatsu => "丙辰"@,
        SexagenaryCycle::HinotoMi => "丁巳"@,
        SexagenaryCycle::TsuchinoeUma => "戊午"@,
        SexagenaryCycle::TsuchinotoHitsuji => "己未"@,
        SexagenaryCycle::KanoeSaru => "庚申"@,
        SexagenaryCycle::KanotoTori => "辛酉"@,
        SexagenaryCycle::MizunoeInu => "壬戌"@,
        SexagenaryCycle::MizunotoYi => "癸亥"@,
    }
}

/// The written names of pairs 1 to 10 join a stem and a branch.
#[verifier::spinoff_prover]
proof fn lemma_cycle_literal_is_name_0(c: SexagenaryCycle)
    requires
        1 <= cycle_index(c) <= 10,
    ensures
        cycle_literal(c) == cycle_name(c),
{
    match c {
        SexagenaryCycle::KinoeNe => {
            reveal_strlit("甲子");
            reveal_strlit("甲");
            reveal_strlit("子");
            assert("甲子"@ =~= "甲"@ + "子"@);
        },
        SexagenaryCycle::KinotoUshi => {
            reveal_strlit("乙丑");
            reveal_strlit("乙");
            reveal_strlit("丑");
            assert("乙丑"@ =~= "乙"@ + "丑"@);
        },
        SexagenaryCycle::HinoeTora => {
            reveal_strlit("丙寅");
            reveal_strlit("丙");
            reveal_strlit("寅");
            assert("丙寅"@ =~= "丙"@ + "寅"@);
        },
        SexagenaryCycle::HinotoWu => {
            reveal_strlit("丁卯");
            reveal_strlit("丁");
            reveal_strlit("卯");
            assert("丁卯"@ =~= "丁"@ + "卯"@);
        },
        SexagenaryCycle::TsuchinoeTatsu => {
            reveal_strlit("戊辰");
            reveal_strlit("戊");
            reveal_strlit("辰");
            assert("戊辰"@ =~= "戊"@ + "辰"@);
        },
        SexagenaryCycle::TsuchinotoMi => {
            reveal_strlit("己巳");
            reveal_strlit("己");
            reveal_strlit("巳");
            assert("己巳"@ =~= "己"@ + "巳"@);
        },
        SexagenaryCycle::KanoeUma => {
            reveal_strlit("庚午");
            reveal_strlit("庚");
            reveal_strlit("午");
            assert("庚午"@ =~= "庚"@ + "午"@);
        },
        SexagenaryCycle::KanotoHitsuji => {
            reveal_strlit("辛未");
            reveal_strlit("辛");
            reveal_strlit("未");
            assert("辛未"@ =~= "辛"@ + "未"@);
        },
        SexagenaryCycle::MizunoeSaru => {
            reveal_strlit("壬申");
            reveal_strlit("壬");
            reveal_strlit("申");
            assert("壬申"@ =~= "壬"@ + "申"@);
        },
        SexagenaryCycle::MizunotoTori => {
            reveal_strlit("癸酉");
            reveal_strlit("癸");
            reveal_strlit("酉");
            assert("癸酉"@ =~= "癸"@ + "酉"@);
        },
        _ => {},
    }
}

/// The written names of pairs 11 to 20 join a stem and a branch.
#[verifier::spinoff_prover]
proof fn lemma_cycle_literal_is_name_1(c: SexagenaryCycle)
    requires
        11 <= cycle_index(c) <= 20,
    ensures
        cycle_literal(c) == cycle_name(c),
{
    match c {
        SexagenaryCycle::KinoeInu => {
            reveal_strlit("甲戌");
            reveal_strlit("甲");
            reveal_strlit("戌");
            assert("甲戌"@ =~= "甲"@ + "戌"@);
        },
        SexagenaryCycle::KinotoYi => {
            reveal_strlit("乙亥");
            reveal_strlit("乙");
            reveal_strlit("亥");
            assert("乙亥"@ =~= "乙"@ + "亥"@);
        },
        SexagenaryCycle::HinoeNe => {
            reveal_strlit("丙子");
            reveal_strlit("丙");
            reveal_strlit("子");
            assert("丙子"@ =~= "丙"@ + "子"@);
        },
        SexagenaryCycle::HinotoUshi => {
            reveal_strlit("丁丑");
            reveal_strlit("丁");
            reveal_strlit("丑");
            assert("丁丑"@ =~= "丁"@ + "丑"@);
        },
        SexagenaryCycle::TsuchinoeTora => {
            reveal_strlit("戊寅");
            reveal_strlit("戊");
            reveal_strlit("寅");
            assert("戊寅"@ =~= "戊"@ + "寅"@);
        },
        SexagenaryCycle::TsuchinotoWu => {
            reveal_strlit("己卯");
            reveal_strlit("己");
            reveal_strlit("卯");
            assert("己卯"@ =~= "己"@ + "卯"@);
        },
        SexagenaryCycle::KanoeTatsu => {
            reveal_strlit("庚辰");
            reveal_strlit("庚");
            reveal_strlit("辰");
            assert("庚辰"@ =~= "庚"@ + "辰"@);
        },
        SexagenaryCycle::KanotoMi => {
            reveal_strlit("辛巳");
            reveal_strlit("辛");
            reveal_strlit("巳");
            assert("辛巳"@ =~= "辛"@ + "巳"@);
        },
        SexagenaryCycle::MizunoeUma => {
            reveal_strlit("壬午");
            reveal_strlit("壬");
            reveal_strlit("午");
            assert("壬午"@ =~= "壬"@ + "午"@);
        },
        SexagenaryCycle::MizunotoHitsuji => {
            reveal_strlit("癸未");
            reveal_strlit("癸");
            reveal_strlit("未");
            assert("癸未"@ =~= "癸"@ + "未"@);
        },
        _ => {},
    }
}

/// The written names of pairs 21 to 30 join a stem and a branch.
#[verifier::spinoff_prover]
proof fn lemma_cycle_literal_is_name_2(c: SexagenaryCycle)
    requires
        21 <= cycle_index(c) <= 30,
    ensures
        cycle_literal(c) == cycle_name(c),
{
    match c {
        SexagenaryCycle::KinoeSaru => {
            reveal_strlit("甲申");
            reveal_strlit("甲");
            reveal_strlit("申");
            assert("甲申"@ =~= "甲"@ + "申"@);
        },
        SexagenaryCycle::KinotoTori => {
            reveal_strlit("乙酉");
            reveal_strlit("乙");
            reveal_strlit("酉");
            assert("乙酉"@ =~= "乙"@ + "酉"@);
        },
        SexagenaryCycle::HinoeInu => {
            reveal_strlit("丙戌");
            reveal_strlit("丙");
            reveal_strlit("戌");
            assert("丙戌"@ =~= "丙"@ + "戌"@);
        },
        SexagenaryCycle::HinotoYi => {
            reveal_strlit("丁亥");
            reveal_strlit("丁");
            reveal_strlit("亥");
            assert("丁亥"@ =~= "丁"@ + "亥"@);
        },
        SexagenaryCycle::TsuchinoeNe => {
            reveal_strlit("戊子");
            reveal_strlit("戊");
            reveal_strlit("子");
            assert("戊子"@ =~= "戊"@ + "子"@);
        },
        SexagenaryCycle::TsuchinotoUshi => {
            reveal_strlit("己丑");
            reveal_strlit("己");
            reveal_strlit("丑");
            assert("己丑"@ =~= "己"@ + "丑"@);
        },
        SexagenaryCycle::KanoeTora => {
            reveal_strlit("庚寅");
            reveal_strlit("庚");
            reveal_strlit("寅");
            assert("庚寅"@ =~= "庚"@ + "寅"@);
        },
        SexagenaryCycle::KanotoWu => {
            reveal_strlit("辛卯");
            reveal_strlit("辛");
            reveal_strlit("卯");
            assert("辛卯"@ =~= "辛"@ + "卯"@);
        },
        SexagenaryCycle::MizunoeTatsu => {
            reveal_strlit("壬辰");
            reveal_strlit("壬");
            reveal_strlit("辰");
            assert("壬辰"@ =~= "壬"@ + "辰"@);
        },
        SexagenaryCycle::MizunotoMi => {
            reveal_strlit("癸巳");
            reveal_strlit("癸");
            reveal_strlit("巳");
            assert("癸巳"@ =~= "癸"@ + "巳"@);
        },
        _ => {},
    }
}

/// The written names of pairs 31 to 40 join a stem and a branch.
#[verifier::spinoff_prover]
proof fn lemma_cycle_literal_is_name_3(c: SexagenaryCycle)
    requires
        31 <= cycle_index(c) <= 40,
    ensures
        cycle_literal(c) == cycle_name(c),
{
    match c {
        SexagenaryCycle::KinoeUma => {
            reveal_strlit("甲午");
            reveal_strlit("甲");
            reveal_strlit("午");
            assert("甲午"@ =~= "甲"@ + "午"@);
        },
        SexagenaryCycle::KinotoHitsuji => {
            reveal_strlit("乙未");
            reveal_strlit("乙");
            reveal_strlit("未");
            assert("乙未"@ =~= "乙"@ + "未"@);
        },
        SexagenaryCycle::HinoeSaru => {
            reveal_strlit("丙申");
            reveal_strlit("丙");
            reveal_strlit("申");
            assert("丙申"@ =~= "丙"@ + "申"@);
        },
        SexagenaryCycle::HinotoTori => {
            reveal_strlit("丁酉");
            reveal_strlit("丁");
            reveal_strlit("酉");
            assert("丁酉"@ =~= "丁"@ + "酉"@);
        },
        SexagenaryCycle::TsuchinoeInu => {
            reveal_strlit("戊戌");
            reveal_strlit("戊");
            reveal_strlit("戌");
            assert("戊戌"@ =~= "戊"@ + "戌"@);
        },
        SexagenaryCycle::TsuchinotoYi => {
            reveal_strlit("己亥");
            reveal_strlit("己");
            reveal_strlit("亥");
            assert("己亥"@ =~= "己"@ + "亥"@);
        },
        SexagenaryCycle::KanoeNe => {
            reveal_strlit("庚子");
            reveal_strlit("庚");
            reveal_strlit("子");
            assert("庚子"@ =~= "庚"@ + "子"@);
        },
        SexagenaryCycle::KanotoUshi => {
            reveal_strlit("辛丑");
            reveal_strlit("辛");
            reveal_strlit("丑");
            assert("辛丑"@ =~= "辛"@ + "丑"@);
        },
        SexagenaryCycle::MizunoeTora => {
            reveal_strlit("壬寅");
            reveal_strlit("壬");
            reveal_strlit("寅");
            assert("壬寅"@ =~= "壬"@ + "寅"@);
        },
        SexagenaryCycle::MizunotoWu => {
            reveal_strlit("癸卯");
            reveal_strlit("癸");
            reveal_strlit("卯");
            assert("癸卯"@ =~= "癸"@ + "卯"@);
        },
        _ => {},
    }
}

/// The written names of pairs 41 to 50 join a stem and a branch.
#[verifier::spinoff_prover]
proof fn lemma_cycle_literal_is_name_4(c: SexagenaryCycle)
    requires
        41 <= cycle_index(c) <= 50,
    ensures
        cycle_literal(c) == cycle_name(c),
{
    match c {
        SexagenaryCycle::KinoeTatsu => {
            reveal_strlit("甲辰");
            reveal_strlit("甲");
            reveal_strlit("辰");
            assert("甲辰"@ =~= "甲"@ + "辰"@);
        },
        SexagenaryCycle::KinotoMi => {
            reveal_strlit("乙巳");
            reveal_strlit("乙");
            reveal_strlit("巳");
            assert("乙巳"@ =~= "乙"@ + "巳"@);
        },
        SexagenaryCycle::HinoeUma => {
            reveal_strlit("丙午");
            reveal_strlit("丙");
            reveal_strlit("午");
            assert("丙午"@ =~= "丙"@ + "午"@);
        },
        SexagenaryCycle::HinotoHitsuji => {
            reveal_strlit("丁未");
            reveal_strlit("丁");
            reveal_strlit("未");
            assert("丁未"@ =~= "丁"@ + "未"@);
        },
        SexagenaryCycle::TsuchinoeSaru => {
            reveal_strlit("戊申");
            reveal_strlit("戊");
            reveal_strlit("申");
            assert("戊申"@ =~= "戊"@ + "申"@);
        },
        SexagenaryCycle::TsuchinotoTori => {
            reveal_strlit("己酉");
            reveal_strlit("己");
            reveal_strlit("酉");
            assert("己酉"@ =~= "己"@ + "酉"@);
        },
        SexagenaryCycle::KanoeInu => {
            reveal_strlit("庚戌");
            reveal_strlit("庚");
            reveal_strlit("戌");
            assert("庚戌"@ =~= "庚"@ + "戌"@);
        },
        SexagenaryCycle::KanotoYi => {
            reveal_strlit("辛亥");
            reveal_strlit("辛");
            reveal_strlit("亥");
            assert("辛亥"@ =~= "辛"@ + "亥"@);
        },
        SexagenaryCycle::MizunoeNe => {
            reveal_strlit("壬子");
            reveal_strlit("壬");
            reveal_strlit("子");
            assert("壬子"@ =~= "壬"@ + "子"@);
        },
        SexagenaryCycle::MizunotoUshi => {
            reveal_strlit("癸丑");
            reveal_strlit("癸");
            reveal_strlit("丑");
            assert("癸丑"@ =~= "癸"@ + "丑"@);
        },
        _ => {},
    }
}

/// The written names of pairs 51 to 60 join a stem and a branch.
#[verifier::spinoff_prover]
proof fn lemma_cycle_literal_is_name_5(c: SexagenaryCycle)
    requires
        51 <= cycle_index(c) <= 60,
    ensures
        cycle_literal(c) == cycle_name(c),
{
    match c {
        SexagenaryCycle::KinoeTora => {
            reveal_strlit("甲寅");
            reveal_strlit("甲");
            reveal_strlit("寅");
            assert("甲寅"@ =~= "甲"@ + "寅"@);
        },
        SexagenaryCycle::KinotoWu => {
            reveal_strlit("乙卯");
            reveal_strlit("乙");
            reveal_strlit("卯");
            assert("乙卯"@ =~= "乙"@ + "卯"@);
        },
        SexagenaryCycle::HinoeTatsu => {
            reveal_strlit("丙辰");
            reveal_strlit("丙");
            reveal_strlit("辰");
            assert("丙辰"@ =~= "丙"@ + "辰"@);
        },
        SexagenaryCycle::HinotoMi => {
            reveal_strlit("丁巳");
            reveal_strlit("丁");
            reveal_strlit("巳");
            assert("丁巳"@ =~= "丁"@ + "巳"@);
        },
        SexagenaryCycle::TsuchinoeUma => {
            reveal_strlit("戊午");
            reveal_strlit("戊");
            reveal_strlit("午");
            assert("戊午"@ =~= "戊"@ + "午"@);
        },
        SexagenaryCycle::TsuchinotoHitsuji => {
            reveal_strlit("己未");
            reveal_strlit("己");
            reveal_strlit("未");
            assert("己未"@ =~= "己"@ + "未"@);
        },
        SexagenaryCycle::KanoeSaru => {
            reveal_strlit("庚申");
            reveal_strlit("庚");
            reveal_strlit("申");
            assert("庚申"@ =~= "庚"@ + "申"@);
        },
        SexagenaryCycle::KanotoTori => {
            reveal_strlit("辛酉");
            reveal_strlit("辛");
            reveal_strlit("酉");
            assert("辛酉"@ =~= "辛"@ + "酉"@);
        },
        SexagenaryCycle::MizunoeInu => {
            reveal_strlit("壬戌");
            reveal_strlit("壬");
            reveal_strlit("戌");
            assert("壬戌"@ =~= "壬"@ + "戌"@);
        },
        SexagenaryCycle::MizunotoYi => {
            reveal_strlit("癸亥");
            reveal_strlit("癸");
            reveal_strlit("亥");
            assert("癸亥"@ =~= "癸"@ + "亥"@);
        },
        _ => {},
    }
}

/// Every written name of a pair joins its stem and its branch.
proof fn lemma_cycle_literal_is_name(c: SexagenaryCycle)
    ensures
        cycle_literal(c) == cycle_name(c),
{
    let i = cycle_index(c);
    if i <= 10 {
        lemma_cycle_literal_is_name_0(c);
    } else if i <= 20 {
        lemma_cycle_literal_is_name_1(c);
    } else if i <= 30 {
        lemma_cycle_literal_is_name_2(c);
    } else if i <= 40 {
        lemma_cycle_literal_is_name_3(c);
    } else if i <= 50 {
        lemma_cycle_literal_is_name_4(c);
    } else {
        lemma_cycle_literal_is_name_5(c);
    }
}

/// The position (1 to 60) of the pair of year `y`: 1984 was a year of 甲子,
/// the first pair.
pub open spec fn year_cycle_index(y: int) -> int {
    (y - 4) % 60 + 1
}

/// The pair of year `y` sits at `(y - 4) mod 60`, and its branch is the
/// branch of that year.
proof fn lemma_year_cycle_branch(y: int, rem: int)
    requires
        rem == (y - 4) - 60 * ((y - 4) / 60),
    ensures
        rem == (y - 4) % 60,
        0 <= rem < 60,
        rem % 12 + 1 == year_zodiac_index(y),
{
    vstd::arithmetic::div_mod::lemma_fundamental_div_mod(y - 4, 60);
    vstd::arithmetic::div_mod::lemma_mod_bound(y - 4, 60);
    vstd::arithmetic::div_mod::lemma_mod_mod(y - 4, 12, 5);
    vstd::arithmetic::div_mod::lemma_fundamental_div_mod(y - 4, 12);
    vstd::arithmetic::div_mod::lemma_mod_bound(y - 4, 12);
    vstd::arithmetic::div_mod::lemma_fundamental_div_mod(y + 9, 12);
    vstd::arithmetic::div_mod::lemma_mod_bound(y + 9, 12);
}

impl SexagenaryCycle {
    /// The pair of the year of a date. Its branch is the one that
    /// `JapaneseZodiac::from_datelike` gives.
    #[verifier::spinoff_prover]
    pub fn from_datelike(date: &CalendarDate) -> (r: Self)
        requires
            date.wf(),
        ensures
            cycle_index(r) == year_cycle_index(date.year as int),
            cycle_zodiac_index(r) == year_zodiac_index(date.year as int),
    {
        let n: i64 = date.year as i64 - 4;
        let rem = n - 60 * floor_div(n, 60);
        proof {
            lemma_year_cycle_branch(date.year as int, rem as int);
        }
        SexagenaryCycle::from_usize((rem + 1) as usize).unwrap()
    }

    /// The pair with the given name, or `None` where no pair has it.
    pub fn from_str(name: &str) -> (r: Option<Self>)
        ensures
            r matches Some(c) ==> cycle_name(c) == name@,
            r is None ==> forall|c: SexagenaryCycle| cycle_name(c) != name@,
    {
        let mut i: usize = 1;
        while i <= 60
            invariant
                1 <= i <= 61,
                forall|c: SexagenaryCycle| cycle_index(c) < i ==> cycle_name(c) != name@,
            decreases 61 - i,
        {
            if let Some(c) = SexagenaryCycle::from_usize(i) {
                if str_equal(c.to_str(), name) {
                    return Some(c);
                }
            }
            i = i + 1;
        }
        None
    }

    /// The pair's name, such as 甲子: the name of its stem followed by that
    /// of its branch.
    pub fn to_str(&self) -> (r: &'static str)
        ensures
            r@ == cycle_name(*self),
    {
        proof {
            lemma_cycle_literal_is_name(*self);
        }
        match self {
            SexagenaryCycle::KinoeNe => "甲子",
            SexagenaryCycle::KinotoUshi => "乙丑",
            SexagenaryCycle::HinoeTora => "丙寅",
            SexagenaryCycle::HinotoWu => "丁卯",
            SexagenaryCycle::TsuchinoeTatsu => "戊辰",
            SexagenaryCycle::TsuchinotoMi => "己巳",
            SexagenaryCycle::KanoeUma => "庚午",
            SexagenaryCycle::KanotoHitsuji => "辛未",
            SexagenaryCycle::MizunoeSaru => "壬申",
            SexagenaryCycle::MizunotoTori => "癸酉",
            SexagenaryCycle::KinoeInu => "甲戌",
            SexagenaryCycle::KinotoYi => "乙亥",
            SexagenaryCycle::HinoeNe => "丙子",
            SexagenaryCycle::HinotoUshi => "丁丑",
            SexagenaryCycle::TsuchinoeTora => "戊寅",
            SexagenaryCycle::TsuchinotoWu => "己卯",
            SexagenaryCycle::KanoeTatsu => "庚辰",
            SexagenaryCycle::KanotoMi => "辛巳",
            SexagenaryCycle::MizunoeUma => "壬午",
            SexagenaryCycle::MizunotoHitsuji => "癸未",
            SexagenaryCycle::KinoeSaru => "甲申",
            SexagenaryCycle::KinotoTori => "乙酉",
            SexagenaryCycle::HinoeInu => "丙戌",
            SexagenaryCycle::HinotoYi => "丁亥",
            SexagenaryCycle::TsuchinoeNe => "戊子",
            SexagenaryCycle::TsuchinotoUshi => "己丑",
            SexagenaryCycle::KanoeTora => "庚寅",
            SexagenaryCycle::KanotoWu => "辛卯",
            SexagenaryCycle::MizunoeTatsu => "壬辰",
            SexagenaryCycle::MizunotoMi => "癸巳",
            SexagenaryCycle::KinoeUma => "甲午",
            SexagenaryCycle::KinotoHitsuji => "乙未",
            SexagenaryCycle::HinoeSaru => "丙申",
            SexagenaryCycle::HinotoTori => "丁酉",
            SexagenaryCycle::TsuchinoeInu => "戊戌",
            SexagenaryCycle::TsuchinotoYi => "己亥",
            SexagenaryCycle::KanoeNe => "庚子",
            SexagenaryCycle::KanotoUshi => "辛丑",
            SexagenaryCycle::MizunoeTora => "壬寅",
            SexagenaryCycle::MizunotoWu => "癸卯",
            SexagenaryCycle::KinoeTatsu => "甲辰",
            SexagenaryCycle::KinotoMi => "乙巳",
            SexagenaryCycle::HinoeUma => "丙午",
            SexagenaryCycle::HinotoHitsuji => "丁未",
            SexagenaryCycle::TsuchinoeSaru => "戊申",
            SexagenaryCycle::TsuchinotoTori => "己酉",
            SexagenaryCycle::KanoeInu => "庚戌",
            SexagenaryCycle::KanotoYi => "辛亥",
            SexagenaryCycle::MizunoeNe => "壬子",
            SexagenaryCycle::MizunotoUshi => "癸丑",
            SexagenaryCycle::KinoeTora => "甲寅",
            SexagenaryCycle::KinotoWu => "乙卯",
            SexagenaryCycle::HinoeTatsu => "丙辰",
            SexagenaryCycle::HinotoMi => "丁巳",
            SexagenaryCycle::TsuchinoeUma => "戊午",
            SexagenaryCycle::TsuchinotoHitsuji => "己未",
            SexagenaryCycle::KanoeSaru => "庚申",
            SexagenaryCycle::KanotoTori => "辛酉",
            SexagenaryCycle::MizunoeInu => "壬戌",
            SexagenaryCycle::MizunotoYi => "癸亥",
        }
    }

    /// The pair at position `num` (1 to 60), or `None` outside that range.
    fn from_usize(num: usize) -> (r: Option<Self>)
        ensures
            r is Some <==> 1 <= num <= 60,
            r matches Some(c) ==> cycle_index(c) == num,
    {
        match num {
            1 => Some(SexagenaryCycle::KinoeNe),
            2 => Some(SexagenaryCycle::KinotoUshi),
            3 => Some(SexagenaryCycle::HinoeTora),
            4 => Some(SexagenaryCycle::HinotoWu),
            5 => Some(SexagenaryCycle::TsuchinoeTatsu),
            6 => Some(SexagenaryCycle::TsuchinotoMi),
            7 => Some(SexagenaryCycle::KanoeUma),
            8 => Some(SexagenaryCycle::KanotoHitsuji),
            9 => Some(SexagenaryCycle::MizunoeSaru),
            10 => Some(SexagenaryCycle::MizunotoTori),
            11 => Some(SexagenaryCycle::KinoeInu),
            12 => Some(SexagenaryCycle::KinotoYi),
            13 => Some(SexagenaryCycle::HinoeNe),
            14 => Some(SexagenaryCycle::HinotoUshi),
            15 => Some(SexagenaryCycle::TsuchinoeTora),
            16 => Some(SexagenaryCycle::TsuchinotoWu),
            17 => Some(SexagenaryCycle::KanoeTatsu),
            18 => Some(SexagenaryCycle::KanotoMi),
            19 => Some(SexagenaryCycle::MizunoeUma),
            20 => Some(SexagenaryCycle::MizunotoHitsuji),
            21 => Some(SexagenaryCycle::KinoeSaru),
            22 => Some(SexagenaryCycle::KinotoTori),
            23 => Some(SexagenaryCycle::HinoeInu),
            24 => Some(SexagenaryCycle::HinotoYi),
            25 => Some(SexagenaryCycle::TsuchinoeNe),
            26 => Some(SexagenaryCycle::TsuchinotoUshi),
            27 => Some(SexagenaryCycle::KanoeTora),
            28 => Some(SexagenaryCycle::KanotoWu),
            29 => Some(SexagenaryCycle::MizunoeTatsu),
            30 => Some(SexagenaryCycle::MizunotoMi),
            31 => Some(SexagenaryCycle::KinoeUma),
            32 => Some(SexagenaryCycle::KinotoHitsuji),
            33 => Some(SexagenaryCycle::HinoeSaru),
            34 => Some(SexagenaryCycle::HinotoTori),
            35 => Some(SexagenaryCycle::TsuchinoeInu),
            36 => Some(SexagenaryCycle::TsuchinotoYi),
            37 => Some(SexagenaryCycle::KanoeNe),
            38 => Some(SexagenaryCycle::KanotoUshi),
            39 => Some(SexagenaryCycle::MizunoeTora),
            40 => Some(SexagenaryCycle::MizunotoWu),
            41 => Some(SexagenaryCycle::KinoeTatsu),
            42 => Some(SexagenaryCycle::KinotoMi),
            43 => Some(SexagenaryCycle::HinoeUma),
            44 => Some(SexagenaryCycle::HinotoHitsuji),
            45 => Some(SexagenaryCycle::TsuchinoeSaru),
            46 => Some(SexagenaryCycle::TsuchinotoTori),
            47 => Some(SexagenaryCycle::KanoeInu),
            48 => Some(SexagenaryCycle::KanotoYi),
            49 => Some(SexagenaryCycle::MizunoeNe),
            50 => Some(SexagenaryCycle::MizunotoUshi),
            51 => Some(SexagenaryCycle::KinoeTora),
            52 => Some(SexagenaryCycle::KinotoWu),
            53 => Some(SexagenaryCycle::HinoeTatsu),
            54 => Some(SexagenaryCycle::HinotoMi),
            55 => Some(SexagenaryCycle::TsuchinoeUma),
            56 => Some(SexagenaryCycle::TsuchinotoHitsuji),
            57 => Some(SexagenaryCycle::KanoeSaru),
            58 => Some(SexagenaryCycle::KanotoTori),
            59 => Some(SexagenaryCycle::MizunoeInu),
            60 => Some(SexagenaryCycle::MizunotoYi),
            _ => None,
        }
    }

    /// The pair's position, from 1 for 甲子 to 60 for 癸亥.
    fn to_usize(&self) -> (r: usize)
        ensures
            r == cycle_index(*self),
    {
        match self {
            SexagenaryCycle::KinoeNe => 1,
            SexagenaryCycle::KinotoUshi => 2,
            SexagenaryCycle::HinoeTora => 3,
            SexagenaryCycle::HinotoWu => 4,
            SexagenaryCycle::TsuchinoeTatsu => 5,
            SexagenaryCycle::TsuchinotoMi => 6,
            SexagenaryCycle::KanoeUma => 7,
            SexagenaryCycle::KanotoHitsuji => 8,
            SexagenaryCycle::MizunoeSaru => 9,
            SexagenaryCycle::MizunotoTori => 10,
            SexagenaryCycle::KinoeInu => 11,
            SexagenaryCycle::KinotoYi => 12,
            SexagenaryCycle::HinoeNe => 13,
            SexagenaryCycle::HinotoUshi => 14,
            SexagenaryCycle::TsuchinoeTora => 15,
            SexagenaryCycle::TsuchinotoWu => 16,
            SexagenaryCycle::KanoeTatsu => 17,
            SexagenaryCycle::KanotoMi => 18,
            SexagenaryCycle::MizunoeUma => 19,
            SexagenaryCycle::MizunotoHitsuji => 20,
            SexagenaryCycle::KinoeSaru => 21,
            SexagenaryCycle::KinotoTori => 22,
            SexagenaryCycle::HinoeInu => 23,
            SexagenaryCycle::HinotoYi => 24,
            SexagenaryCycle::TsuchinoeNe => 25,
            SexagenaryCycle::TsuchinotoUshi => 26,
            SexagenaryCycle::KanoeTora => 27,
            SexagenaryCycle::KanotoWu => 28,
            SexagenaryCycle::MizunoeTatsu => 29,
            SexagenaryCycle::MizunotoMi => 30,
            SexagenaryCycle::KinoeUma => 31,
            SexagenaryCycle::KinotoHitsuji => 32,
            SexagenaryCycle::HinoeSaru => 33,
            SexagenaryCycle::HinotoTori => 34,
            SexagenaryCycle::TsuchinoeInu => 35,
            SexagenaryCycle::TsuchinotoYi => 36,
            SexagenaryCycle::KanoeNe => 37,
            SexagenaryCycle::KanotoUshi => 38,
            SexagenaryCycle::MizunoeTora => 39,
            SexagenaryCycle::MizunotoWu => 40,
            SexagenaryCycle::KinoeTatsu => 41,
            SexagenaryCycle::KinotoMi => 42,
            SexagenaryCycle::HinoeUma => 43,
            SexagenaryCycle::HinotoHitsuji => 44,
            SexagenaryCycle::TsuchinoeSaru => 45,
            SexagenaryCycle::TsuchinotoTori => 46,
            SexagenaryCycle::KanoeInu => 47,
            SexagenaryCycle::KanotoYi => 48,
            SexagenaryCycle::MizunoeNe => 49,
            SexagenaryCycle::MizunotoUshi => 50,
            SexagenaryCycle::KinoeTora => 51,
            SexagenaryCycle::KinotoWu => 52,
            SexagenaryCycle::HinoeTatsu => 53,
            SexagenaryCycle::HinotoMi => 54,
            SexagenaryCycle::TsuchinoeUma => 55,
            SexagenaryCycle::TsuchinotoHitsuji => 56,
            SexagenaryCycle::KanoeSaru => 57,
            SexagenaryCycle::KanotoTori => 58,
            SexagenaryCycle::MizunoeInu => 59,
            SexagenaryCycle::MizunotoYi => 60,
        }
    }
}

} // verus!
