//! Japanese calendar facts for Gregorian dates: the national holiday of a
//! day (with substitute holidays), the imperial era, the traditional names of
//! months and weekdays, and the heavenly stems, earthly branches and the
//! sexagenary cycle.
//!
//! Each module states what its functions compute as spec functions, and
//! `day` holds the laws of the holiday rules as proof functions.
pub mod date;
pub use date::CalendarDate;

pub mod day;
pub use day::{
    autumnal_equinox_day_of_month, vernal_equinox_day_of_month, JapaneseHoliday, JapaneseWeekday,
};

pub mod era;
pub use era::JapaneseEra;

pub mod koyomi;
pub use koyomi::{JapaneseDate, Koyomi};

pub mod month;
pub use month::JapaneseMonth;

mod text;

pub mod year;
pub use year::{HeavenlyStem, JapaneseZodiac, SexagenaryCycle};
