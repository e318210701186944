//! Days of the week and the mode of teaching that each day has.

use chrono::Weekday as ChronoWeekday;
use num_traits::FromPrimitive;
use vstd::prelude::*;

verus! {

/// Number of days in a week.
pub const DAYS_PER_WEEK: usize = 7;

/// A day of the week.
#[derive(Clone, Copy, Debug, PartialEq, Eq, Structural)]
pub enum Weekday {
    Mon,
    Tue,
    Wed,
    Thu,
    Fri,
    Sat,
    Sun,
}

/// How the classes of a day are attended.
#[derive(Clone, Copy, Debug, PartialEq, Eq, Structural)]
pub enum Mode {
    /// Classes are followed from home: no commute, only a buffer before the
    /// first class.
    Online,
    /// Classes are held at the college: the day starts and ends with a
    /// commute.
    Offline,
}

/// Calls `num_traits::FromPrimitive::from_u32` for `chrono::Weekday`.
///
/// Trusted: `chrono` numbers the days from Monday, which is 0, to Sunday,
/// which is 6, and knows no day for any other number.
#[verifier::external_body]
fn weekday_from_u32(number: u32) -> (day: Option<Weekday>)
    ensures
        day == Weekday::numbered(number as int),
{
    match ChronoWeekday::from_u32(number) {
        Some(ChronoWeekday::Mon) => Some(Weekday::Mon),
        Some(ChronoWeekday::Tue) => Some(Weekday::Tue),
        Some(ChronoWeekday::Wed) => Some(Weekday::Wed),
        Some(ChronoWeekday::Thu) => Some(Weekday::Thu),
        Some(ChronoWeekday::Fri) => Some(Weekday::Fri),
        Some(ChronoWeekday::Sat) => Some(Weekday::Sat),
        Some(ChronoWeekday::Sun) => Some(Weekday::Sun),
        None => None,
    }
}

/// Calls the `Display` of `chrono::Weekday`.
///
/// Trusted: `chrono` writes a day as the first three letters of its English
/// name, the first one a capital.
#[verifier::external_body]
fn weekday_text(day: Weekday) -> (text: String)
    ensures
        text@ == day.short_name(),
{
    let day = match day {
        Weekday::Mon => ChronoWeekday::Mon,
        Weekday::Tue => ChronoWeekday::Tue,
        Weekday::Wed => ChronoWeekday::Wed,
        Weekday::Thu => ChronoWeekday::Thu,
        Weekday::Fri => ChronoWeekday::Fri,
        Weekday::Sat => ChronoWeekday::Sat,
        Weekday::Sun => ChronoWeekday::Sun,
    };
    day.to_string()
}

impl Weekday {
    /// The day with the given number, Monday being 0 and Sunday 6.
    pub open spec fn numbered(number: int) -> Option<Weekday> {
        if number == 0 {
            Some(Weekday::Mon)
        } else if number == 1 {
            Some(Weekday::Tue)
        } else if number == 2 {
            Some(Weekday::Wed)
        } else if number == 3 {
            Some(Weekday::Thu)
        } else if number == 4 {
            Some(Weekday::Fri)
        } else if number == 5 {
            Some(Weekday::Sat)
        } else if number == 6 {
            Some(Weekday::Sun)
        } else {
            None
        }
    }

    /// The day that a draw from `0..7` stands for: the day numbered one more
    /// than the draw, and Monday where no day has that number.
    pub open spec fn drawn(index: int) -> Weekday {
        match Weekday::numbered(index + 1) {
            Some(day) => day,
            None => Weekday::Mon,
        }
    }

    /// The three-letter name of the day.
    pub open spec fn short_name(self) -> Seq<char> {
        match self {
            Weekday::Mon => "Mon"@,
            Weekday::Tue => "Tue"@,
            Weekday::Wed => "Wed"@,
            Weekday::Thu => "Thu"@,
            Weekday::Fri => "Fri"@,
            Weekday::Sat => "Sat"@,
            Weekday::Sun => "Sun"@,
        }
    }

    /// The mode of a day: Tuesday is taught online, every other day at the
    /// college.
    pub open spec fn mode_of(self) -> Mode {
        match self {
            Weekday::Tue => Mode::Online,
            _ => Mode::Offline,
        }
    }

    /// The day with the given number, Monday being 0 and Sunday 6.
    pub fn from_number(number: u32) -> (day: Option<Weekday>)
        ensures
            day == Weekday::numbered(number as int),
    {
        weekday_from_u32(number)
    }

    /// The day that a draw from `0..7` stands for.
    pub fn from_draw(index: usize) -> (day: Weekday)
        requires
            index < DAYS_PER_WEEK,
        ensures
            day == Weekday::drawn(index as int),
    {
        match Weekday::from_number(index as u32 + 1) {
            Some(day) => day,
            None => Weekday::Mon,
        }
    }

    /// The mode in which the classes of this day are held.
    pub fn mode(self) -> (mode: Mode)
        ensures
            mode == self.mode_of(),
    {
        match self {
            Weekday::Tue => Mode::Online,
            _ => Mode::Offline,
        }
    }

    /// The three-letter name of the day.
    pub fn name(self) -> (text: String)
        ensures
            text@ == self.short_name(),
    {
        weekday_text(self)
    }
}

impl Mode {
    /// The name of the mode.
    pub open spec fn label_of(self) -> Seq<char> {
        match self {
            Mode::Online => "Online"@,
            Mode::Offline => "Offline"@,
        }
    }

    /// The name of the mode.
    pub fn label(self) -> (text: &'static str)
        ensures
            text@ == self.label_of(),
    {
        match self {
            Mode::Online => "Online",
            Mode::Offline => "Offline",
        }
    }
}

} // verus!
