//! Times of day and spans of minutes.
//!
//! A [`TimeOfDay`] is modelled by the number of seconds since midnight, a
//! [`Duration`] by a signed number of minutes. Shifting a time wraps around
//! midnight; the shifting itself is done by `chrono`.

use chrono::{NaiveTime, TimeDelta, Timelike};
use crate::text::two_digits;
use vstd::prelude::*;

verus! {

/// Number of seconds in a day.
pub const SECONDS_PER_DAY: u32 = 86_400;

/// Largest number of minutes, in either direction, that `chrono` can hold in a
/// `TimeDelta`.
pub const MAX_SHIFT_MINUTES: i64 = 153_722_867_280_912;

/// The time of day, in seconds since midnight, that lies `minutes` minutes
/// after `seconds`, counted around the clock.
pub open spec fn day_shift(seconds: int, minutes: int) -> int {
    (seconds + 60 * minutes) % 86_400
}

/// Whether `hour:minute:second` names a time of day.
pub open spec fn valid_hms(hour: int, minute: int, second: int) -> bool {
    0 <= hour < 24 && 0 <= minute < 60 && 0 <= second < 60
}

/// The text `HH:MM:SS` of the time `seconds` seconds after midnight.
pub open spec fn clock_text(seconds: int) -> Seq<char> {
    two_digits(seconds / 3600) + seq![':'] + two_digits(seconds / 60 % 60) + seq![':']
        + two_digits(seconds % 60)
}

/// A signed span of whole minutes.
#[derive(Clone, Copy, Debug, PartialEq, Eq)]
pub struct Duration {
    pub minutes: i32,
}

impl View for Duration {
    type V = int;

    open spec fn view(&self) -> int {
        self.minutes as int
    }
}

impl Duration {
    /// A span of `minutes` minutes; negative values point backwards.
    pub fn minutes(minutes: i32) -> (d: Duration)
        ensures
            d@ == minutes,
    {
        Duration { minutes }
    }

    /// The span of this one and `other` together, if it can be held.
    pub fn checked_add(self, other: Duration) -> (sum: Option<Duration>)
        ensures
            sum is Some == (i32::MIN <= self@ + other@ <= i32::MAX),
            sum is Some ==> sum->Some_0@ == self@ + other@,
    {
        match self.minutes.checked_add(other.minutes) {
            Some(minutes) => Some(Duration { minutes }),
            None => None,
        }
    }

    /// The span of the same length in the other direction, if it can be held.
    pub fn checked_neg(self) -> (negated: Option<Duration>)
        ensures
            negated is Some == (self@ != i32::MIN),
            negated is Some ==> negated->Some_0@ == -self@,
    {
        if self.minutes == i32::MIN {
            None
        } else {
            Some(Duration { minutes: -self.minutes })
        }
    }

    /// The length of the span in minutes.
    pub fn num_minutes(self) -> (n: i32)
        ensures
            n == self@,
    {
        self.minutes
    }
}

/// A wall-clock time without a date, to the second.
#[derive(Clone, Copy, Debug, PartialEq, Eq)]
pub struct TimeOfDay {
    secs: u32,
}

impl View for TimeOfDay {
    type V = int;

    /// Seconds since midnight.
    closed spec fn view(&self) -> int {
        self.secs as int
    }
}

/// Calls `chrono::NaiveTime::from_hms_opt` and reads the result back with
/// `Timelike::num_seconds_from_midnight`.
///
/// Trusted: `chrono` accepts exactly the hours below 24 with minutes and
/// seconds below 60, and the time it builds lies
/// `hour * 3600 + minute * 60 + second` seconds after midnight.
#[verifier::external_body]
fn naive_from_hms(hour: u32, minute: u32, second: u32) -> (secs: Option<u32>)
    ensures
        secs is Some == valid_hms(hour as int, minute as int, second as int),
        secs is Some ==> secs->Some_0 == hour * 3600 + minute * 60 + second,
{
    match NaiveTime::from_hms_opt(hour, minute, second) {
        Some(time) => Some(time.num_seconds_from_midnight()),
        None => None,
    }
}

/// Calls `NaiveTime + TimeDelta` of `chrono` on the time `secs` seconds after
/// midnight and a span of `minutes` minutes.
///
/// Trusted: the sum wraps around midnight and drops whole days, so it is the
/// remainder of `secs + 60 * minutes` modulo the seconds of a day.
/// `TimeDelta::minutes` panics beyond [`MAX_SHIFT_MINUTES`]; those spans are
/// left out.
#[verifier::external_body]
fn naive_add(secs: u32, minutes: i64) -> (shifted: u32)
    requires
        secs < SECONDS_PER_DAY,
        -MAX_SHIFT_MINUTES <= minutes <= MAX_SHIFT_MINUTES,
    ensures
        shifted == day_shift(secs as int, minutes as int),
{
    let time = NaiveTime::from_num_seconds_from_midnight_opt(secs, 0).unwrap();
    (time + TimeDelta::minutes(minutes)).num_seconds_from_midnight()
}

/// Calls `NaiveTime - TimeDelta` of `chrono` on the time `secs` seconds after
/// midnight and a span of `minutes` minutes.
///
/// Trusted: the difference wraps around midnight and drops whole days, so it
/// is the remainder of `secs - 60 * minutes` modulo the seconds of a day.
/// `TimeDelta::minutes` panics beyond [`MAX_SHIFT_MINUTES`]; those spans are
/// left out.
#[verifier::external_body]
fn naive_sub(secs: u32, minutes: i64) -> (shifted: u32)
    requires
        secs < SECONDS_PER_DAY,
        -MAX_SHIFT_MINUTES <= minutes <= MAX_SHIFT_MINUTES,
    ensures
        shifted == day_shift(secs as int, -(minutes as int)),
{
    let time = NaiveTime::from_num_seconds_from_midnight_opt(secs, 0).unwrap();
    (time - TimeDelta::minutes(minutes)).num_seconds_from_midnight()
}

/// Calls the `Display` of `chrono::NaiveTime` on the time `secs` seconds
/// after midnight.
///
/// Trusted: a time on a whole second is written as hour, minute and second,
/// two digits each, with colons between them.
#[verifier::external_body]
fn naive_text(secs: u32) -> (text: String)
    requires
        secs < SECONDS_PER_DAY,
    ensures
        text@ == clock_text(secs as int),
{
    NaiveTime::from_num_seconds_from_midnight_opt(secs, 0).unwrap().to_string()
}

impl TimeOfDay {
    /// The model of a time of day is a second of the day.
    #[verifier::type_invariant]
    pub open spec fn wf(self) -> bool {
        0 <= self@ < 86_400
    }

    /// The time `hour:minute:second`, if there is such a time.
    pub fn from_hms(hour: u32, minute: u32, second: u32) -> (time: Option<TimeOfDay>)
        ensures
            time is Some == valid_hms(hour as int, minute as int, second as int),
            time is Some ==> time->Some_0@ == hour * 3600 + minute * 60 + second,
            time is Some ==> time->Some_0.wf(),
    {
        match naive_from_hms(hour, minute, second) {
            Some(secs) => Some(TimeOfDay { secs }),
            None => None,
        }
    }

    /// Seconds since midnight.
    pub fn seconds_from_midnight(self) -> (secs: u32)
        ensures
            secs == self@,
            self.wf(),
    {
        proof {
            use_type_invariant(&self);
        }
        self.secs
    }

    /// The hour of the day, from 0 to 23.
    pub fn hour(self) -> (hour: u32)
        ensures
            hour == self@ / 3600,
            hour < 24,
    {
        proof {
            use_type_invariant(&self);
        }
        self.secs / 3600
    }

    /// The minute of the hour, from 0 to 59.
    pub fn minute(self) -> (minute: u32)
        ensures
            minute == self@ / 60 % 60,
            minute < 60,
    {
        self.secs / 60 % 60
    }

    /// The second of the minute, from 0 to 59.
    pub fn second(self) -> (second: u32)
        ensures
            second == self@ % 60,
            second < 60,
    {
        self.secs % 60
    }

    /// The time as `HH:MM:SS`.
    pub fn text(self) -> (text: String)
        ensures
            text@ == clock_text(self@),
    {
        proof {
            use_type_invariant(&self);
        }
        naive_text(self.secs)
    }

    /// The time `minutes` minutes later, counted around the clock.
    pub fn plus_minutes(self, minutes: i64) -> (later: TimeOfDay)
        requires
            -MAX_SHIFT_MINUTES <= minutes <= MAX_SHIFT_MINUTES,
        ensures
            later@ == day_shift(self@, minutes as int),
            later.wf(),
    {
        proof {
            use_type_invariant(&self);
        }
        TimeOfDay { secs: naive_add(self.secs, minutes) }
    }

    /// The time `minutes` minutes earlier, counted around the clock.
    pub fn minus_minutes(self, minutes: i64) -> (earlier: TimeOfDay)
        requires
            -MAX_SHIFT_MINUTES <= minutes <= MAX_SHIFT_MINUTES,
        ensures
            earlier@ == day_shift(self@, -(minutes as int)),
            earlier.wf(),
    {
        proof {
            use_type_invariant(&self);
        }
        TimeOfDay { secs: naive_sub(self.secs, minutes) }
    }

    /// The time one `span` later, counted around the clock.
    pub fn plus(self, span: Duration) -> (later: TimeOfDay)
        ensures
            later@ == day_shift(self@, span@),
            later.wf(),
    {
        self.plus_minutes(span.minutes as i64)
    }

    /// The time one `span` earlier, counted around the clock.
    pub fn minus(self, span: Duration) -> (earlier: TimeOfDay)
        ensures
            earlier@ == day_shift(self@, -span@),
            earlier.wf(),
    {
        self.minus_minutes(span.minutes as i64)
    }
}

/// Shifting a time twice is shifting it once by the sum.
pub proof fn lemma_day_shift_twice(seconds: int, first: int, second: int)
    ensures
        day_shift(day_shift(seconds, first), second) == day_shift(seconds, first + second),
{
}

/// Shifting a time of day back and forth by the same span returns it.
pub proof fn lemma_day_shift_back(seconds: int, minutes: int)
    requires
        0 <= seconds < 86_400,
    ensures
        day_shift(day_shift(seconds, -minutes), minutes) == seconds,
{
}

/// A shift that stays within the day is plain addition.
pub proof fn lemma_day_shift_within(seconds: int, minutes: int)
    requires
        0 <= seconds + 60 * minutes < 86_400,
    ensures
        day_shift(seconds, minutes) == seconds + 60 * minutes,
{
}

/// Two times of day with the same model are the same time.
pub proof fn lemma_same_time(a: TimeOfDay, b: TimeOfDay)
    requires
        a@ == b@,
    ensures
        a == b,
{
}

} // verus!
