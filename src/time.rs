//! Times of day at nanosecond resolution, with no date attached.

use vstd::prelude::*;
use chrono::Timelike;

verus! {

pub const NANOS_PER_SECOND: u64 = 1_000_000_000;

pub const NANOS_PER_MINUTE: u64 = 60_000_000_000;

pub const NANOS_PER_HOUR: u64 = 3_600_000_000_000;

/// Length of the daily cycle.
pub const NANOS_PER_DAY: u64 = 86_400_000_000_000;

/// A time of day, held as nanoseconds past midnight.
#[derive(Clone, Copy, Debug, PartialEq, Eq, Structural)]
pub struct TimeOfDay {
    nanos: u64,
}

impl View for TimeOfDay {
    type V = nat;

    /// Nanoseconds past midnight.
    closed spec fn view(&self) -> nat {
        self.nanos as nat
    }
}

/// The hour (0 to 23) of a point of the day given in nanoseconds.
pub open spec fn hour_of(t: nat) -> nat {
    t / (NANOS_PER_HOUR as nat)
}

/// The minute within its hour of a point of the day given in nanoseconds.
pub open spec fn minute_of(t: nat) -> nat {
    (t / (NANOS_PER_MINUTE as nat)) % 60
}

/// The second within its minute of a point of the day given in nanoseconds.
pub open spec fn second_of(t: nat) -> nat {
    (t / (NANOS_PER_SECOND as nat)) % 60
}

/// The decimal digit `d` (below ten) as a character.
pub open spec fn digit_char(d: nat) -> char {
    if d == 0 { '0' }
    else if d == 1 { '1' }
    else if d == 2 { '2' }
    else if d == 3 { '3' }
    else if d == 4 { '4' }
    else if d == 5 { '5' }
    else if d == 6 { '6' }
    else if d == 7 { '7' }
    else if d == 8 { '8' }
    else { '9' }
}

/// A number below one hundred, written with two decimal digits.
pub open spec fn two_digits(n: nat) -> Seq<char> {
    seq![digit_char(n / 10), digit_char(n % 10)]
}

/// `HH:MM` text of an hour and a minute.
pub open spec fn hh_mm_text(hour: nat, minute: nat) -> Seq<char> {
    two_digits(hour) + seq![':'] + two_digits(minute)
}

/// What the text-to-time parser makes of `s` under the pattern `%H:%M`:
/// the hour and minute it reads, or nothing where it rejects the text.
pub uninterp spec fn hh_mm_parse(s: Seq<char>) -> Option<(u32, u32)>;

/// Why a text does not give a time of day.
#[derive(Debug)]
pub enum ConfigError {
    /// The text is not a time in 24-hour `HH:MM` form.
    MalformedTime { text: String },
}

#[verifier::external_type_specification]
#[verifier::external_body]
pub struct ExParseError(chrono::ParseError);

/// Relies on chrono's `NaiveTime::parse_from_str` with the pattern `%H:%M`,
/// and on `hour` and `minute` of the time it returns (0 to 23, 0 to 59).
#[verifier::external_body]
fn parse_hour_minute(s: &str) -> (r: Result<(u32, u32), chrono::ParseError>)
    ensures
        match r {
            Ok(hm) => hh_mm_parse(s@) == Some(hm) && hm.0 < 24 && hm.1 < 60,
            Err(_) => hh_mm_parse(s@) is None,
        },
{
    chrono::NaiveTime::parse_from_str(s, "%H:%M").map(|t| (t.hour(), t.minute()))
}

/// Relies on chrono's `NaiveTime::from_hms_opt`, which accepts an hour below
/// 24 and a minute below 60, and on its `format("%H:%M")`, which writes each
/// of the two with two digits, padded with a zero.
#[verifier::external_body]
fn format_hour_minute(hour: u32, minute: u32) -> (r: String)
    requires
        hour < 24,
        minute < 60,
    ensures
        r@ == hh_mm_text(hour as nat, minute as nat),
{
    chrono::NaiveTime::from_hms_opt(hour, minute, 0).map(|t| t.format("%H:%M").to_string()).unwrap_or_default()
}

/// Relies on chrono's `Local::now` for the local wall-clock time, and on
/// `num_seconds_from_midnight` (below 86 400) and `nanosecond` (below two
/// billion: past one billion during a leap second) of its time of day.
#[verifier::external_body]
fn local_clock() -> (r: (u32, u32))
    ensures
        r.0 < 86_400,
        r.1 < 2_000_000_000,
{
    let t = chrono::Local::now().time();
    (t.num_seconds_from_midnight(), t.nanosecond())
}

impl TimeOfDay {
    /// A time of day is within the 24-hour cycle.
    pub open spec fn wf(&self) -> bool {
        self@ < NANOS_PER_DAY
    }

    /// Midnight, `00:00:00`.
    pub fn midnight() -> (r: TimeOfDay)
        ensures
            r.wf(),
            r@ == 0,
    {
        TimeOfDay { nanos: 0 }
    }

    /// The time `nanos` nanoseconds past midnight.
    pub fn from_nanos_of_day(nanos: u64) -> (r: TimeOfDay)
        requires
            nanos < NANOS_PER_DAY,
        ensures
            r.wf(),
            r@ == nanos,
    {
        TimeOfDay { nanos }
    }

    /// The time `hour:minute:second`, where each part is in range.
    pub fn from_hms(hour: u32, minute: u32, second: u32) -> (r: Option<TimeOfDay>)
        ensures
            r is Some <==> (hour < 24 && minute < 60 && second < 60),
            r matches Some(t) ==> t.wf() && t@ == hour * NANOS_PER_HOUR + minute
                * NANOS_PER_MINUTE + second * NANOS_PER_SECOND,
    {
        TimeOfDay::from_hms_nano(hour, minute, second, 0)
    }

    /// The time `hour:minute:second.nano`, where each part is in range.
    pub fn from_hms_nano(hour: u32, minute: u32, second: u32, nano: u32) -> (r: Option<TimeOfDay>)
        ensures
            r is Some <==> (hour < 24 && minute < 60 && second < 60 && nano < NANOS_PER_SECOND),
            r matches Some(t) ==> t.wf() && t@ == hour * NANOS_PER_HOUR + minute
                * NANOS_PER_MINUTE + second * NANOS_PER_SECOND + nano,
    {
        if hour < 24 && minute < 60 && second < 60 && (nano as u64) < NANOS_PER_SECOND {
            let nanos = hour as u64 * NANOS_PER_HOUR + minute as u64 * NANOS_PER_MINUTE
                + second as u64 * NANOS_PER_SECOND + nano as u64;
            Some(TimeOfDay { nanos })
        } else {
            None
        }
    }

    /// The time read by the system clock as whole seconds past midnight and
    /// a fraction in nanoseconds; a leap second's fraction (one billion or
    /// more) is held at the last nanosecond of that second.
    pub fn from_clock(seconds: u32, fraction: u32) -> (r: TimeOfDay)
        requires
            seconds < 86_400,
        ensures
            r.wf(),
            r@ == seconds * NANOS_PER_SECOND + if fraction < NANOS_PER_SECOND {
                fraction as int
            } else {
                NANOS_PER_SECOND - 1
            },
    {
        let frac: u64 = if (fraction as u64) < NANOS_PER_SECOND {
            fraction as u64
        } else {
            NANOS_PER_SECOND - 1
        };
        TimeOfDay { nanos: seconds as u64 * NANOS_PER_SECOND + frac }
    }

    /// The local wall-clock time now.
    pub fn now() -> (r: TimeOfDay)
        ensures
            r.wf(),
    {
        let (seconds, fraction) = local_clock();
        TimeOfDay::from_clock(seconds, fraction)
    }

    /// Reads a time in 24-hour `HH:MM` form.
    pub fn parse_hh_mm(text: &str) -> (r: Result<TimeOfDay, ConfigError>)
        ensures
            match hh_mm_parse(text@) {
                Some(hm) => r matches Ok(t) && t.wf() && t@ == hm.0 * NANOS_PER_HOUR + hm.1
                    * NANOS_PER_MINUTE,
                None => r matches Err(ConfigError::MalformedTime { text: e }) && e@ == text@,
            },
    {
        match parse_hour_minute(text) {
            Ok((hour, minute)) => {
                Ok(TimeOfDay { nanos: hour as u64 * NANOS_PER_HOUR + minute as u64 * NANOS_PER_MINUTE })
            },
            Err(_) => Err(ConfigError::MalformedTime { text: String::from_str(text) }),
        }
    }

    /// Nanoseconds past midnight.
    pub fn nanos_of_day(&self) -> (r: u64)
        ensures
            r == self@,
    {
        self.nanos
    }

    pub fn hour(&self) -> (r: u32)
        requires
            self.wf(),
        ensures
            r == hour_of(self@),
            r < 24,
    {
        (self.nanos / NANOS_PER_HOUR) as u32
    }

    pub fn minute(&self) -> (r: u32)
        ensures
            r == minute_of(self@),
            r < 60,
    {
        (self.nanos / NANOS_PER_MINUTE % 60) as u32
    }

    pub fn second(&self) -> (r: u32)
        ensures
            r == second_of(self@),
            r < 60,
    {
        (self.nanos / NANOS_PER_SECOND % 60) as u32
    }

    /// Nanoseconds past the start of the current second.
    pub fn nanosecond(&self) -> (r: u32)
        ensures
            r == self@ % (NANOS_PER_SECOND as nat),
            r < NANOS_PER_SECOND,
    {
        (self.nanos % NANOS_PER_SECOND) as u32
    }

    /// The time as `HH:MM` text, the seconds left out.
    pub fn to_hh_mm(&self) -> (r: String)
        requires
            self.wf(),
        ensures
            r@ == hh_mm_text(hour_of(self@), minute_of(self@)),
    {
        format_hour_minute(self.hour(), self.minute())
    }

    /// Nanoseconds from this time until the next whole minute: a full
    /// minute when the time already stands on one, never zero.
    pub fn nanos_until_next_minute(&self) -> (r: u64)
        ensures
            r == NANOS_PER_MINUTE - self@ % (NANOS_PER_MINUTE as nat),
            0 < r <= NANOS_PER_MINUTE,
    {
        NANOS_PER_MINUTE - self.nanos % NANOS_PER_MINUTE
    }
}

} // verus!
