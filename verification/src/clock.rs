//! Times of day, as the provider writes them and as the output shows them.

use crate::text::{fixed_digits, two_digits};
use vstd::prelude::*;

verus! {

/// A time of day, to the nanosecond. A leap second, which follows the 59th
/// second of a minute, is held as that 59th second with a thousand million
/// nanoseconds or more.
#[derive(Clone, Copy, Debug, PartialEq, Eq, Structural)]
pub struct TimeOfDay {
    /// Whole seconds since midnight.
    pub seconds: u32,
    /// Nanoseconds since the whole second.
    pub nanos: u32,
}

/// The result of chrono's `NaiveTime::from_str` on `text`, as seconds since
/// midnight and nanoseconds; `None` where it refuses the text.
pub uninterp spec fn time_text_parsed(text: Seq<char>) -> Option<TimeOfDay>;

/// The part of a time's text that follows the seconds: nothing for a whole
/// second, else a point and three, six or nine digits, as few as hold the
/// value.
pub open spec fn fraction_text(nanos: nat) -> Seq<char> {
    if nanos == 0 {
        Seq::<char>::empty()
    } else if nanos % 1_000_000 == 0 {
        seq!['.'] + fixed_digits(nanos / 1_000_000, 3)
    } else if nanos % 1_000 == 0 {
        seq!['.'] + fixed_digits(nanos / 1_000, 6)
    } else {
        seq!['.'] + fixed_digits(nanos, 9)
    }
}

impl TimeOfDay {
    /// The value is a time of day: within one day, and with a leap second
    /// only after a 59th second.
    pub open spec fn is_valid(self) -> bool {
        &&& self.seconds < 86_400
        &&& self.nanos < 2_000_000_000
        &&& (self.nanos >= 1_000_000_000 ==> self.seconds % 60 == 59)
    }

    /// The time as text: hour, minute and second with two digits each and
    /// `:` between them, then the fraction of the second. A leap second is
    /// written as second 60.
    pub open spec fn text(self) -> Seq<char> {
        let leap = self.nanos >= 1_000_000_000;
        let second: nat = if leap {
            (self.seconds % 60 + 1) as nat
        } else {
            (self.seconds % 60) as nat
        };
        let nanos: nat = if leap {
            (self.nanos - 1_000_000_000) as nat
        } else {
            self.nanos as nat
        };
        two_digits((self.seconds / 3600) as nat) + seq![':'] + two_digits(
            ((self.seconds / 60) % 60) as nat,
        ) + seq![':'] + two_digits(second) + fraction_text(nanos)
    }

    /// The time of `hour`, `minute` and `second`, where the day has it.
    pub fn from_hms(hour: u32, minute: u32, second: u32) -> (time: Option<TimeOfDay>)
        ensures
            time == if hour < 24 && minute < 60 && second < 60 {
                Some(TimeOfDay { seconds: (hour * 3600 + minute * 60 + second) as u32, nanos: 0 })
            } else {
                None::<TimeOfDay>
            },
            time matches Some(t) ==> t.is_valid(),
    {
        if hour < 24 && minute < 60 && second < 60 {
            Some(TimeOfDay { seconds: hour * 3600 + minute * 60 + second, nanos: 0 })
        } else {
            None
        }
    }
}

/// chrono's `NaiveTime::from_str`, which reads hour, minute, an optional
/// second and an optional fraction. The time it makes is handed on as its
/// `num_seconds_from_midnight` and `nanosecond`; chrono keeps both within
/// the bounds of `is_valid`.
#[verifier::external_body]
pub(crate) fn parse_time(text: &str) -> (time: Option<TimeOfDay>)
    ensures
        time == time_text_parsed(text@),
        time matches Some(t) ==> t.is_valid(),
{
    text.parse::<chrono::NaiveTime>().ok().map(|time| TimeOfDay {
        seconds: chrono::Timelike::num_seconds_from_midnight(&time),
        nanos: chrono::Timelike::nanosecond(&time),
    })
}

/// chrono's `NaiveTime::from_num_seconds_from_midnight_opt`, which makes a
/// time exactly from values within the bounds of `is_valid`, then the
/// `Display` of that time: two digits each for hour, minute and second, a
/// leap second as second 60, and a fraction of three, six or nine digits
/// where the nanoseconds are not zero.
#[verifier::external_body]
pub(crate) fn time_text_of(time: TimeOfDay) -> (text: Option<String>)
    ensures
        match text {
            Some(written) => time.is_valid() && written@ == time.text(),
            None => !time.is_valid(),
        },
{
    chrono::NaiveTime::from_num_seconds_from_midnight_opt(time.seconds, time.nanos)
        .map(|time| time.to_string())
}

} // verus!
