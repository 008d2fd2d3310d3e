//! Calendar dates in the proleptic Gregorian calendar, and the day before a
//! given day.

use crate::text::{four_digits, two_digits};
use vstd::prelude::*;

verus! {

/// The earliest year in which a date can lie.
pub const MIN_YEAR: i32 = -262143;

/// The latest year in which a date can lie.
pub const MAX_YEAR: i32 = 262142;

/// Whether `year` has a 29th of February. Years are numbered astronomically:
/// the year before year 1 is year 0.
pub open spec fn is_leap_year(year: int) -> bool {
    year % 4 == 0 && (year % 100 != 0 || year % 400 == 0)
}

/// The number of days of `month` in `year`.
pub open spec fn days_in_month(year: int, month: int) -> int {
    if month == 2 {
        if is_leap_year(year) {
            29
        } else {
            28
        }
    } else if month == 4 || month == 6 || month == 9 || month == 11 {
        30
    } else {
        31
    }
}

/// The number of days of `year` that lie before the first of `month`.
pub open spec fn days_before_month(year: int, month: int) -> int {
    let common: int = if month <= 1 {
        0
    } else if month == 2 {
        31
    } else if month == 3 {
        59
    } else if month == 4 {
        90
    } else if month == 5 {
        120
    } else if month == 6 {
        151
    } else if month == 7 {
        181
    } else if month == 8 {
        212
    } else if month == 9 {
        243
    } else if month == 10 {
        273
    } else if month == 11 {
        304
    } else {
        334
    };
    if month > 2 && is_leap_year(year) {
        common + 1
    } else {
        common
    }
}

/// The number of days between the first of January of year 1 and the first
/// of January of `year`; negative for years before year 1.
pub open spec fn days_before_year(year: int) -> int {
    let past = year - 1;
    365 * past + past / 4 - past / 100 + past / 400
}

/// A calendar date: year, month and day of the month.
#[derive(Clone, Copy, Debug, PartialEq, Eq, Structural)]
pub struct Date {
    pub year: i32,
    pub month: u32,
    pub day: u32,
}

impl Date {
    /// The date exists in the calendar and its year lies within
    /// `MIN_YEAR ..= MAX_YEAR`.
    pub open spec fn is_valid(self) -> bool {
        &&& MIN_YEAR <= self.year <= MAX_YEAR
        &&& 1 <= self.month <= 12
        &&& 1 <= self.day <= days_in_month(self.year as int, self.month as int)
    }

    /// The first date that can be held.
    pub open spec fn first() -> Date {
        Date { year: MIN_YEAR, month: 1, day: 1 }
    }

    /// The last date that can be held.
    pub open spec fn last() -> Date {
        Date { year: MAX_YEAR, month: 12, day: 31 }
    }

    /// The date's number when days are counted from the first of January of
    /// year 1, which is day 1.
    pub open spec fn day_number(self) -> int {
        days_before_year(self.year as int) + days_before_month(
            self.year as int,
            self.month as int,
        ) + self.day
    }

    /// Whether `self` comes before `other` in the calendar.
    pub open spec fn is_before(self, other: Date) -> bool {
        self.year < other.year || (self.year == other.year && (self.month < other.month || (
        self.month == other.month && self.day < other.day)))
    }

    /// The calendar day before `self`: the same month where there is one,
    /// else the last day of the month before, else the 31st of December of
    /// the year before.
    pub open spec fn previous(self) -> Date {
        if self.day > 1 {
            Date { year: self.year, month: self.month, day: (self.day - 1) as u32 }
        } else if self.month > 1 {
            Date {
                year: self.year,
                month: (self.month - 1) as u32,
                day: days_in_month(self.year as int, self.month - 1) as u32,
            }
        } else {
            Date { year: (self.year - 1) as i32, month: 12, day: 31 }
        }
    }

    /// The date as text: year, month and day, with `-` between them. The
    /// year has four digits, and a sign and at least four digits where it
    /// lies outside `0 ..= 9999`; month and day have two digits each.
    pub open spec fn iso_text(self) -> Seq<char> {
        year_text(self.year as int) + seq!['-'] + two_digits(self.month as nat) + seq!['-']
            + two_digits(self.day as nat)
    }

    /// The date of `year`, `month` and `day`, where the calendar has it.
    pub fn new(year: i32, month: u32, day: u32) -> (date: Option<Date>)
        ensures
            date == if (Date { year, month, day }).is_valid() {
                Some(Date { year, month, day })
            } else {
                None::<Date>
            },
    {
        if year < MIN_YEAR || year > MAX_YEAR || month < 1 || month > 12 || day < 1 {
            return None;
        }
        let leap = year % 4 == 0 && (year % 100 != 0 || year % 400 == 0);
        let length: u32 = if month == 2 {
            if leap {
                29
            } else {
                28
            }
        } else if month == 4 || month == 6 || month == 9 || month == 11 {
            30
        } else {
            31
        };
        if day <= length {
            Some(Date { year, month, day })
        } else {
            None
        }
    }

    /// The calendar day before `self`. There is none before the first date
    /// that can be held, and none for a value that is no date.
    pub fn previous_day(self) -> (earlier: Option<Date>)
        ensures
            earlier == if self.is_valid() && self != Date::first() {
                Some(self.previous())
            } else {
                None::<Date>
            },
    {
        match day_number_of(self) {
            None => None,
            Some(number) => {
                proof {
                    if self != Date::first() {
                        lemma_previous_is_one_day_earlier(self);
                        lemma_day_number_ascends(Date::first(), self);
                    }
                }
                let found = date_of_day_number(number - 1);
                proof {
                    match found {
                        Some(day) => {
                            if self == Date::first() {
                                if day != Date::first() {
                                    lemma_day_number_ascends(Date::first(), day);
                                }
                            } else {
                                lemma_day_number_injective(day, self.previous());
                            }
                        },
                        None => {
                            if self != Date::first() {
                                if self.previous() != Date::first() {
                                    lemma_day_number_ascends(Date::first(), self.previous());
                                }
                                if self.previous() != Date::last() {
                                    lemma_day_number_ascends(self.previous(), Date::last());
                                }
                            }
                        },
                    }
                }
                found
            },
        }
    }
}

/// The year of a date as text.
pub open spec fn year_text(year: int) -> Seq<char> {
    if 0 <= year <= 9999 {
        four_digits(year as nat)
    } else if year > 9999 {
        seq!['+'] + four_digits(year as nat)
    } else {
        seq!['-'] + four_digits((-year) as nat)
    }
}

/// chrono's `NaiveDate::from_ymd_opt`, then `Datelike::num_days_from_ce` on
/// the date it made. The first returns a date exactly for a year, month and
/// day that exist in the proleptic Gregorian calendar within chrono's range
/// of years; the second counts its days from the first of January of year 1
/// as day 1.
#[verifier::external_body]
fn day_number_of(date: Date) -> (number: Option<i32>)
    ensures
        match number {
            Some(n) => date.is_valid() && n == date.day_number(),
            None => !date.is_valid(),
        },
{
    chrono::NaiveDate::from_ymd_opt(date.year, date.month, date.day)
        .map(|day| chrono::Datelike::num_days_from_ce(&day))
}

/// chrono's `NaiveDate::from_num_days_from_ce_opt`: the date with the given
/// day number, and none where that day lies outside chrono's range of dates.
#[verifier::external_body]
fn date_of_day_number(number: i32) -> (date: Option<Date>)
    ensures
        match date {
            Some(day) => day.is_valid() && day.day_number() == number,
            None => number < Date::first().day_number() || number > Date::last().day_number(),
        },
{
    chrono::NaiveDate::from_num_days_from_ce_opt(number).map(|day| Date {
        year: chrono::Datelike::year(&day),
        month: chrono::Datelike::month(&day),
        day: chrono::Datelike::day(&day),
    })
}

/// chrono's `NaiveDate::from_ymd_opt`, then `NaiveDate::format` with
/// `%Y-%m-%d` on the date it made: the year zero-padded to four digits, with
/// a sign before it where it lies outside `0 ..= 9999`, then month and day
/// with two digits each.
#[verifier::external_body]
pub(crate) fn iso_text_of(date: Date) -> (text: Option<String>)
    ensures
        match text {
            Some(written) => date.is_valid() && written@ == date.iso_text(),
            None => !date.is_valid(),
        },
{
    chrono::NaiveDate::from_ymd_opt(date.year, date.month, date.day)
        .map(|day| day.format("%Y-%m-%d").to_string())
}

/// A year has 365 days, or 366 where it is a leap year.
pub proof fn lemma_year_length(year: int)
    ensures
        days_before_year(year + 1) - days_before_year(year) == if is_leap_year(year) {
            366int
        } else {
            365int
        },
{
}

/// The first days of later years have later numbers.
pub proof fn lemma_years_ascend(earlier: int, later: int)
    requires
        earlier <= later,
    ensures
        days_before_year(earlier) + 365 * (later - earlier) <= days_before_year(later),
    decreases later - earlier,
{
    if earlier < later {
        lemma_years_ascend(earlier, later - 1);
        lemma_year_length(later - 1);
    }
}

/// Day numbers keep the order of the calendar.
pub proof fn lemma_day_number_ascends(a: Date, b: Date)
    requires
        a.is_valid(),
        b.is_valid(),
        a.is_before(b),
    ensures
        a.day_number() < b.day_number(),
{
    if a.year < b.year {
        lemma_year_length(a.year as int);
        lemma_years_ascend(a.year + 1, b.year as int);
    }
}

/// Two dates with the same day number are the same date.
pub proof fn lemma_day_number_injective(a: Date, b: Date)
    requires
        a.is_valid(),
        b.is_valid(),
        a.day_number() == b.day_number(),
    ensures
        a == b,
{
    if a.is_before(b) {
        lemma_day_number_ascends(a, b);
    }
    if b.is_before(a) {
        lemma_day_number_ascends(b, a);
    }
}

/// The day before a date other than the first is a date, and its number is
/// one less.
pub proof fn lemma_previous_is_one_day_earlier(date: Date)
    requires
        date.is_valid(),
        date != Date::first(),
    ensures
        date.previous().is_valid(),
        date.previous().day_number() == date.day_number() - 1,
{
    if date.day == 1 && date.month == 1 {
        lemma_year_length(date.year - 1);
    }
}

} // verus!
