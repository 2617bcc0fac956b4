use vstd::prelude::*;
use crate::text::to_chars;

verus! {

/// A calendar date.
#[derive(Debug, Clone, Copy, PartialEq, Eq, Structural)]
pub struct Date {
    pub year: i32,
    pub month: u8,
    pub day: u8,
}

/// A date with a time of day, without a time zone.
#[derive(Debug, Clone, Copy, PartialEq, Eq, Structural)]
pub struct DateTime {
    pub date: Date,
    /// Seconds since midnight.
    pub second: u32,
    pub nanosecond: u32,
}

/// The value of a decimal digit.
pub open spec fn digit_value(c: char) -> Option<int> {
    if '0' <= c && c <= '9' {
        Some(c as int - '0' as int)
    } else {
        None
    }
}

/// Whether a year of the Gregorian calendar has a 29th of February.
pub open spec fn is_leap_year(year: int) -> bool {
    year % 4 == 0 && (year % 100 != 0 || year % 400 == 0)
}

/// The number of days of a month.
pub open spec fn days_in_month(year: int, month: int) -> int {
    if month == 2 {
        if is_leap_year(year) {
            29
        } else {
            28
        }
    } else if month == 4 || month == 6 || month == 9 || month == 11 {
        30
    } else {
        31
    }
}

/// The number that two digits spell.
pub open spec fn two_digits(s: Seq<char>, at: int) -> Option<int> {
    match (digit_value(s[at]), digit_value(s[at + 1])) {
        (Some(a), Some(b)) => Some(a * 10 + b),
        _ => None,
    }
}

/// The date that a text spells in the form `YYYY-MM-DD`, if it spells a date
/// of the calendar.
pub open spec fn date_of(s: Seq<char>) -> Option<Date> {
    if s.len() == 10 && s[4] == '-' && s[7] == '-' {
        match (two_digits(s, 0), two_digits(s, 2), two_digits(s, 5), two_digits(s, 8)) {
            (Some(century), Some(year), Some(month), Some(day)) => if 1 <= month <= 12 && 1 <= day
                <= days_in_month(century * 100 + year, month) {
                Some(
                    Date {
                        year: (century * 100 + year) as i32,
                        month: month as u8,
                        day: day as u8,
                    },
                )
            } else {
                None
            },
            _ => None,
        }
    } else {
        None
    }
}

fn digit_at(s: &Vec<char>, at: usize) -> (r: Option<u32>)
    requires
        at < s.len(),
    ensures
        match r {
            Some(d) => digit_value(s@[at as int]) == Some(d as int) && d <= 9,
            None => digit_value(s@[at as int]) is None,
        },
{
    let c = s[at];
    if '0' <= c && c <= '9' {
        Some(c as u32 - '0' as u32)
    } else {
        None
    }
}

fn two_digits_at(s: &Vec<char>, at: usize) -> (r: Option<u32>)
    requires
        at + 1 < s.len(),
    ensures
        match r {
            Some(n) => two_digits(s@, at as int) == Some(n as int) && n <= 99,
            None => two_digits(s@, at as int) is None,
        },
{
    match (digit_at(s, at), digit_at(s, at + 1)) {
        (Some(a), Some(b)) => Some(a * 10 + b),
        _ => None,
    }
}

fn month_length(year: u32, month: u32) -> (r: u32)
    ensures
        r == days_in_month(year as int, month as int),
{
    if month == 2 {
        if year % 4 == 0 && (year % 100 != 0 || year % 400 == 0) {
            29
        } else {
            28
        }
    } else if month == 4 || month == 6 || month == 9 || month == 11 {
        30
    } else {
        31
    }
}

impl Date {
    /// Reads a date in the form `YYYY-MM-DD`.
    pub fn parse(text: &str) -> (r: Option<Date>)
        ensures
            r == date_of(text@),
    {
        let s = to_chars(text);
        if s.len() != 10 || s[4] != '-' || s[7] != '-' {
            return None;
        }
        let century = two_digits_at(&s, 0);
        let year = two_digits_at(&s, 2);
        let month = two_digits_at(&s, 5);
        let day = two_digits_at(&s, 8);
        match (century, year, month, day) {
            (Some(century), Some(year), Some(month), Some(day)) => {
                let year = century * 100 + year;
                if 1 <= month && month <= 12 && 1 <= day && day <= month_length(year, month) {
                    Some(Date { year: year as i32, month: month as u8, day: day as u8 })
                } else {
                    None
                }
            },
            _ => None,
        }
    }

    /// A number that orders dates as the calendar does: by year, then month,
    /// then day.
    pub open spec fn key(self) -> int {
        (self.year * 256 + self.month) * 256 + self.day
    }

    /// Whether this date is `other` or comes before it.
    pub fn on_or_before(&self, other: &Date) -> (r: bool)
        ensures
            r == (self.key() <= other.key()),
    {
        if self.year != other.year {
            self.year < other.year
        } else if self.month != other.month {
            self.month < other.month
        } else {
            self.day <= other.day
        }
    }

    /// The first instant of this date.
    pub fn at_midnight(&self) -> (r: DateTime)
        ensures
            r == (DateTime { date: *self, second: 0, nanosecond: 0 }),
    {
        DateTime { date: *self, second: 0, nanosecond: 0 }
    }
}

impl DateTime {
    /// The first instant of 1970, which stands in for a missing date.
    pub fn epoch() -> (r: DateTime)
        ensures
            r == (DateTime { date: Date { year: 1970, month: 1, day: 1 }, second: 0, nanosecond: 0 }),
    {
        DateTime { date: Date { year: 1970, month: 1, day: 1 }, second: 0, nanosecond: 0 }
    }

    /// A number that orders instants as time does: by date, then second, then
    /// nanosecond.
    pub open spec fn key(self) -> int {
        (self.date.key() * 0x1_0000_0000 + self.second) * 0x1_0000_0000 + self.nanosecond
    }

    /// Whether this instant is `other` or comes before it.
    pub fn on_or_before(&self, other: &DateTime) -> (r: bool)
        ensures
            r == (self.key() <= other.key()),
    {
        if self.date.year != other.date.year {
            self.date.year < other.date.year
        } else if self.date.month != other.date.month {
            self.date.month < other.date.month
        } else if self.date.day != other.date.day {
            self.date.day < other.date.day
        } else if self.second != other.second {
            self.second < other.second
        } else {
            self.nanosecond <= other.nanosecond
        }
    }
}

/// Instants on an earlier date come before every instant of a later date, and
/// instants of one date are ordered among themselves: the date of an instant
/// is on or after `bound` exactly when the instant is on or after the first
/// instant of `bound`.
pub proof fn lemma_date_of_instant(t: DateTime, bound: Date)
    ensures
        t.date.key() >= bound.key() <==> t.key() >= (DateTime {
            date: bound,
            second: 0,
            nanosecond: 0,
        }).key(),
{
}

} // verus!
