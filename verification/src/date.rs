//! Purchase dates: the text format `YYYY/MM/DD` and the calendar behind it.

use vstd::prelude::*;
use chrono::NaiveDate;
use crate::text::{all_digits, chars_of, digit_of, digit_value, is_digit, is_digit_char};

verus! {

/// Whether `year` has a 29th of February in the proleptic Gregorian calendar.
pub open spec fn is_leap_year(year: int) -> bool {
    year % 4 == 0 && (year % 100 != 0 || year % 400 == 0)
}

/// How many days `month` has in `year`, for a month from 1 to 12.
pub open spec fn days_in_month(year: int, month: int) -> int {
    if month == 2 {
        if is_leap_year(year) {
            29
        } else {
            28
        }
    } else if month == 4 || month == 6 || month == 9 || month == 11 {
        30
    } else {
        31
    }
}

/// Whether the calendar has the day `day` of the month `month` of `year`.
pub open spec fn is_calendar_date(year: int, month: int, day: int) -> bool {
    1 <= month <= 12 && 1 <= day <= days_in_month(year, month)
}

/// A day of the calendar, as three numbers.
pub struct CalendarDay {
    pub year: int,
    pub month: int,
    pub day: int,
}

/// Whether position `k` of a ten-character text holds what the format
/// `YYYY/MM/DD` wants there: a slash at 4 and at 7, a digit elsewhere.
pub open spec fn fits_format(s: Seq<char>, k: int) -> bool {
    if k == 4 || k == 7 {
        s[k] == '/'
    } else {
        is_digit(s[k])
    }
}

/// Whether a text has the shape `YYYY/MM/DD`: ten characters, digits
/// everywhere but at the two slashes.
pub open spec fn has_date_shape(s: Seq<char>) -> bool {
    &&& s.len() == 10
    &&& all_digits(s.subrange(0, 4))
    &&& s[4] == '/'
    &&& all_digits(s.subrange(5, 7))
    &&& s[7] == '/'
    &&& all_digits(s.subrange(8, 10))
}

/// The year that a text of the shape `YYYY/MM/DD` names.
pub open spec fn year_of(s: Seq<char>) -> int {
    digit_value(s[0]) * 1000 + digit_value(s[1]) * 100 + digit_value(s[2]) * 10 + digit_value(s[3])
}

/// The month that a text of the shape `YYYY/MM/DD` names.
pub open spec fn month_of(s: Seq<char>) -> int {
    digit_value(s[5]) * 10 + digit_value(s[6])
}

/// The day of the month that a text of the shape `YYYY/MM/DD` names.
pub open spec fn day_of(s: Seq<char>) -> int {
    digit_value(s[8]) * 10 + digit_value(s[9])
}

/// Why a text is not a purchase date.
#[derive(Debug, Clone, Copy, PartialEq, Eq, Structural)]
pub enum DateError {
    /// The text has fewer than ten characters.
    TooShort,
    /// The text has more than ten characters.
    TooLong,
    /// The text has ten characters, but not digits and slashes where the
    /// format wants them.
    Invalid,
    /// The text has the right shape, but the calendar has no such day.
    OutOfRange,
}

/// The sentence that tells the user why a text is not a purchase date.
pub open spec fn error_text(reason: DateError) -> Seq<char> {
    match reason {
        DateError::TooShort => "premature end of input"@,
        DateError::TooLong => "trailing input"@,
        DateError::Invalid => "input contains invalid characters"@,
        DateError::OutOfRange => "input is out of range"@,
    }
}

impl DateError {
    /// A sentence for the person who typed the text.
    pub fn message(&self) -> (text: &'static str)
        ensures
            text@ == error_text(*self),
    {
        match self {
            DateError::TooShort => "premature end of input",
            DateError::TooLong => "trailing input",
            DateError::Invalid => "input contains invalid characters",
            DateError::OutOfRange => "input is out of range",
        }
    }
}

/// What reading a text as a purchase date gives: the day it names, or the
/// first reason why it names none.
pub open spec fn read_date(s: Seq<char>) -> Result<CalendarDay, DateError> {
    if s.len() < 10 {
        Err(DateError::TooShort)
    } else if s.len() > 10 {
        Err(DateError::TooLong)
    } else if !has_date_shape(s) {
        Err(DateError::Invalid)
    } else if !is_calendar_date(year_of(s), month_of(s), day_of(s)) {
        Err(DateError::OutOfRange)
    } else {
        Ok(CalendarDay { year: year_of(s), month: month_of(s), day: day_of(s) })
    }
}

/// Asks `chrono::NaiveDate::from_ymd_opt` whether the calendar has a day.
///
/// Trusted: for a year from 0 to 9999, which lies well inside the years that
/// `NaiveDate` can hold, `from_ymd_opt` returns a date exactly when the month
/// is one of the twelve and the day exists in that month of the proleptic
/// Gregorian calendar.
#[verifier::external_body]
fn calendar_has(year: i32, month: u32, day: u32) -> (found: bool)
    requires
        0 <= year <= 9999,
    ensures
        found == is_calendar_date(year as int, month as int, day as int),
{
    NaiveDate::from_ymd_opt(year, month, day).is_some()
}

/// A moment as it is written to the store: a calendar day, a time of day and
/// the offset from UTC in seconds.
#[derive(Debug, Clone, Copy, PartialEq, Eq, Structural)]
pub struct Timestamp {
    pub year: i32,
    pub month: u32,
    pub day: u32,
    pub hour: u32,
    pub minute: u32,
    pub second: u32,
    pub offset_seconds: i32,
}

/// The day on which something was bought: a day that the calendar has, in a
/// year from 0 to 9999.
#[derive(Debug, Clone, Copy, PartialEq, Eq)]
pub struct PurchaseDate {
    year: i32,
    month: u32,
    day: u32,
}

impl View for PurchaseDate {
    type V = CalendarDay;

    closed spec fn view(&self) -> CalendarDay {
        CalendarDay { year: self.year as int, month: self.month as int, day: self.day as int }
    }
}

impl PurchaseDate {
    #[verifier::type_invariant]
    spec fn on_calendar(self) -> bool {
        0 <= self.year <= 9999 && is_calendar_date(
            self.year as int,
            self.month as int,
            self.day as int,
        )
    }

    /// Reads a text of the format `YYYY/MM/DD`.
    pub fn parse(text: &str) -> (parsed: Result<PurchaseDate, DateError>)
        ensures
            match parsed {
                Ok(date) => read_date(text@) == Ok::<CalendarDay, DateError>(date@),
                Err(reason) => read_date(text@) == Err::<CalendarDay, DateError>(reason),
            },
    {
        let chars = chars_of(text);
        if chars.len() < 10 {
            return Err(DateError::TooShort);
        }
        if chars.len() > 10 {
            return Err(DateError::TooLong);
        }
        let mut i: usize = 0;
        while i < 10
            invariant
                i <= 10,
                chars@ == text@,
                chars@.len() == 10,
                forall|k: int| 0 <= k < i ==> #[trigger] fits_format(chars@, k),
            decreases 10 - i,
        {
            let fits = if i == 4 || i == 7 {
                chars[i] == '/'
            } else {
                is_digit_char(chars[i])
            };
            if !fits {
                proof {
                    lemma_shape_by_position(chars@);
                    assert(!fits_format(chars@, i as int));
                }
                return Err(DateError::Invalid);
            }
            i = i + 1;
        }
        proof {
            lemma_shape_by_position(chars@);
            assert(fits_format(chars@, 0) && fits_format(chars@, 1) && fits_format(chars@, 2));
            assert(fits_format(chars@, 3) && fits_format(chars@, 5) && fits_format(chars@, 6));
            assert(fits_format(chars@, 8) && fits_format(chars@, 9));
        }
        let year: u32 = digit_of(chars[0]) * 1000 + digit_of(chars[1]) * 100 + digit_of(chars[2])
            * 10 + digit_of(chars[3]);
        let month: u32 = digit_of(chars[5]) * 10 + digit_of(chars[6]);
        let day: u32 = digit_of(chars[8]) * 10 + digit_of(chars[9]);
        let year = year as i32;
        if calendar_has(year, month, day) {
            Ok(PurchaseDate { year, month, day })
        } else {
            Err(DateError::OutOfRange)
        }
    }

    /// The first day of 1970.
    pub fn epoch() -> (date: PurchaseDate)
        ensures
            date@ == (CalendarDay { year: 1970, month: 1, day: 1 }),
    {
        PurchaseDate { year: 1970, month: 1, day: 1 }
    }

    /// The year, from 0 to 9999.
    pub fn year(&self) -> (year: i32)
        ensures
            year == self@.year,
            0 <= year <= 9999,
    {
        proof {
            use_type_invariant(self);
        }
        self.year
    }

    /// The month, from 1 to 12.
    pub fn month(&self) -> (month: u32)
        ensures
            month == self@.month,
            1 <= month <= 12,
    {
        proof {
            use_type_invariant(self);
        }
        self.month
    }

    /// The day of the month: a day that the month has in that year.
    pub fn day(&self) -> (day: u32)
        ensures
            day == self@.day,
            is_calendar_date(self@.year, self@.month, self@.day),
    {
        proof {
            use_type_invariant(self);
        }
        self.day
    }

    /// The moment that stands for this day in the store: its midnight, at
    /// offset zero from UTC.
    pub fn at_midnight_utc(&self) -> (moment: Timestamp)
        ensures
            moment.year == self@.year,
            moment.month == self@.month,
            moment.day == self@.day,
            moment.hour == 0,
            moment.minute == 0,
            moment.second == 0,
            moment.offset_seconds == 0,
    {
        Timestamp {
            year: self.year,
            month: self.month,
            day: self.day,
            hour: 0,
            minute: 0,
            second: 0,
            offset_seconds: 0,
        }
    }
}

/// A text of ten characters has the date shape exactly when each position
/// holds what the format wants there.
pub proof fn lemma_shape_by_position(s: Seq<char>)
    requires
        s.len() == 10,
    ensures
        has_date_shape(s) <==> (forall|k: int| 0 <= k < 10 ==> #[trigger] fits_format(s, k)),
{
    if has_date_shape(s) {
        assert forall|k: int| 0 <= k < 10 implies #[trigger] fits_format(s, k) by {
            if k < 4 {
                assert(s.subrange(0, 4)[k] == s[k]);
            } else if 5 <= k < 7 {
                assert(s.subrange(5, 7)[k - 5] == s[k]);
            } else if 8 <= k {
                assert(s.subrange(8, 10)[k - 8] == s[k]);
            }
        }
    }
    if forall|k: int| 0 <= k < 10 ==> #[trigger] fits_format(s, k) {
        assert(fits_format(s, 0) && fits_format(s, 1) && fits_format(s, 2) && fits_format(s, 3));
        assert(fits_format(s, 4) && fits_format(s, 5) && fits_format(s, 6) && fits_format(s, 7));
        assert(fits_format(s, 8) && fits_format(s, 9));
    }
}

/// A text reads as a purchase date exactly when it has the shape
/// `YYYY/MM/DD` and the calendar has the day it names.
pub proof fn lemma_read_date_by_format(s: Seq<char>)
    ensures
        read_date(s) is Ok <==> has_date_shape(s) && is_calendar_date(
            year_of(s),
            month_of(s),
            day_of(s),
        ),
{
}

} // verus!
