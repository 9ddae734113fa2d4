//! Calendar days: the day a caller asks for, written as text, and the day on
//! which a timestamp falls.

use chrono::Datelike;
use vstd::prelude::*;

verus! {

/// A day of the proleptic Gregorian calendar.
#[derive(Clone, Copy, Debug, PartialEq, Eq, Structural)]
pub struct CalendarDate {
    pub year: i32,
    pub month: u32,
    pub day: u32,
}

/// Whether `year` has a 29th of February.
pub open spec fn is_leap_year(year: int) -> bool {
    year % 4 == 0 && (year % 100 != 0 || year % 400 == 0)
}

/// Number of days of `month` in `year`, for a month from 1 to 12.
pub open spec fn days_in_month(year: int, month: int) -> int {
    if month == 2 {
        if is_leap_year(year) {
            29
        } else {
            28
        }
    } else if month == 4 || month == 6 || month == 9 || month == 11 {
        30
    } else {
        31
    }
}

/// Whether the calendar has a day with these three numbers.
pub open spec fn is_calendar_day(year: int, month: int, day: int) -> bool {
    1 <= month <= 12 && 1 <= day <= days_in_month(year, month)
}

/// Whether `c` is one of the ASCII digits.
pub open spec fn is_decimal_digit(c: char) -> bool {
    '0' <= c <= '9'
}

/// The number that an ASCII digit stands for.
pub open spec fn digit_value(c: char) -> int {
    c as int - '0' as int
}

/// Whether `text` is written as `mm.dd.yyyy`: ten characters, ASCII digits with a
/// dot after the second and after the fourth digit.
pub open spec fn has_date_shape(text: Seq<char>) -> bool {
    &&& text.len() == 10
    &&& forall|i: int|
        0 <= i < 10 ==> if i == 2 || i == 5 {
            #[trigger] text[i] == '.'
        } else {
            is_decimal_digit(text[i])
        }
}

/// The month that a text of the shape `mm.dd.yyyy` names.
pub open spec fn month_of_text(text: Seq<char>) -> int {
    digit_value(text[0]) * 10 + digit_value(text[1])
}

/// The day that a text of the shape `mm.dd.yyyy` names.
pub open spec fn day_of_text(text: Seq<char>) -> int {
    digit_value(text[3]) * 10 + digit_value(text[4])
}

/// The year that a text of the shape `mm.dd.yyyy` names.
pub open spec fn year_of_text(text: Seq<char>) -> int {
    digit_value(text[6]) * 1000 + digit_value(text[7]) * 100 + digit_value(text[8]) * 10
        + digit_value(text[9])
}

/// The day that `text` asks for: it is written as `mm.dd.yyyy` and the calendar
/// has that day. Every other text asks for none.
pub open spec fn date_of_text(text: Seq<char>) -> Option<CalendarDate> {
    if has_date_shape(text) && is_calendar_day(
        year_of_text(text),
        month_of_text(text),
        day_of_text(text),
    ) {
        Some(
            CalendarDate {
                year: year_of_text(text) as i32,
                month: month_of_text(text) as u32,
                day: day_of_text(text) as u32,
            },
        )
    } else {
        None
    }
}

/// A text that is read names a day that the calendar has, in a year from 0 to
/// 9999.
pub proof fn lemma_read_date_is_a_calendar_day(text: Seq<char>)
    requires
        date_of_text(text) is Some,
    ensures
        0 <= date_of_text(text)->0.year <= 9999,
        is_calendar_day(
            date_of_text(text)->0.year as int,
            date_of_text(text)->0.month as int,
            date_of_text(text)->0.day as int,
        ),
{
}

/// A day has one spelling: two texts that name the same day are the same text.
pub proof fn lemma_one_spelling_per_day(a: Seq<char>, b: Seq<char>)
    requires
        date_of_text(a) is Some,
        date_of_text(a) == date_of_text(b),
    ensures
        a == b,
{
    assert(month_of_text(a) == month_of_text(b));
    assert(day_of_text(a) == day_of_text(b));
    assert(year_of_text(a) == year_of_text(b));
}

/// The UTC calendar day on which the instant `seconds` after
/// 1970-01-01T00:00:00Z falls, as `chrono::DateTime::from_timestamp` reckons
/// it; `None` where it has no such day.
pub uninterp spec fn utc_date(seconds: i64) -> Option<CalendarDate>;

/// Calls `chrono::NaiveDate::parse_from_str` with the format `%m.%d.%Y`.
///
/// Trusted: on a text of the shape `mm.dd.yyyy` the parser takes the first two
/// digits for the month, the next two for the day and the last four for the
/// year, and answers with that day exactly when the proleptic Gregorian
/// calendar has it. Its error, for a day that the calendar lacks, is dropped.
/// Nothing is claimed of other texts, which the parser reads more leniently.
#[verifier::external_body]
fn read_shaped_date(text: &str) -> (date: Option<CalendarDate>)
    requires
        has_date_shape(text@),
    ensures
        date == date_of_text(text@),
{
    chrono::NaiveDate::parse_from_str(text, "%m.%d.%Y").ok().map(
        |d| CalendarDate { year: d.year(), month: d.month(), day: d.day() },
    )
}

/// Calls `chrono::DateTime::from_timestamp` with `seconds` and no nanoseconds,
/// and takes the date of the result in UTC.
///
/// Trusted: the same `seconds` give the same day, or none, wherever the call
/// is made. Which day that is, is not stated.
#[verifier::external_body]
pub(crate) fn date_of_timestamp(seconds: i64) -> (date: Option<CalendarDate>)
    ensures
        date == utc_date(seconds),
{
    chrono::DateTime::from_timestamp(seconds, 0).map(|t| t.date_naive()).map(
        |d| CalendarDate { year: d.year(), month: d.month(), day: d.day() },
    )
}

/// Tells whether `text` is written as `mm.dd.yyyy`.
fn check_date_shape(text: &str) -> (ok: bool)
    ensures
        ok == has_date_shape(text@),
{
    if text.unicode_len() != 10 {
        return false;
    }
    let mut i: usize = 0;
    while i < 10
        invariant
            i <= 10,
            text@.len() == 10,
            forall|j: int|
                0 <= j < i ==> if j == 2 || j == 5 {
                    #[trigger] text@[j] == '.'
                } else {
                    is_decimal_digit(text@[j])
                },
        decreases 10 - i,
    {
        let c = text.get_char(i);
        let fits = if i == 2 || i == 5 {
            c == '.'
        } else {
            '0' <= c && c <= '9'
        };
        if !fits {
            return false;
        }
        i += 1;
    }
    true
}

/// Reads the day that a caller asks for.
///
/// The text is taken strictly: month, day and year in that order, two, two and
/// four ASCII digits, a dot between them, and the day must exist.
pub fn parse_date(text: &str) -> (date: Option<CalendarDate>)
    ensures
        date == date_of_text(text@),
{
    if check_date_shape(text) {
        read_shaped_date(text)
    } else {
        None
    }
}

} // verus!
