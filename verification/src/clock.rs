//! The time and the date as they are shown.
use vstd::prelude::*;

verus! {

/// How the time is shown, in the notation of `strftime`.
pub const TIME_FORMAT: &'static str = "%H:%M";

/// How the date is shown, in the notation of `strftime`.
pub const DATE_FORMAT: &'static str = "%A, %B %d";

/// A moment, as the clocks and calendars around the user show it.
#[derive(Debug, Clone, Copy, PartialEq, Eq, Structural)]
pub struct LocalTime {
    pub year: i32,
    pub month: u32,
    pub day: u32,
    pub hour: u32,
    pub minute: u32,
}

/// Whether a year of the Gregorian calendar has a 29th of February.
pub open spec fn leap_year(year: int) -> bool {
    year % 4 == 0 && (year % 100 != 0 || year % 400 == 0)
}

/// The number of days of a month.
pub open spec fn days_in_month(year: int, month: int) -> int {
    if month == 2 {
        if leap_year(year) {
            29
        } else {
            28
        }
    } else if month == 4 || month == 6 || month == 9 || month == 11 {
        30
    } else {
        31
    }
}

/// The number of days of a year that come before a month.
pub open spec fn days_before_month(year: int, month: int) -> int
    decreases month,
{
    if month <= 1 {
        0
    } else {
        days_before_month(year, month - 1) + days_in_month(year, month - 1)
    }
}

/// The day of the week, counted from Monday. The first day of the year 1 is a
/// Monday.
pub open spec fn weekday(year: int, month: int, day: int) -> int {
    let past = year - 1;
    (365 * past + past / 4 - past / 100 + past / 400 + days_before_month(year, month) + day - 1) % 7
}

/// The name of a day of the week, counted from Monday.
pub open spec fn weekday_name(weekday: int) -> Seq<char> {
    if weekday == 0 {
        "Monday"@
    } else if weekday == 1 {
        "Tuesday"@
    } else if weekday == 2 {
        "Wednesday"@
    } else if weekday == 3 {
        "Thursday"@
    } else if weekday == 4 {
        "Friday"@
    } else if weekday == 5 {
        "Saturday"@
    } else {
        "Sunday"@
    }
}

/// The name of a month.
pub open spec fn month_name(month: int) -> Seq<char> {
    if month == 1 {
        "January"@
    } else if month == 2 {
        "February"@
    } else if month == 3 {
        "March"@
    } else if month == 4 {
        "April"@
    } else if month == 5 {
        "May"@
    } else if month == 6 {
        "June"@
    } else if month == 7 {
        "July"@
    } else if month == 8 {
        "August"@
    } else if month == 9 {
        "September"@
    } else if month == 10 {
        "October"@
    } else if month == 11 {
        "November"@
    } else {
        "December"@
    }
}

/// A digit as a character.
pub open spec fn digit(n: int) -> char {
    (0x30 + n) as char
}

/// A number below one hundred with two digits.
pub open spec fn two_digits(n: int) -> Seq<char> {
    seq![digit(n / 10), digit(n % 10)]
}

impl LocalTime {
    /// Whether the moment exists, in a year that `chrono` knows.
    pub open spec fn exists_in_calendar(self) -> bool {
        &&& -262143 <= self.year <= 262142
        &&& 1 <= self.month <= 12
        &&& 1 <= self.day <= days_in_month(self.year as int, self.month as int)
        &&& self.hour < 24
        &&& self.minute < 60
    }

    /// The time of day as it is shown, such as `08:05`.
    pub open spec fn clock(self) -> Seq<char> {
        two_digits(self.hour as int) + seq![':'] + two_digits(self.minute as int)
    }

    /// The date as it is shown, such as `Saturday, November 01`.
    pub open spec fn calendar(self) -> Seq<char> {
        weekday_name(weekday(self.year as int, self.month as int, self.day as int)) + seq![
            ',',
            ' ',
        ] + month_name(self.month as int) + seq![' '] + two_digits(self.day as int)
    }
}

/// Formats a moment through `chrono`.
///
/// `NaiveDate::from_ymd_opt` and `NaiveDate::and_hms_opt` make the moment, which
/// they refuse exactly where it is not in the calendar or its year is outside the
/// range of `NaiveDate`. `NaiveDateTime::format` then writes it: `%H`, `%M` and
/// `%d` as two digits, `%A` and `%B` as the full English names of the day of the
/// week and of the month, everything else as it stands. Other patterns are left
/// out, since writing one that `chrono` does not know panics.
#[verifier::external_body]
fn format_moment(moment: &LocalTime, pattern: &str) -> (res: Option<String>)
    requires
        pattern@ == TIME_FORMAT@ || pattern@ == DATE_FORMAT@,
    ensures
        res is Some <==> moment.exists_in_calendar(),
        res is Some && pattern@ == TIME_FORMAT@ ==> res->0@ == moment.clock(),
        res is Some && pattern@ == DATE_FORMAT@ ==> res->0@ == moment.calendar(),
{
    let date = chrono::NaiveDate::from_ymd_opt(moment.year, moment.month, moment.day)?;
    let time = date.and_hms_opt(moment.hour, moment.minute, 0)?;
    Some(time.format(pattern).to_string())
}

/// The time of day to show. A moment that is not in the calendar has none.
pub fn time_text(moment: &LocalTime) -> (res: Option<String>)
    ensures
        res is Some <==> moment.exists_in_calendar(),
        res matches Some(text) ==> text@ == moment.clock(),
{
    format_moment(moment, TIME_FORMAT)
}

/// The date to show. A moment that is not in the calendar has none.
pub fn date_text(moment: &LocalTime) -> (res: Option<String>)
    ensures
        res is Some <==> moment.exists_in_calendar(),
        res matches Some(text) ==> text@ == moment.calendar(),
{
    format_moment(moment, DATE_FORMAT)
}

} // verus!
