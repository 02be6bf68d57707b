use vstd::prelude::*;

verus! {

/// The pattern of the date line: full month name, day of the month in two digits,
/// a comma, and the year.
pub const DATE_PATTERN: &'static str = "%B %d, %Y";

/// The English name of a month, counted from 1.
pub open spec fn month_name(month: int) -> Seq<char> {
    if month == 1 {
        "January"@
    } else if month == 2 {
        "February"@
    } else if month == 3 {
        "March"@
    } else if month == 4 {
        "April"@
    } else if month == 5 {
        "May"@
    } else if month == 6 {
        "June"@
    } else if month == 7 {
        "July"@
    } else if month == 8 {
        "August"@
    } else if month == 9 {
        "September"@
    } else if month == 10 {
        "October"@
    } else if month == 11 {
        "November"@
    } else {
        "December"@
    }
}

/// The decimal digit for a number below ten.
pub open spec fn digit(n: int) -> char {
    if n == 0 {
        '0'
    } else if n == 1 {
        '1'
    } else if n == 2 {
        '2'
    } else if n == 3 {
        '3'
    } else if n == 4 {
        '4'
    } else if n == 5 {
        '5'
    } else if n == 6 {
        '6'
    } else if n == 7 {
        '7'
    } else if n == 8 {
        '8'
    } else {
        '9'
    }
}

/// A day of the month in two digits, with a leading zero below ten.
pub open spec fn two_digits(day: int) -> Seq<char> {
    seq![digit(day / 10), digit(day % 10)]
}

/// The label of a date: month name, a space, the day in two digits, a comma and a
/// space, and the year as written out.
pub open spec fn date_label(month: int, day: int, year: Seq<char>) -> Seq<char> {
    month_name(month) + " "@ + two_digits(day) + ", "@ + year
}

/// Whether a text is the label of some date. The year takes at least four
/// characters: it is padded with zeros below 1000 and carries a sign beyond 9999.
pub open spec fn is_date_label(label: Seq<char>) -> bool {
    exists|month: int, day: int, year: Seq<char>|
        1 <= month <= 12 && 1 <= day <= 31 && year.len() >= 4 && label == #[trigger] date_label(
            month,
            day,
            year,
        )
}

/// Reads the clock with `chrono::Local::now` and formats the local date with
/// `DateTime::format`. Only the date pattern is admitted, whose items the formatter
/// knows. Trusted: the text has the shape of a date label. Which date it shows
/// depends on the clock and the time zone of the machine.
#[verifier::external_body]
fn format_local_now(pattern: &str) -> (label: String)
    requires
        pattern@ == DATE_PATTERN@,
    ensures
        is_date_label(label@),
{
    chrono::Local::now().format(pattern).to_string()
}

/// The label of today's local date, as in "March 04, 2025".
pub fn today_label() -> (label: String)
    ensures
        is_date_label(label@),
{
    format_local_now(DATE_PATTERN)
}

} // verus!
