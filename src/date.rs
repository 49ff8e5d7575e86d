use chrono::Datelike;
use vstd::prelude::*;

verus! {

/// A calendar date of the proleptic Gregorian calendar, without time.
#[derive(Clone, Copy, Debug, PartialEq, Eq, Structural)]
pub struct Date {
    pub year: i32,
    pub month: u32,
    pub day: u32,
}

/// Day of the week.
#[derive(Clone, Copy, Debug, PartialEq, Eq, Structural)]
pub enum Weekday {
    Mon,
    Tue,
    Wed,
    Thu,
    Fri,
    Sat,
    Sun,
}

pub open spec fn is_leap_year(y: int) -> bool {
    (y % 4 == 0 && y % 100 != 0) || y % 400 == 0
}

pub open spec fn days_in_month(y: int, m: int) -> int {
    if m == 2 {
        if is_leap_year(y) { 29 } else { 28 }
    } else if m == 4 || m == 6 || m == 9 || m == 11 {
        30
    } else {
        31
    }
}

/// The range of years that the date arithmetic below supports.
pub const MIN_YEAR: i32 = -262000;
pub const MAX_YEAR: i32 = 262000;

impl Date {
    /// The date exists in the calendar and lies within the supported years.
    pub open spec fn valid(self) -> bool {
        MIN_YEAR <= self.year <= MAX_YEAR && 1 <= self.month <= 12 && 1 <= self.day
            <= days_in_month(self.year as int, self.month as int)
    }

    /// Days since 1970-01-01 (negative before it).
    pub open spec fn day_number(self) -> int {
        let y: int = if self.month <= 2 { self.year - 1 } else { self.year as int };
        let mp: int = if self.month > 2 { self.month - 3 } else { self.month + 9 };
        365 * y + y / 4 - y / 100 + y / 400 + (153 * mp + 2) / 5 + self.day - 1 - 719468
    }
}

/// The calendar day after `d`.
pub open spec fn successor(d: Date) -> Date {
    if d.day < days_in_month(d.year as int, d.month as int) {
        Date { year: d.year, month: d.month, day: (d.day + 1) as u32 }
    } else if d.month < 12 {
        Date { year: d.year, month: (d.month + 1) as u32, day: 1 }
    } else {
        Date { year: (d.year + 1) as i32, month: 1, day: 1 }
    }
}

/// The weekday of the date with the given day number; 1970-01-01 was a Thursday.
pub open spec fn weekday_of_day_number(n: int) -> Weekday {
    let k = (n + 3) % 7;
    if k == 0 {
        Weekday::Mon
    } else if k == 1 {
        Weekday::Tue
    } else if k == 2 {
        Weekday::Wed
    } else if k == 3 {
        Weekday::Thu
    } else if k == 4 {
        Weekday::Fri
    } else if k == 5 {
        Weekday::Sat
    } else {
        Weekday::Sun
    }
}

/// Format of an ISO date: year, month, day.
pub const ISO_FORMAT: &'static str = "%Y-%m-%d";

/// Format of a date written as day of month, month name, year.
pub const DAY_MONTH_YEAR_FORMAT: &'static str = "%d %B %Y";

pub open spec fn is_digit(c: char) -> bool {
    '0' <= c <= '9'
}

pub open spec fn all_digits(s: Seq<char>) -> bool {
    forall|i: int| 0 <= i < s.len() ==> is_digit(#[trigger] s[i])
}

/// The number that a string of decimal digits writes.
pub open spec fn digits_value(s: Seq<char>) -> int
    decreases s.len(),
{
    if s.len() == 0 {
        0
    } else {
        digits_value(s.drop_last()) * 10 + (s.last() as int - '0' as int)
    }
}

/// Month and day name a day of the calendar, whatever the year.
pub open spec fn month_and_day_exist(d: Date) -> bool {
    1 <= d.month <= 12 && 1 <= d.day <= days_in_month(d.year as int, d.month as int)
}

/// Text of the shape `dddd-dd-dd`, in ASCII digits.
pub open spec fn iso_shaped(t: Seq<char>) -> bool {
    &&& t.len() == 10
    &&& all_digits(t.subrange(0, 4))
    &&& t[4] == '-'
    &&& all_digits(t.subrange(5, 7))
    &&& t[7] == '-'
    &&& all_digits(t.subrange(8, 10))
}

/// The year, month and day that an ISO-shaped text writes.
pub open spec fn iso_date(t: Seq<char>) -> Date {
    Date {
        year: digits_value(t.subrange(0, 4)) as i32,
        month: digits_value(t.subrange(5, 7)) as u32,
        day: digits_value(t.subrange(8, 10)) as u32,
    }
}

/// The English name of month `m`.
pub open spec fn month_name(m: int) -> Seq<char> {
    if m == 1 {
        "January"@
    } else if m == 2 {
        "February"@
    } else if m == 3 {
        "March"@
    } else if m == 4 {
        "April"@
    } else if m == 5 {
        "May"@
    } else if m == 6 {
        "June"@
    } else if m == 7 {
        "July"@
    } else if m == 8 {
        "August"@
    } else if m == 9 {
        "September"@
    } else if m == 10 {
        "October"@
    } else if m == 11 {
        "November"@
    } else {
        "December"@
    }
}

/// `text` is two digits, a space, the name of month `m`, a space, four digits.
pub open spec fn day_month_year_shaped(text: Seq<char>, dd: Seq<char>, m: int, yy: Seq<char>) -> bool {
    &&& dd.len() == 2
    &&& all_digits(dd)
    &&& 1 <= m <= 12
    &&& yy.len() == 4
    &&& all_digits(yy)
    &&& text == dd + seq![' '] + month_name(m) + seq![' '] + yy
}

pub open spec fn day_month_year_date(dd: Seq<char>, m: int, yy: Seq<char>) -> Date {
    Date { year: digits_value(yy) as i32, month: m as u32, day: digits_value(dd) as u32 }
}

/// What `chrono::NaiveDate::parse_from_str` makes of `text` under `format`.
pub uninterp spec fn parsed_date(text: Seq<char>, format: Seq<char>) -> Option<Date>;

/// Relies on chrono's `NaiveDate::parse_from_str`: a date that the text gives under
/// the format, if any, which then exists in the calendar. `%Y` reads up to four
/// ASCII digits, `%m` and `%d` up to two, `%B` a month's name, a space any run
/// of white space; the whole text must be read and the date must exist.
#[verifier::external_body]
pub(crate) fn parse_date(text: &str, format: &str) -> (r: Option<Date>)
    ensures
        r == parsed_date(text@, format@),
        r matches Some(d) ==> month_and_day_exist(d),
        format@ == ISO_FORMAT@ && iso_shaped(text@) ==> r == if month_and_day_exist(
            iso_date(text@),
        ) {
            Some(iso_date(text@))
        } else {
            None
        },
        forall|dd: Seq<char>, m: int, yy: Seq<char>|
            format@ == DAY_MONTH_YEAR_FORMAT@ && #[trigger] day_month_year_shaped(text@, dd, m, yy)
                ==> r == if month_and_day_exist(day_month_year_date(dd, m, yy)) {
                Some(day_month_year_date(dd, m, yy))
            } else {
                None
            },
{
    chrono::NaiveDate::parse_from_str(text, format).ok().map(
        |d| Date { year: d.year(), month: d.month(), day: d.day() },
    )
}

/// Relies on chrono's `NaiveDate::from_ymd_opt` and `NaiveDate::succ_opt`: the
/// calendar day after a valid date.
#[verifier::external_body]
fn chrono_next_day(d: Date) -> (r: Option<Date>)
    requires
        d.valid(),
    ensures
        r matches Some(n) ==> n == successor(d),
        r matches Some(n) ==> n.day_number() == d.day_number() + 1 && 1 <= n.month <= 12
            && 1 <= n.day <= days_in_month(n.year as int, n.month as int) && (n.year == d.year
            || n.year == d.year + 1),
        d.year < MAX_YEAR ==> r is Some,
{
    chrono::NaiveDate::from_ymd_opt(d.year, d.month, d.day).and_then(|n| n.succ_opt()).map(
        |n| Date { year: n.year(), month: n.month(), day: n.day() },
    )
}

/// Relies on chrono's `Datelike::weekday` on a `NaiveDate` built from the fields.
#[verifier::external_body]
pub(crate) fn weekday_of(d: Date) -> (r: Weekday)
    requires
        d.valid(),
    ensures
        r == weekday_of_day_number(d.day_number()),
{
    match chrono::NaiveDate::from_ymd_opt(d.year, d.month, d.day).unwrap().weekday() {
        chrono::Weekday::Mon => Weekday::Mon,
        chrono::Weekday::Tue => Weekday::Tue,
        chrono::Weekday::Wed => Weekday::Wed,
        chrono::Weekday::Thu => Weekday::Thu,
        chrono::Weekday::Fri => Weekday::Fri,
        chrono::Weekday::Sat => Weekday::Sat,
        chrono::Weekday::Sun => Weekday::Sun,
    }
}

/// The day after `d`.
pub fn next_day(d: Date) -> (r: Date)
    requires
        d.valid(),
        d.year < MAX_YEAR,
    ensures
        r == successor(d),
        r.day_number() == d.day_number() + 1,
        1 <= r.month <= 12,
        1 <= r.day <= days_in_month(r.year as int, r.month as int),
        r.year == d.year || r.year == d.year + 1,
{
    match chrono_next_day(d) {
        Some(n) => n,
        None => d,
    }
}

} // verus!
