//! Dates of the calendar.
use vstd::prelude::*;

use crate::text::{decimal_i64, decimal_int, two_digit_text, two_digits};

verus! {

pub open spec fn leap_year(year: int) -> bool {
    year % 4 == 0 && (year % 100 != 0 || year % 400 == 0)
}

pub open spec fn days_in_month(year: int, month: int) -> int {
    if month == 2 {
        if leap_year(year) {
            29
        } else {
            28
        }
    } else if month == 4 || month == 6 || month == 9 || month == 11 {
        30
    } else {
        31
    }
}

/// The days of a year before one of its months.
pub open spec fn days_before_month(year: int, month: int) -> int
    decreases month,
{
    if month <= 1 {
        0
    } else {
        days_before_month(year, month - 1) + days_in_month(year, month - 1)
    }
}

/// The number of a day, counted from the first of January 1970.
pub open spec fn day_number(year: int, month: int, day: int) -> int {
    let before = year - 1;
    365 * before + before / 4 - before / 100 + before / 400 + days_before_month(year, month) + day
        - 719163
}

/// A day of the calendar.
#[derive(Debug, Clone, Copy, PartialEq, Eq, Structural)]
pub struct CalendarDate {
    pub year: i32,
    pub month: u8,
    pub day: u8,
}

impl CalendarDate {
    pub open spec fn wf(self) -> bool {
        1 <= self.month <= 12 && 1 <= self.day <= days_in_month(self.year as int, self.month as int)
    }

    /// The day on which a second falls, counted from the first of January 1970.
    pub open spec fn is_date_of(self, timestamp: int) -> bool {
        self.wf() && day_number(self.year as int, self.month as int, self.day as int) == timestamp
            / 86400
    }
}

/// The seconds from the start of the year -9999 to the end of the year 9999.
pub open spec fn fits_calendar(timestamp: int) -> bool {
    -377705116800 <= timestamp <= 253402300799
}

/// Calls `time::OffsetDateTime::from_unix_timestamp` and takes the date apart with `year`,
/// `month` and `day`. Outside the years -9999 to 9999 the call fails; inside, the date is that
/// of the Gregorian calendar in universal time.
#[verifier::external_body]
pub(crate) fn calendar_date(timestamp: i64) -> (r: CalendarDate)
    requires
        fits_calendar(timestamp as int),
    ensures
        r.is_date_of(timestamp as int),
{
    let moment = time::OffsetDateTime::from_unix_timestamp(timestamp).expect("the year has four digits");
    let date = moment.date();
    CalendarDate { year: date.year(), month: u8::from(date.month()), day: date.day() }
}

pub open spec fn month_text(month: int) -> Seq<char> {
    if month == 1 {
        "Jan"@
    } else if month == 2 {
        "Feb"@
    } else if month == 3 {
        "Mar"@
    } else if month == 4 {
        "Apr"@
    } else if month == 5 {
        "May"@
    } else if month == 6 {
        "Jun"@
    } else if month == 7 {
        "Jul"@
    } else if month == 8 {
        "Aug"@
    } else if month == 9 {
        "Sep"@
    } else if month == 10 {
        "Oct"@
    } else if month == 11 {
        "Nov"@
    } else {
        "Dec"@
    }
}

fn month_name(month: u8) -> (r: &'static str)
    ensures
        r@ == month_text(month as int),
{
    if month == 1 {
        "Jan"
    } else if month == 2 {
        "Feb"
    } else if month == 3 {
        "Mar"
    } else if month == 4 {
        "Apr"
    } else if month == 5 {
        "May"
    } else if month == 6 {
        "Jun"
    } else if month == 7 {
        "Jul"
    } else if month == 8 {
        "Aug"
    } else if month == 9 {
        "Sep"
    } else if month == 10 {
        "Oct"
    } else if month == 11 {
        "Nov"
    } else {
        "Dec"
    }
}

/// A date with the day in two digits and the name of the month.
pub open spec fn date_text(date: CalendarDate) -> Seq<char> {
    two_digits(date.day as nat) + " "@ + month_text(date.month as int) + " "@ + decimal_int(
        date.year as int,
    )
}

/// A date with the day in two digits and the name of the month.
pub fn format_date(date: CalendarDate) -> (r: String)
    ensures
        r@ == date_text(date),
{
    let mut r = two_digit_text(date.day as u64);
    r.append(" ");
    r.append(month_name(date.month));
    r.append(" ");
    r.append(&decimal_i64(date.year as i64));
    r
}

/// The date on which a second falls.
pub open spec fn date_of(timestamp: int) -> CalendarDate {
    choose|date: CalendarDate| date.is_date_of(timestamp)
}

/// What a second is shown as.
pub open spec fn natural_date(timestamp: int) -> Seq<char> {
    date_text(date_of(timestamp))
}

proof fn months_fit_their_year(year: int, month: int)
    requires
        1 <= month <= 12,
    ensures
        days_before_month(year, month) >= 0,
        days_before_month(year, month) + days_in_month(year, month) <= (if leap_year(year) {
            366int
        } else {
            365
        }),
{
    reveal_with_fuel(days_before_month, 13);
}

proof fn earlier_months_end_first(year: int, a: int, b: int)
    requires
        1 <= a < b <= 12,
    ensures
        days_before_month(year, a) + days_in_month(year, a) <= days_before_month(year, b),
    decreases b,
{
    if a < b - 1 {
        earlier_months_end_first(year, a, b - 1);
    }
}

proof fn earlier_years_end_first(a: int, b: int)
    requires
        a < b,
    ensures
        day_number(a, 1, 1) + (if leap_year(a) {
            366int
        } else {
            365
        }) <= day_number(b, 1, 1),
    decreases b - a,
{
    let p = b - 1;
    assert(365 * p + p / 4 - p / 100 + p / 400 - (365 * (p - 1) + (p - 1) / 4 - (p - 1) / 100 + (p
        - 1) / 400) == (if leap_year(p) {
        366int
    } else {
        365
    }));
    if a < b - 1 {
        earlier_years_end_first(a, b - 1);
    }
}

/// No two dates have the same number, so a second has one date.
pub proof fn dates_are_told_apart_by_number(a: CalendarDate, b: CalendarDate)
    requires
        a.wf(),
        b.wf(),
        day_number(a.year as int, a.month as int, a.day as int) == day_number(
            b.year as int,
            b.month as int,
            b.day as int,
        ),
    ensures
        a == b,
{
    let (ay, am) = (a.year as int, a.month as int);
    let (by, bm) = (b.year as int, b.month as int);
    months_fit_their_year(ay, am);
    months_fit_their_year(by, bm);
    assert(days_before_month(ay, 1) == 0 && days_before_month(by, 1) == 0);
    if ay < by {
        earlier_years_end_first(ay, by);
    } else if by < ay {
        earlier_years_end_first(by, ay);
    } else if am < bm {
        earlier_months_end_first(ay, am, bm);
    } else if bm < am {
        earlier_months_end_first(ay, bm, am);
    }
}

/// Shows the date on which a second falls.
pub fn format_natural_date(timestamp: i64) -> (r: String)
    requires
        fits_calendar(timestamp as int),
    ensures
        r@ == natural_date(timestamp as int),
{
    let date = calendar_date(timestamp);
    proof {
        dates_are_told_apart_by_number(date, date_of(timestamp as int));
    }
    format_date(date)
}

/// The years with a leap day.
pub proof fn leap_days_come_every_four_years(year: int)
    ensures
        leap_year(year + 400) == leap_year(year),
        year % 4 != 0 ==> !leap_year(year),
        year % 400 == 0 ==> leap_year(year),
        year % 100 == 0 && year % 400 != 0 ==> !leap_year(year),
        year % 4 == 0 && year % 100 != 0 ==> leap_year(year),
        leap_year(year) <==> days_in_month(year, 2) == 29,
{
}

proof fn days_before_december(year: int)
    ensures
        days_before_month(year, 1) == 0,
        days_before_month(year, 12) == 334 + (if leap_year(year) {
            1int
        } else {
            0
        }),
{
    let leap = if leap_year(year) {
        1int
    } else {
        0
    };
    assert(days_before_month(year, 1) == 0);
    assert(days_before_month(year, 2) == 31);
    assert(days_before_month(year, 3) == 59 + leap);
    assert(days_before_month(year, 4) == 90 + leap);
    assert(days_before_month(year, 5) == 120 + leap);
    assert(days_before_month(year, 6) == 151 + leap);
    assert(days_before_month(year, 7) == 181 + leap);
    assert(days_before_month(year, 8) == 212 + leap);
    assert(days_before_month(year, 9) == 243 + leap);
    assert(days_before_month(year, 10) == 273 + leap);
    assert(days_before_month(year, 11) == 304 + leap);
}

/// Days are counted one by one from the first of January 1970: the next day of a month, the
/// first day of the next month and the first day of the next year each count one more.
pub proof fn days_are_counted_one_by_one(year: int, month: int, day: int)
    requires
        1 <= month <= 12,
    ensures
        day_number(1970, 1, 1) == 0,
        day_number(year, month, day + 1) == day_number(year, month, day) + 1,
        month < 12 ==> day_number(year, month + 1, 1) == day_number(
            year,
            month,
            days_in_month(year, month),
        ) + 1,
        day_number(year + 1, 1, 1) == day_number(year, 12, 31) + 1,
{
    days_before_december(year);
    days_before_december(year + 1);
    days_before_december(1970);
    let before = year - 1;
    assert(year / 4 - before / 4 == (if year % 4 == 0 {
        1int
    } else {
        0
    }));
    assert(year / 100 - before / 100 == (if year % 100 == 0 {
        1int
    } else {
        0
    }));
    assert(year / 400 - before / 400 == (if year % 400 == 0 {
        1int
    } else {
        0
    }));
    assert(year % 400 == 0 ==> year % 100 == 0);
    assert(year % 100 == 0 ==> year % 4 == 0);
}

/// Every month but February has the same days in every year.
pub proof fn months_have_their_days(year: int, month: int)
    requires
        1 <= month <= 12,
    ensures
        days_in_month(year, month) == 31 <==> month == 1 || month == 3 || month == 5 || month == 7
            || month == 8 || month == 10 || month == 12,
        days_in_month(year, month) == 30 <==> month == 4 || month == 6 || month == 9 || month == 11,
{
}

/// A date is told by its day with two digits, the month and the year.
pub proof fn dates_are_told_day_first(date: CalendarDate)
    ensures
        date.month == 1 ==> date_text(date) == two_digits(date.day as nat) + " "@ + "Jan"@ + " "@
            + decimal_int(date.year as int),
        date.month == 2 ==> date_text(date) == two_digits(date.day as nat) + " "@ + "Feb"@ + " "@
            + decimal_int(date.year as int),
        date.month == 3 ==> month_text(date.month as int) == "Mar"@,
        date.month == 4 ==> month_text(date.month as int) == "Apr"@,
        date.month == 5 ==> month_text(date.month as int) == "May"@,
        date.month == 6 ==> month_text(date.month as int) == "Jun"@,
        date.month == 7 ==> month_text(date.month as int) == "Jul"@,
        date.month == 8 ==> month_text(date.month as int) == "Aug"@,
        date.month == 9 ==> month_text(date.month as int) == "Sep"@,
        date.month == 10 ==> month_text(date.month as int) == "Oct"@,
        date.month == 11 ==> month_text(date.month as int) == "Nov"@,
        date.month == 12 ==> month_text(date.month as int) == "Dec"@,
        date_text(date) == two_digits(date.day as nat) + " "@ + month_text(date.month as int)
            + " "@ + decimal_int(date.year as int),
{
}

} // verus!
