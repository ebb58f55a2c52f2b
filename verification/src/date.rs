//! Proleptic Gregorian calendar dates in the range chrono's `NaiveDate`
//! supports, with day stepping and the `%Y-%m-%d` / `%Y-%m` renderings.

use chrono::Datelike;
use vstd::prelude::*;

use crate::text::{push_char, push_signed_decimal, push_zero_padded, signed_decimal, zero_padded};

verus! {

/// Smallest year of chrono's `NaiveDate`.
pub const MIN_YEAR: i32 = -262143;

/// Largest year of chrono's `NaiveDate`.
pub const MAX_YEAR: i32 = 262142;

/// A calendar date. `wf` holds of every date the library builds.
#[derive(Clone, Copy, Debug, PartialEq, Eq, Structural)]
pub struct Date {
    pub year: i32,
    pub month: u32,
    pub day: u32,
}

/// Gregorian leap-year rule (year 0 is a leap year).
pub open spec fn is_leap_year(y: int) -> bool {
    y % 4 == 0 && (y % 100 != 0 || y % 400 == 0)
}

/// Number of days of month `m` (1..=12) of year `y`.
pub open spec fn days_in_month(y: int, m: int) -> int {
    if m == 2 {
        if is_leap_year(y) {
            29
        } else {
            28
        }
    } else if m == 4 || m == 6 || m == 9 || m == 11 {
        30
    } else {
        31
    }
}

/// Months counted from January of year 0.
pub open spec fn month_index(y: int, m: int) -> int {
    y * 12 + m - 1
}

/// The month after month `m` of year `y`, as (year, month).
pub open spec fn next_month(y: int, m: int) -> (int, int) {
    if m == 12 {
        (y + 1, 1)
    } else {
        (y, m + 1)
    }
}

impl Date {
    /// A real date within chrono's range.
    pub open spec fn wf(self) -> bool {
        &&& MIN_YEAR <= self.year <= MAX_YEAR
        &&& 1 <= self.month <= 12
        &&& 1 <= self.day <= days_in_month(self.year as int, self.month as int)
    }

    /// The last date chrono can represent.
    pub open spec fn is_last(self) -> bool {
        self.year == MAX_YEAR && self.month == 12 && self.day == 31
    }

    /// The first date chrono can represent.
    pub open spec fn is_first(self) -> bool {
        self.year == MIN_YEAR && self.month == 1 && self.day == 1
    }

    /// Chronological order.
    pub open spec fn spec_le(self, other: Date) -> bool {
        ||| self.year < other.year
        ||| self.year == other.year && self.month < other.month
        ||| self.year == other.year && self.month == other.month && self.day <= other.day
    }
}

/// The day after `d`.
pub open spec fn next_day(d: Date) -> Date {
    if d.day < days_in_month(d.year as int, d.month as int) {
        Date { year: d.year, month: d.month, day: (d.day + 1) as u32 }
    } else if d.month < 12 {
        Date { year: d.year, month: (d.month + 1) as u32, day: 1 }
    } else {
        Date { year: (d.year + 1) as i32, month: 1, day: 1 }
    }
}

/// The day before `d`.
pub open spec fn prev_day(d: Date) -> Date {
    if d.day > 1 {
        Date { year: d.year, month: d.month, day: (d.day - 1) as u32 }
    } else if d.month > 1 {
        Date {
            year: d.year,
            month: (d.month - 1) as u32,
            day: days_in_month(d.year as int, d.month - 1) as u32,
        }
    } else {
        Date { year: (d.year - 1) as i32, month: 12, day: 31 }
    }
}

/// chrono's `%Y`: four digits, zero-padded, for years 0..=9999; otherwise a
/// sign followed by at least four digits.
pub open spec fn year_text(y: int) -> Seq<char> {
    if 0 <= y <= 9999 {
        zero_padded(y as nat, 4)
    } else if y > 9999 {
        seq!['+'] + zero_padded(y as nat, 4)
    } else {
        seq!['-'] + zero_padded((-y) as nat, 4)
    }
}

/// chrono's `%Y-%m`.
pub open spec fn ym_text(y: int, m: int) -> Seq<char> {
    year_text(y) + seq!['-'] + zero_padded(m as nat, 2)
}

/// chrono's `%Y-%m-%d`.
pub open spec fn ymd_text(d: Date) -> Seq<char> {
    ym_text(d.year as int, d.month as int) + seq!['-'] + zero_padded(d.day as nat, 2)
}

/// `{}-{:02}` of a year and a month: the year plainly, the month on two digits.
pub open spec fn plain_ym_text(y: int, m: int) -> Seq<char> {
    signed_decimal(y) + seq!['-'] + zero_padded(m as nat, 2)
}

/// Whether `y` is a leap year.
pub fn leap_year(y: i32) -> (r: bool)
    requires
        MIN_YEAR <= y <= MAX_YEAR,
    ensures
        r == is_leap_year(y as int),
{
    // Shift by a multiple of 400 so that the remainders are taken of a
    // non-negative number; the rule is periodic with period 400.
    let shifted: u64 = (y as i64 + 400000) as u64;
    assert(shifted % 4 == (y as int) % 4);
    assert(shifted % 100 == (y as int) % 100);
    assert(shifted % 400 == (y as int) % 400);
    shifted % 4 == 0 && (shifted % 100 != 0 || shifted % 400 == 0)
}

/// Number of days of a month.
pub fn month_length(y: i32, m: u32) -> (r: u32)
    requires
        MIN_YEAR <= y <= MAX_YEAR,
    ensures
        r == days_in_month(y as int, m as int),
{
    if m == 2 {
        if leap_year(y) {
            29
        } else {
            28
        }
    } else if m == 4 || m == 6 || m == 9 || m == 11 {
        30
    } else {
        31
    }
}

impl Date {
    /// The 1st of this date's month.
    pub fn first_of_month(&self) -> (r: Date)
        requires
            self.wf(),
        ensures
            r == (Date { year: self.year, month: self.month, day: 1 }),
            r.wf(),
    {
        Date { year: self.year, month: self.month, day: 1 }
    }

    /// Chronological comparison.
    pub fn le(&self, other: &Date) -> (r: bool)
        ensures
            r == self.spec_le(*other),
    {
        self.year < other.year || (self.year == other.year && self.month < other.month) || (
        self.year == other.year && self.month == other.month && self.day <= other.day)
    }

    /// The next day (chrono `NaiveDate + Duration::days(1)`, which panics
    /// past the last representable date).
    pub fn succ(&self) -> (r: Date)
        requires
            self.wf(),
            !self.is_last(),
        ensures
            r == next_day(*self),
            r.wf(),
    {
        let len = month_length(self.year, self.month);
        if self.day < len {
            Date { year: self.year, month: self.month, day: self.day + 1 }
        } else if self.month < 12 {
            Date { year: self.year, month: self.month + 1, day: 1 }
        } else {
            Date { year: self.year + 1, month: 1, day: 1 }
        }
    }

    /// The previous day (chrono `NaiveDate - Duration::days(1)`, which panics
    /// before the first representable date).
    pub fn pred(&self) -> (r: Date)
        requires
            self.wf(),
            !self.is_first(),
        ensures
            r == prev_day(*self),
            r.wf(),
    {
        if self.day > 1 {
            Date { year: self.year, month: self.month, day: self.day - 1 }
        } else if self.month > 1 {
            let len = month_length(self.year, self.month - 1);
            Date { year: self.year, month: self.month - 1, day: len }
        } else {
            Date { year: self.year - 1, month: 12, day: 31 }
        }
    }
}

/// Month lengths are the Gregorian ones: thirty days in April, June,
/// September and November, 29 or 28 in February by the leap-year rule, 31 in
/// the other months; a year has 366 days when it is a leap year and 365
/// otherwise.
pub proof fn lemma_gregorian_month_lengths(y: int)
    ensures
        days_in_month(y, 1) == 31,
        days_in_month(y, 2) == (if y % 4 == 0 && (y % 100 != 0 || y % 400 == 0) {
            29int
        } else {
            28int
        }),
        days_in_month(y, 3) == 31,
        days_in_month(y, 4) == 30,
        days_in_month(y, 5) == 31,
        days_in_month(y, 6) == 30,
        days_in_month(y, 7) == 31,
        days_in_month(y, 8) == 31,
        days_in_month(y, 9) == 30,
        days_in_month(y, 10) == 31,
        days_in_month(y, 11) == 30,
        days_in_month(y, 12) == 31,
        days_in_month(y, 1) + days_in_month(y, 2) + days_in_month(y, 3) + days_in_month(y, 4)
            + days_in_month(y, 5) + days_in_month(y, 6) + days_in_month(y, 7) + days_in_month(y, 8)
            + days_in_month(y, 9) + days_in_month(y, 10) + days_in_month(y, 11) + days_in_month(
            y,
            12,
        ) == (if y % 4 == 0 && (y % 100 != 0 || y % 400 == 0) {
            366int
        } else {
            365int
        }),
{
}

/// The day before the 1st of a month is the last day of the previous month
/// (the 31st of December for January), and the day after the last day of a
/// month is the 1st of the next.
pub proof fn lemma_month_boundaries(d: Date)
    requires
        d.wf(),
    ensures
        d.day == 1 && d.month > 1 && !d.is_first() ==> (prev_day(d) == (Date {
            year: d.year,
            month: (d.month - 1) as u32,
            day: days_in_month(d.year as int, d.month - 1) as u32,
        }) && prev_day(d).wf() && next_day(prev_day(d)) == d),
        d.day == 1 && d.month == 10 ==> (prev_day(d) == (Date { year: d.year, month: 9, day: 30 })),
        d.day == 1 && d.month == 1 && !d.is_first() ==> (prev_day(d) == (Date {
            year: (d.year - 1) as i32,
            month: 12,
            day: 31,
        })),
{
    lemma_gregorian_month_lengths(d.year as int);
}

/// Stepping a day forward and then back returns the starting date.
pub proof fn lemma_prev_next_day(d: Date)
    requires
        d.wf(),
        !d.is_last(),
    ensures
        next_day(d).wf(),
        prev_day(next_day(d)) == d,
{
}

/// Stepping a day back and then forward returns the starting date.
pub proof fn lemma_next_prev_day(d: Date)
    requires
        d.wf(),
        !d.is_first(),
    ensures
        prev_day(d).wf(),
        next_day(prev_day(d)) == d,
{
}

/// The next day is the smallest date strictly after `d`.
pub proof fn lemma_next_day_is_successor(d: Date, e: Date)
    requires
        d.wf(),
        e.wf(),
        !d.is_last(),
    ensures
        d.spec_le(next_day(d)) && next_day(d) != d,
        (d.spec_le(e) && e != d) <==> next_day(d).spec_le(e),
{
}

fn push_year(s: &mut String, y: i32)
    ensures
        final(s)@ == old(s)@ + year_text(y as int),
{
    if 0 <= y && y <= 9999 {
        push_zero_padded(s, y as u64, 4);
    } else if y > 9999 {
        push_char(s, '+');
        push_zero_padded(s, y as u64, 4);
        assert(final(s)@ =~= old(s)@ + year_text(y as int));
    } else {
        push_char(s, '-');
        let magnitude: u64 = (-(y as i64)) as u64;
        push_zero_padded(s, magnitude, 4);
        assert(final(s)@ =~= old(s)@ + year_text(y as int));
    }
}

/// `year-month` as chrono's `%Y-%m` renders the 1st of that month.
pub fn format_ym(y: i32, m: u32) -> (r: String)
    ensures
        r@ == ym_text(y as int, m as int),
{
    let mut s = String::new();
    push_year(&mut s, y);
    push_char(&mut s, '-');
    push_zero_padded(&mut s, m as u64, 2);
    assert(s@ =~= ym_text(y as int, m as int));
    s
}

/// The date as chrono's `%Y-%m-%d` renders it.
pub fn format_ymd(d: &Date) -> (r: String)
    ensures
        r@ == ymd_text(*d),
{
    let mut s = format_ym(d.year, d.month);
    push_char(&mut s, '-');
    push_zero_padded(&mut s, d.day as u64, 2);
    assert(s@ =~= ymd_text(*d));
    s
}

/// `format!("{}-{:02}", y, m)`.
pub fn format_plain_ym(y: i32, m: u32) -> (r: String)
    ensures
        r@ == plain_ym_text(y as int, m as int),
{
    let mut s = String::new();
    push_signed_decimal(&mut s, y as i64);
    push_char(&mut s, '-');
    push_zero_padded(&mut s, m as u64, 2);
    assert(s@ =~= plain_ym_text(y as int, m as int));
    s
}

/// The error of chrono's date parser.
#[verifier::external_type_specification]
#[verifier::external_body]
pub struct ExParseError(chrono::format::ParseError);

/// What chrono's `NaiveDate::parse_from_str(text, "%Y-%m-%d")` yields for
/// `text`, as (year, month, day), or `None` where it fails.
pub uninterp spec fn parsed_calendar_date(text: Seq<char>) -> Option<(int, int, int)>;

/// chrono `NaiveDate::parse_from_str(text, "%Y-%m-%d")`, the date then read
/// back through `Datelike::{year, month, day}`. Claimed: success and the
/// fields are those of `parsed_calendar_date`, and a parsed date is a real
/// date in chrono's range (a `NaiveDate` cannot hold anything else). Which
/// texts the parser accepts is left unsaid.
#[verifier::external_body]
pub(crate) fn parse_ymd(text: &str) -> (r: Result<Date, chrono::format::ParseError>)
    ensures
        r is Ok <==> parsed_calendar_date(text@) is Some,
        r matches Ok(d) ==> parsed_calendar_date(text@) == Some(
            (d.year as int, d.month as int, d.day as int),
        ),
        r matches Ok(d) ==> d.wf(),
{
    match chrono::NaiveDate::parse_from_str(text, "%Y-%m-%d") {
        Ok(d) => Ok(Date { year: d.year(), month: d.month(), day: d.day() }),
        Err(e) => Err(e),
    }
}

} // verus!
