use vstd::prelude::*;

verus! {

/// A day of the proleptic Gregorian calendar, as observed locally.
#[derive(Clone, Copy, Debug, PartialEq, Eq, Structural)]
pub struct CalendarDate {
    pub year: i32,
    pub month: u32,
    pub day: u32,
}

pub open spec fn is_leap_year(y: int) -> bool {
    y % 4 == 0 && (y % 100 != 0 || y % 400 == 0)
}

pub open spec fn days_in_month(y: int, m: int) -> int {
    if m == 2 {
        if is_leap_year(y) {
            29
        } else {
            28
        }
    } else if m == 4 || m == 6 || m == 9 || m == 11 {
        30
    } else {
        31
    }
}

/// The decimal digit for `n`, for `n` from 0 to 9.
pub open spec fn digit(n: int) -> char {
    if n == 0 {
        '0'
    } else if n == 1 {
        '1'
    } else if n == 2 {
        '2'
    } else if n == 3 {
        '3'
    } else if n == 4 {
        '4'
    } else if n == 5 {
        '5'
    } else if n == 6 {
        '6'
    } else if n == 7 {
        '7'
    } else if n == 8 {
        '8'
    } else {
        '9'
    }
}

/// `n` written with two digits, zero-padded.
pub open spec fn two_digits(n: int) -> Seq<char> {
    seq![digit(n / 10), digit(n % 10)]
}

/// `n` written with four digits, zero-padded.
pub open spec fn four_digits(n: int) -> Seq<char> {
    seq![digit(n / 1000), digit((n / 100) % 10), digit((n / 10) % 10), digit(n % 10)]
}

/// The date written as `YYYY-MM-DD`.
pub open spec fn iso_text(d: CalendarDate) -> Seq<char> {
    four_digits(d.year as int) + seq!['-'] + two_digits(d.month as int) + seq!['-'] + two_digits(
        d.day as int,
    )
}

/// The day after `d`.
pub open spec fn day_after(d: CalendarDate) -> CalendarDate {
    if (d.day as int) < days_in_month(d.year as int, d.month as int) {
        CalendarDate { year: d.year, month: d.month, day: (d.day + 1) as u32 }
    } else if d.month < 12 {
        CalendarDate { year: d.year, month: (d.month + 1) as u32, day: 1 }
    } else {
        CalendarDate { year: (d.year + 1) as i32, month: 1, day: 1 }
    }
}

/// Whether `a` is an earlier day than `b`.
pub open spec fn date_before(a: CalendarDate, b: CalendarDate) -> bool {
    a.year < b.year || (a.year == b.year && (a.month < b.month || (a.month == b.month && a.day
        < b.day)))
}

proof fn lemma_digit_injective(a: int, b: int)
    requires
        0 <= a < 10,
        0 <= b < 10,
        digit(a) == digit(b),
    ensures
        a == b,
{
}

proof fn lemma_four_digits_injective(a: int, b: int)
    requires
        0 <= a < 10000,
        0 <= b < 10000,
        four_digits(a) == four_digits(b),
    ensures
        a == b,
{
    assert(four_digits(a)[0] == four_digits(b)[0]);
    assert(four_digits(a)[1] == four_digits(b)[1]);
    assert(four_digits(a)[2] == four_digits(b)[2]);
    assert(four_digits(a)[3] == four_digits(b)[3]);
    lemma_digit_injective(a / 1000, b / 1000);
    lemma_digit_injective((a / 100) % 10, (b / 100) % 10);
    lemma_digit_injective((a / 10) % 10, (b / 10) % 10);
    lemma_digit_injective(a % 10, b % 10);
}

proof fn lemma_two_digits_injective(a: int, b: int)
    requires
        0 <= a < 100,
        0 <= b < 100,
        two_digits(a) == two_digits(b),
    ensures
        a == b,
{
    assert(two_digits(a)[0] == two_digits(b)[0]);
    assert(two_digits(a)[1] == two_digits(b)[1]);
    lemma_digit_injective(a / 10, b / 10);
    lemma_digit_injective(a % 10, b % 10);
}

impl CalendarDate {
    /// Whether the date exists, with a year from 0 to 9999.
    pub open spec fn valid(&self) -> bool {
        &&& 0 <= self.year <= 9999
        &&& 1 <= self.month <= 12
        &&& 1 <= self.day <= days_in_month(self.year as int, self.month as int)
    }

    /// The date with the given year, month and day, if it exists and the
    /// year lies from 0 to 9999.
    pub fn new(year: i32, month: u32, day: u32) -> (r: Option<CalendarDate>)
        ensures
            r == (if (CalendarDate { year, month, day }).valid() {
                Some(CalendarDate { year, month, day })
            } else {
                None
            }),
    {
        let d = CalendarDate { year, month, day };
        if year < 0 || year > 9999 || month < 1 || month > 12 || day < 1 {
            return None;
        }
        if day > month_length(year, month) {
            return None;
        }
        Some(d)
    }

    /// The date written as `YYYY-MM-DD`.
    pub fn iso(&self) -> (r: String)
        requires
            self.valid(),
        ensures
            r@ == iso_text(*self),
    {
        format_iso(self)
    }

    /// The next day.
    pub fn next(&self) -> (r: CalendarDate)
        requires
            self.valid(),
            self.year < 9999,
        ensures
            r == day_after(*self),
            r.valid(),
            date_before(*self, r),
    {
        following_day(self)
    }
}

/// The number of days in the month.
fn month_length(year: i32, month: u32) -> (r: u32)
    requires
        1 <= month <= 12,
    ensures
        r == days_in_month(year as int, month as int),
{
    if month == 2 {
        if year % 4 == 0 && (year % 100 != 0 || year % 400 == 0) {
            29
        } else {
            28
        }
    } else if month == 4 || month == 6 || month == 9 || month == 11 {
        30
    } else {
        31
    }
}

/// Two valid dates with the same `YYYY-MM-DD` text are the same date.
pub proof fn lemma_iso_text_injective(a: CalendarDate, b: CalendarDate)
    requires
        a.valid(),
        b.valid(),
        iso_text(a) == iso_text(b),
    ensures
        a == b,
{
    let ta = iso_text(a);
    let tb = iso_text(b);
    assert(ta.subrange(0, 4) =~= four_digits(a.year as int));
    assert(tb.subrange(0, 4) =~= four_digits(b.year as int));
    assert(ta.subrange(5, 7) =~= two_digits(a.month as int));
    assert(tb.subrange(5, 7) =~= two_digits(b.month as int));
    assert(ta.subrange(8, 10) =~= two_digits(a.day as int));
    assert(tb.subrange(8, 10) =~= two_digits(b.day as int));
    lemma_four_digits_injective(a.year as int, b.year as int);
    lemma_two_digits_injective(a.month as int, b.month as int);
    lemma_two_digits_injective(a.day as int, b.day as int);
}

/// Relies on chrono's `NaiveDate::format` with the pattern `%Y-%m-%d`: a year
/// from 0 to 9999 is written with four zero-padded digits, month and day with
/// two each. The date exists, so `from_ymd_opt` returns it.
#[verifier::external_body]
fn format_iso(d: &CalendarDate) -> (r: String)
    requires
        d.valid(),
    ensures
        r@ == iso_text(*d),
{
    let date = chrono::NaiveDate::from_ymd_opt(d.year, d.month, d.day).unwrap();
    date.format("%Y-%m-%d").to_string()
}

/// Relies on chrono's `NaiveDate::succ_opt`: the next calendar day, which
/// exists for every year below the largest that chrono represents.
#[verifier::external_body]
fn following_day(d: &CalendarDate) -> (r: CalendarDate)
    requires
        d.valid(),
        d.year < 9999,
    ensures
        r == day_after(*d),
{
    let date = chrono::NaiveDate::from_ymd_opt(d.year, d.month, d.day).unwrap();
    let next = date.succ_opt().unwrap();
    CalendarDate {
        year: chrono::Datelike::year(&next),
        month: chrono::Datelike::month(&next),
        day: chrono::Datelike::day(&next),
    }
}

} // verus!
