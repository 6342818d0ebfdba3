use vstd::prelude::*;

verus! {

/// A calendar date of the proleptic Gregorian calendar.
#[derive(Clone, Copy, Debug, PartialEq, Eq, Structural)]
pub struct Date {
    pub year: i32,
    pub month: u32,
    pub day: u32,
}

pub open spec fn is_leap_year(year: int) -> bool {
    year % 4 == 0 && (year % 100 != 0 || year % 400 == 0)
}

pub open spec fn month_length(year: int, month: int) -> int {
    if month == 2 {
        if is_leap_year(year) {
            29
        } else {
            28
        }
    } else if month == 4 || month == 6 || month == 9 || month == 11 {
        30
    } else {
        31
    }
}

/// Whether the year is a leap year; the year is first moved by whole 400-year cycles so
/// that the remainders are taken of a natural number.
pub fn is_leap(year: i32) -> (r: bool)
    ensures
        r == is_leap_year(year as int),
{
    let y: u64 = (year as i64 + 2_400_000_000i64) as u64;
    proof {
        let b = year as int;
        vstd::arithmetic::div_mod::lemma_mod_multiples_vanish(600_000_000, b, 4);
        vstd::arithmetic::div_mod::lemma_mod_multiples_vanish(24_000_000, b, 100);
        vstd::arithmetic::div_mod::lemma_mod_multiples_vanish(6_000_000, b, 400);
        assert(y as int == 4 * 600_000_000 + b);
        assert(y as int == 100 * 24_000_000 + b);
        assert(y as int == 400 * 6_000_000 + b);
    }
    y % 4 == 0 && (y % 100 != 0 || y % 400 == 0)
}

impl Date {
    /// The date names a day that exists.
    pub open spec fn wf(&self) -> bool {
        1 <= self.month <= 12 && 1 <= self.day <= month_length(self.year as int, self.month as int)
    }

    /// The date of the given day, where it exists.
    pub fn new(year: i32, month: u32, day: u32) -> (r: Option<Date>)
        ensures
            r matches Some(d) ==> d == (Date { year, month, day }),
            r is Some <==> (Date { year, month, day }).wf(),
    {
        let d = Date { year, month, day };
        if d.is_valid() {
            Some(d)
        } else {
            None
        }
    }

    /// Whether the date names a day that exists.
    pub fn is_valid(&self) -> (r: bool)
        ensures
            r == self.wf(),
    {
        let month = self.month;
        if month < 1 || month > 12 || self.day < 1 {
            return false;
        }
        let leap = is_leap(self.year);
        let length: u32 = if month == 2 {
            if leap {
                29
            } else {
                28
            }
        } else if month == 4 || month == 6 || month == 9 || month == 11 {
            30
        } else {
            31
        };
        self.day <= length
    }
}

/// Relies on chrono's `Utc::now` and `DateTime::date_naive`: the current date in UTC,
/// read through `Datelike`, whose month is 1 to 12 and whose day exists in that month.
#[verifier::external_body]
pub(crate) fn today() -> (r: Date)
    ensures
        r.wf(),
{
    let d = chrono::Utc::now().date_naive();
    Date {
        year: chrono::Datelike::year(&d),
        month: chrono::Datelike::month(&d),
        day: chrono::Datelike::day(&d),
    }
}

/// Relies on chrono's `Utc::now` and `DateTime::timestamp_millis`: milliseconds since the
/// Unix epoch; nothing is promised of its value.
#[verifier::external_body]
pub(crate) fn now_millis() -> (r: i64) {
    chrono::Utc::now().timestamp_millis()
}

} // verus!

