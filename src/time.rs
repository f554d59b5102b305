use vstd::prelude::*;

use chrono::{Datelike, Timelike};

use crate::text::digit_char;

verus! {

/// A calendar date and time of day, to the second.
#[derive(Clone, Copy, Debug, PartialEq, Eq, Structural)]
pub struct Timestamp {
    pub year: i32,
    pub month: u32,
    pub day: u32,
    pub hour: u32,
    pub minute: u32,
    pub second: u32,
}

pub open spec fn is_leap_year(y: int) -> bool {
    (y % 4 == 0 && y % 100 != 0) || y % 400 == 0
}

pub open spec fn days_in_month(y: int, m: int) -> int {
    if m == 2 {
        if is_leap_year(y) {
            29
        } else {
            28
        }
    } else if m == 4 || m == 6 || m == 9 || m == 11 {
        30
    } else {
        31
    }
}

/// Two decimal digits of `n < 100`, zero-padded.
pub open spec fn two_digits(n: nat) -> Seq<char> {
    seq![digit_char(n / 10), digit_char(n % 10)]
}

/// Four decimal digits of `n < 10000`, zero-padded.
pub open spec fn four_digits(n: nat) -> Seq<char> {
    seq![digit_char(n / 1000), digit_char((n / 100) % 10), digit_char((n / 10) % 10), digit_char(n % 10)]
}

/// `YYYY-MM-DD HH:MM:SS`.
pub open spec fn timestamp_text(t: Timestamp) -> Seq<char> {
    four_digits(t.year as nat) + seq!['-'] + two_digits(t.month as nat) + seq!['-'] + two_digits(
        t.day as nat,
    ) + seq![' '] + two_digits(t.hour as nat) + seq![':'] + two_digits(t.minute as nat) + seq![':']
        + two_digits(t.second as nat)
}

impl Timestamp {
    /// A real calendar date and a time of day.
    pub open spec fn is_calendar_time(self) -> bool {
        &&& 1 <= self.month <= 12
        &&& 1 <= self.day <= days_in_month(self.year as int, self.month as int)
        &&& self.hour < 24
        &&& self.minute < 60
        &&& self.second < 60
    }

    /// A calendar time whose year has four digits.
    pub open spec fn wf(self) -> bool {
        self.is_calendar_time() && 0 <= self.year <= 9999
    }

    pub fn is_valid(&self) -> (r: bool)
        ensures
            r == self.wf(),
    {
        if self.year < 0 || self.year > 9999 || self.month < 1 || self.month > 12 || self.day < 1
            || self.hour >= 24 || self.minute >= 60 || self.second >= 60 {
            return false;
        }
        let y = self.year;
        let leap = (y % 4 == 0 && y % 100 != 0) || y % 400 == 0;
        let m = self.month;
        let days: u32 = if m == 2 {
            if leap {
                29
            } else {
                28
            }
        } else if m == 4 || m == 6 || m == 9 || m == 11 {
            30
        } else {
            31
        };
        self.day <= days
    }
}

/// Relies on chrono's `NaiveDate::from_ymd_opt`, `NaiveDate::and_hms_opt`
/// and `NaiveDateTime::format` with `%Y-%m-%d %H:%M:%S`: for a real date
/// and time in years 0 to 9999 each field is written zero-padded, the year
/// to four digits and the others to two.
#[verifier::external_body]
pub(crate) fn format_timestamp(t: &Timestamp) -> (r: String)
    requires
        t.wf(),
    ensures
        r@ == timestamp_text(*t),
{
    match chrono::NaiveDate::from_ymd_opt(t.year, t.month, t.day) {
        Some(d) => match d.and_hms_opt(t.hour, t.minute, t.second) {
            Some(dt) => dt.format("%Y-%m-%d %H:%M:%S").to_string(),
            None => String::new(),
        },
        None => String::new(),
    }
}

/// Relies on std's `SystemTime::now` and `SystemTime::duration_since`, and on
/// chrono's `DateTime::from_timestamp`, which returns `None` outside the
/// dates it supports: the current UTC time to the second, as calendar
/// fields, which chrono keeps within a real date and time of day. `None`
/// where the clock reads before 1970 or beyond chrono's dates.
#[verifier::external_body]
pub fn time_now() -> (r: Option<Timestamp>)
    ensures
        r matches Some(t) ==> t.is_calendar_time(),
{
    let since = std::time::SystemTime::now().duration_since(std::time::UNIX_EPOCH).ok()?;
    let t = chrono::DateTime::from_timestamp(i64::try_from(since.as_secs()).ok()?, 0)?;
    Some(Timestamp {
        year: t.year(),
        month: t.month(),
        day: t.day(),
        hour: t.hour(),
        minute: t.minute(),
        second: t.second(),
    })
}

} // verus!
