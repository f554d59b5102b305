use vstd::prelude::*;

use crate::colors::{apply_color, colored};
use crate::time::Timestamp;

verus! {

/// The date written as weekday, month name, two-digit day and year
/// (`Monday, March 04, 2024`).
pub uninterp spec fn long_date_text(year: int, month: int, day: int) -> Seq<char>;

impl Timestamp {
    /// The year lies in the range that calendar dates are supported for.
    pub open spec fn in_date_range(self) -> bool {
        -262143 <= self.year <= 262142
    }
}

/// Relies on chrono's `NaiveDate::from_ymd_opt` and `NaiveDate::format` with
/// `%A, %B %d, %Y`: the text depends on the calendar date alone, and a real
/// date within chrono's year range is always accepted.
#[verifier::external_body]
fn format_long_date(t: &Timestamp) -> (r: String)
    requires
        t.is_calendar_time(),
        t.in_date_range(),
    ensures
        r@ == long_date_text(t.year as int, t.month as int, t.day as int),
{
    match chrono::NaiveDate::from_ymd_opt(t.year, t.month, t.day) {
        Some(d) => d.format("%A, %B %d, %Y").to_string(),
        None => String::new(),
    }
}

/// `Welcome <name>!` with the name in bright magenta, then `Today is <date>.`
/// with the date text in green, then a blank line.
pub open spec fn welcome_text(name: Seq<char>, date: Seq<char>) -> Seq<char> {
    "Welcome "@ + colored("magenta_bright"@, name) + "!\n"@ + "Today is "@ + colored("green"@, date)
        + ".\n\n"@
}

/// The greeting for a user, with a date text already written out.
pub fn welcome_with_date(name: &str, date: &str) -> (r: String)
    ensures
        r@ == welcome_text(name@, date@),
{
    let mut s = String::new();
    s.append("Welcome ");
    s.append(apply_color("magenta_bright", name).as_str());
    s.append("!\n");
    s.append("Today is ");
    s.append(apply_color("green", date).as_str());
    s.append(".\n\n");
    s
}

/// The greeting for a user on a day.
pub fn welcome_msg(name: &str, today: &Timestamp) -> (r: String)
    requires
        today.is_calendar_time(),
        today.in_date_range(),
    ensures
        r@ == welcome_text(
            name@,
            long_date_text(today.year as int, today.month as int, today.day as int),
        ),
{
    let date = format_long_date(today);
    welcome_with_date(name, date.as_str())
}

} // verus!
