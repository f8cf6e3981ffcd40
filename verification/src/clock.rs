use vstd::prelude::*;
use chrono::{Datelike, Timelike};

verus! {

/// A local date and time of day as plain values (the proleptic Gregorian
/// calendar); a nanosecond count of a billion or more marks a leap second.
#[derive(Clone, Copy, Debug, PartialEq, Eq)]
pub struct LocalTime {
    pub year: i32,
    pub month: u32,
    pub day: u32,
    pub hour: u32,
    pub minute: u32,
    pub second: u32,
    pub nanosecond: u32,
}

/// Whether `y` is a leap year of the proleptic Gregorian calendar.
pub open spec fn is_leap_year(y: int) -> bool {
    y % 4 == 0 && (y % 100 != 0 || y % 400 == 0)
}

/// The number of days of month `m` in year `y`.
pub open spec fn days_in_month(y: int, m: int) -> int {
    if m == 2 {
        if is_leap_year(y) {
            29
        } else {
            28
        }
    } else if m == 4 || m == 6 || m == 9 || m == 11 {
        30
    } else {
        31
    }
}

impl LocalTime {
    /// A date and time that exists: a year in the supported range, a day of
    /// the month, a time of day, and a leap second only after second 59.
    pub open spec fn wf(&self) -> bool {
        &&& -262143 <= self.year <= 262142
        &&& 1 <= self.month <= 12
        &&& 1 <= self.day <= days_in_month(self.year as int, self.month as int)
        &&& self.hour < 24
        &&& self.minute < 60
        &&& self.second < 60
        &&& self.nanosecond < 2_000_000_000
        &&& self.nanosecond >= 1_000_000_000 ==> self.second == 59
    }
}

/// The character of decimal digit `d`.
pub open spec fn digit_char(d: int) -> char {
    (d + 48) as char
}

/// The decimal digits of `n`, without leading zeros.
pub open spec fn decimal(n: nat) -> Seq<char>
    decreases n,
{
    if n < 10 {
        seq![digit_char(n as int)]
    } else {
        decimal(n / 10).push(digit_char((n % 10) as int))
    }
}

/// The decimal digits of `n`, with zeros in front up to `width` digits.
pub open spec fn zero_padded(n: nat, width: nat) -> Seq<char> {
    if decimal(n).len() >= width {
        decimal(n)
    } else {
        Seq::new((width - decimal(n).len()) as nat, |i: int| '0') + decimal(n)
    }
}

/// A year as the log lines show it: four digits for years 0 to 9999, else a
/// sign followed by at least four digits.
pub open spec fn year_text(y: int) -> Seq<char> {
    if 0 <= y <= 9999 {
        zero_padded(y as nat, 4)
    } else if y < 0 {
        seq!['-'] + zero_padded((-y) as nat, 4)
    } else {
        seq!['+'] + zero_padded(y as nat, 4)
    }
}

/// A number below 100 as two digits.
pub open spec fn two_digits(v: int) -> Seq<char> {
    seq![digit_char(v / 10), digit_char(v % 10)]
}

/// The text of a log line's time: `year-month-day hour:minute:second`, each
/// field but the year two digits; a leap second shows as second 60.
pub open spec fn log_time_text(t: LocalTime) -> Seq<char> {
    year_text(t.year as int) + seq!['-'] + two_digits(t.month as int) + seq!['-'] + two_digits(
        t.day as int,
    ) + seq![' '] + two_digits(t.hour as int) + seq![':'] + two_digits(t.minute as int) + seq![
        ':',
    ] + two_digits(t.second + t.nanosecond / 1_000_000_000)
}

/// Trusted: reads the clock with chrono's `Local::now`, takes the local
/// date and time (`naive_local`) and hands out its fields (`Datelike`,
/// `Timelike`). The contract claims only what chrono's `NaiveDateTime`
/// always holds: a date that exists in its year range, a time of day, and a
/// leap second only after second 59. Which time it is, is not stated.
#[verifier::external_body]
fn local_now() -> (t: LocalTime)
    ensures
        t.wf(),
{
    let now = chrono::Local::now().naive_local();
    LocalTime {
        year: now.year(),
        month: now.month(),
        day: now.day(),
        hour: now.hour(),
        minute: now.minute(),
        second: now.second(),
        nanosecond: now.nanosecond(),
    }
}

/// Trusted: builds chrono's `NaiveDateTime` of `t` (`NaiveDate::from_ymd_opt`,
/// `and_hms_nano_opt`, which succeed on every time `wf` admits) and formats
/// it with `format("%Y-%m-%d %H:%M:%S")`. The contract states the text as
/// chrono's formatting code writes these fields: `%Y` four zero-padded
/// digits for years 0 to 9999, otherwise a sign and at least four digits;
/// the others two zero-padded digits, the second counting a leap second as
/// 60.
#[verifier::external_body]
fn chrono_log_format(t: &LocalTime) -> (text: String)
    requires
        t.wf(),
    ensures
        text@ == log_time_text(*t),
{
    let date = chrono::NaiveDate::from_ymd_opt(t.year, t.month, t.day).unwrap();
    let time = date.and_hms_nano_opt(t.hour, t.minute, t.second, t.nanosecond).unwrap();
    time.format("%Y-%m-%d %H:%M:%S").to_string()
}

/// The text a log line shows for the local time `t`.
pub fn log_time(t: &LocalTime) -> (text: String)
    requires
        t.wf(),
    ensures
        text@ == log_time_text(*t),
{
    chrono_log_format(t)
}

/// The current local time as log lines show it.
pub fn now_time() -> (text: String)
    ensures
        exists|t: LocalTime| t.wf() && #[trigger] log_time_text(t) == text@,
{
    let t = local_now();
    let text = log_time(&t);
    assert(t.wf() && log_time_text(t) == text@);
    text
}

proof fn lemma_decimal_short(n: nat)
    requires
        n < 10000,
    ensures
        decimal(n).len() <= 4,
{
    reveal_with_fuel(decimal, 5);
    assert(n / 10 < 1000);
    assert(n / 10 / 10 < 100);
    assert(n / 10 / 10 / 10 < 10);
}

/// For years 0 to 9999 the time of a log line is 19 characters,
/// `YYYY-MM-DD hh:mm:ss`.
pub proof fn law_log_time_width(t: LocalTime)
    requires
        t.wf(),
        0 <= t.year <= 9999,
    ensures
        log_time_text(t).len() == 19,
{
    lemma_decimal_short(t.year as nat);
}

} // verus!
