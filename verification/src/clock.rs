//! A wall-clock value as plain calendar and time-of-day fields, and the
//! fixed-width formatting of its date (`YYYY-MM-DD`) and time (`HH:MM:SS`).

use vstd::prelude::*;
use chrono::Datelike;
use chrono::Timelike;

verus! {

/// One instant of local time, split into calendar and time-of-day fields.
#[derive(Clone, Copy, Debug, PartialEq, Eq, Structural)]
pub struct Clock {
    pub year: u32,
    pub month: u32,
    pub day: u32,
    pub hour: u32,
    pub minute: u32,
    pub second: u32,
}

impl Clock {
    /// The ranges under which the fixed-width formats below are exact:
    /// a four-digit year and the usual calendar and time-of-day bounds.
    pub open spec fn valid(self) -> bool {
        &&& self.year <= 9999
        &&& 1 <= self.month <= 12
        &&& 1 <= self.day <= 31
        &&& self.hour <= 23
        &&& self.minute <= 59
        &&& self.second <= 59
    }

    /// Builds a `Clock` from raw field values, accepting exactly those
    /// within `valid` range and keeping every field as given.
    pub fn from_fields(
        year: i64,
        month: i64,
        day: i64,
        hour: i64,
        minute: i64,
        second: i64,
    ) -> (r: Option<Clock>)
        ensures
            r is Some <==> {
                &&& 0 <= year <= 9999
                &&& 1 <= month <= 12
                &&& 1 <= day <= 31
                &&& 0 <= hour <= 23
                &&& 0 <= minute <= 59
                &&& 0 <= second <= 59
            },
            r matches Some(c) ==> {
                &&& c.valid()
                &&& c.year == year
                &&& c.month == month
                &&& c.day == day
                &&& c.hour == hour
                &&& c.minute == minute
                &&& c.second == second
            },
    {
        if 0 <= year && year <= 9999 && 1 <= month && month <= 12 && 1 <= day && day <= 31
            && 0 <= hour && hour <= 23 && 0 <= minute && minute <= 59 && 0 <= second
            && second <= 59 {
            Some(
                Clock {
                    year: year as u32,
                    month: month as u32,
                    day: day as u32,
                    hour: hour as u32,
                    minute: minute as u32,
                    second: second as u32,
                },
            )
        } else {
            None
        }
    }
}

/// The decimal digit character for `d`, for `0 <= d <= 9`.
pub open spec fn digit_char(d: int) -> char {
    if d == 0 {
        '0'
    } else if d == 1 {
        '1'
    } else if d == 2 {
        '2'
    } else if d == 3 {
        '3'
    } else if d == 4 {
        '4'
    } else if d == 5 {
        '5'
    } else if d == 6 {
        '6'
    } else if d == 7 {
        '7'
    } else if d == 8 {
        '8'
    } else {
        '9'
    }
}

/// The ten characters `YYYY-MM-DD` of the clock's date, zero-padded.
pub open spec fn date_chars(c: Clock) -> Seq<char> {
    seq![
        digit_char(c.year as int / 1000 % 10),
        digit_char(c.year as int / 100 % 10),
        digit_char(c.year as int / 10 % 10),
        digit_char(c.year as int % 10),
        '-',
        digit_char(c.month as int / 10 % 10),
        digit_char(c.month as int % 10),
        '-',
        digit_char(c.day as int / 10 % 10),
        digit_char(c.day as int % 10),
    ]
}

/// The eight characters `HH:MM:SS` of the clock's time of day, zero-padded.
pub open spec fn time_chars(c: Clock) -> Seq<char> {
    seq![
        digit_char(c.hour as int / 10 % 10),
        digit_char(c.hour as int % 10),
        ':',
        digit_char(c.minute as int / 10 % 10),
        digit_char(c.minute as int % 10),
        ':',
        digit_char(c.second as int / 10 % 10),
        digit_char(c.second as int % 10),
    ]
}

/// The one-character string holding the decimal digit of `d`.
fn digit_str(d: u32) -> (r: &'static str)
    requires
        d <= 9,
    ensures
        r@ == seq![digit_char(d as int)],
{
    proof {
        reveal_strlit("0");
        reveal_strlit("1");
        reveal_strlit("2");
        reveal_strlit("3");
        reveal_strlit("4");
        reveal_strlit("5");
        reveal_strlit("6");
        reveal_strlit("7");
        reveal_strlit("8");
        reveal_strlit("9");
    }
    let r: &'static str = match d {
        0 => "0",
        1 => "1",
        2 => "2",
        3 => "3",
        4 => "4",
        5 => "5",
        6 => "6",
        7 => "7",
        8 => "8",
        _ => "9",
    };
    proof {
        assert(r@ =~= seq![digit_char(d as int)]);
    }
    r
}

/// Formats the clock's date as the ten characters `YYYY-MM-DD`.
pub fn format_date(c: &Clock) -> (r: String)
    requires
        c.valid(),
    ensures
        r@ == date_chars(*c),
{
    proof {
        reveal_strlit("-");
    }
    let mut s = String::new();
    s.append(digit_str(c.year / 1000));
    s.append(digit_str(c.year / 100 % 10));
    s.append(digit_str(c.year / 10 % 10));
    s.append(digit_str(c.year % 10));
    s.append("-");
    s.append(digit_str(c.month / 10));
    s.append(digit_str(c.month % 10));
    s.append("-");
    s.append(digit_str(c.day / 10));
    s.append(digit_str(c.day % 10));
    proof {
        assert(s@ =~= date_chars(*c));
    }
    s
}

/// Formats the clock's time of day as the eight characters `HH:MM:SS`.
pub fn format_time(c: &Clock) -> (r: String)
    requires
        c.valid(),
    ensures
        r@ == time_chars(*c),
{
    proof {
        reveal_strlit(":");
    }
    let mut s = String::new();
    s.append(digit_str(c.hour / 10));
    s.append(digit_str(c.hour % 10));
    s.append(":");
    s.append(digit_str(c.minute / 10));
    s.append(digit_str(c.minute % 10));
    s.append(":");
    s.append(digit_str(c.second / 10));
    s.append(digit_str(c.second % 10));
    proof {
        assert(s@ =~= time_chars(*c));
    }
    s
}

/// Relies on chrono::Local::now and chrono's Datelike and Timelike
/// accessors, which document month as starting from 1 (through 12), day as
/// starting from 1 (through 31), hour below 24, and minute and second below
/// 60 (a leap second is carried in the nanosecond field, not here). The
/// year is an arbitrary signed value and is not bounded. Reading the clock
/// aborts when the machine clock stands before the Unix epoch or beyond
/// chrono's representable range: a condition of the environment, not of
/// any input.
#[verifier::external_body]
fn current_clock_fields() -> (r: (i64, i64, i64, i64, i64, i64))
    ensures
        1 <= r.1 <= 12,
        1 <= r.2 <= 31,
        0 <= r.3 <= 23,
        0 <= r.4 <= 59,
        0 <= r.5 <= 59,
{
    let now = chrono::Local::now();
    (
        now.year() as i64,
        now.month() as i64,
        now.day() as i64,
        now.hour() as i64,
        now.minute() as i64,
        now.second() as i64,
    )
}

/// Reads the current local time. The result is `None` exactly when the
/// machine clock reports a year outside `0..=9999`, the range the
/// fixed-width date format can carry.
pub fn current_clock() -> (r: Option<Clock>)
    ensures
        r matches Some(c) ==> c.valid(),
{
    let (year, month, day, hour, minute, second) = current_clock_fields();
    Clock::from_fields(year, month, day, hour, minute, second)
}

/// Distinct digits format as distinct characters.
proof fn lemma_digit_char_injective(a: int, b: int)
    requires
        0 <= a <= 9,
        0 <= b <= 9,
        digit_char(a) == digit_char(b),
    ensures
        a == b,
{
}

/// A value below ten thousand is determined by its four decimal digits.
proof fn lemma_four_digits_determine(a: int, b: int)
    requires
        0 <= a <= 9999,
        0 <= b <= 9999,
        a / 1000 % 10 == b / 1000 % 10,
        a / 100 % 10 == b / 100 % 10,
        a / 10 % 10 == b / 10 % 10,
        a % 10 == b % 10,
    ensures
        a == b,
{
    assert(a / 1000 == a / 100 / 10) by (nonlinear_arith)
        requires 0 <= a;
    assert(b / 1000 == b / 100 / 10) by (nonlinear_arith)
        requires 0 <= b;
    assert(a / 10 % 10 == a % 100 / 10) by (nonlinear_arith)
        requires 0 <= a;
    assert(b / 10 % 10 == b % 100 / 10) by (nonlinear_arith)
        requires 0 <= b;
    assert(a % 10 == a % 100 % 10) by (nonlinear_arith)
        requires 0 <= a;
    assert(b % 10 == b % 100 % 10) by (nonlinear_arith)
        requires 0 <= b;
    lemma_two_digits_determine(a / 100, b / 100);
    lemma_two_digits_determine(a % 100, b % 100);
    assert(a == a / 100 * 100 + a % 100);
    assert(b == b / 100 * 100 + b % 100);
}

/// A value below one hundred is determined by its two decimal digits.
proof fn lemma_two_digits_determine(a: int, b: int)
    requires
        0 <= a <= 99,
        0 <= b <= 99,
        a / 10 % 10 == b / 10 % 10,
        a % 10 == b % 10,
    ensures
        a == b,
{
    assert(a == a / 10 * 10 + a % 10);
    assert(b == b / 10 * 10 + b % 10);
}

/// The ten characters of the date field determine the clock's year, month
/// and day: across repeated renders the date field changes exactly when
/// the calendar date changes.
pub proof fn lemma_date_chars_injective(c1: Clock, c2: Clock)
    requires
        c1.valid(),
        c2.valid(),
        date_chars(c1) == date_chars(c2),
    ensures
        c1.year == c2.year,
        c1.month == c2.month,
        c1.day == c2.day,
{
    let s1 = date_chars(c1);
    let s2 = date_chars(c2);
    assert(s1[0] == s2[0] && s1[1] == s2[1] && s1[2] == s2[2] && s1[3] == s2[3] && s1[5]
        == s2[5] && s1[6] == s2[6] && s1[8] == s2[8] && s1[9] == s2[9]);
    lemma_digit_char_injective(c1.year as int / 1000 % 10, c2.year as int / 1000 % 10);
    lemma_digit_char_injective(c1.year as int / 100 % 10, c2.year as int / 100 % 10);
    lemma_digit_char_injective(c1.year as int / 10 % 10, c2.year as int / 10 % 10);
    lemma_digit_char_injective(c1.year as int % 10, c2.year as int % 10);
    lemma_four_digits_determine(c1.year as int, c2.year as int);
    lemma_digit_char_injective(c1.month as int / 10 % 10, c2.month as int / 10 % 10);
    lemma_digit_char_injective(c1.month as int % 10, c2.month as int % 10);
    lemma_two_digits_determine(c1.month as int, c2.month as int);
    lemma_digit_char_injective(c1.day as int / 10 % 10, c2.day as int / 10 % 10);
    lemma_digit_char_injective(c1.day as int % 10, c2.day as int % 10);
    lemma_two_digits_determine(c1.day as int, c2.day as int);
}

/// The eight characters of the time field determine the clock's hour,
/// minute and second, in the same way.
pub proof fn lemma_time_chars_injective(c1: Clock, c2: Clock)
    requires
        c1.valid(),
        c2.valid(),
        time_chars(c1) == time_chars(c2),
    ensures
        c1.hour == c2.hour,
        c1.minute == c2.minute,
        c1.second == c2.second,
{
    let s1 = time_chars(c1);
    let s2 = time_chars(c2);
    assert(s1[0] == s2[0] && s1[1] == s2[1] && s1[3] == s2[3] && s1[4] == s2[4] && s1[6]
        == s2[6] && s1[7] == s2[7]);
    lemma_digit_char_injective(c1.hour as int / 10 % 10, c2.hour as int / 10 % 10);
    lemma_digit_char_injective(c1.hour as int % 10, c2.hour as int % 10);
    lemma_two_digits_determine(c1.hour as int, c2.hour as int);
    lemma_digit_char_injective(c1.minute as int / 10 % 10, c2.minute as int / 10 % 10);
    lemma_digit_char_injective(c1.minute as int % 10, c2.minute as int % 10);
    lemma_two_digits_determine(c1.minute as int, c2.minute as int);
    lemma_digit_char_injective(c1.second as int / 10 % 10, c2.second as int / 10 % 10);
    lemma_digit_char_injective(c1.second as int % 10, c2.second as int % 10);
    lemma_two_digits_determine(c1.second as int, c2.second as int);
}

} // verus!
