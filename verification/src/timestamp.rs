//! Timestamps: a clock reading broken into calendar fields, and its
//! rendering as `YYYY-MM-DD-HH:MM:SS`, zero-padded, 24-hour clock.
//!
//! The reading itself comes from the `chrono` crate and uses the
//! process's local timezone; everything after the reading is proved.

use chrono::{Datelike, Timelike};
use vstd::prelude::*;

use crate::hex::digit;
use crate::hex::digit_str;

verus! {

/// One local wall-clock reading, split into calendar fields.
#[derive(Clone, Copy, Debug, PartialEq, Eq, Structural)]
pub struct ClockTime {
    pub year: i32,
    pub month: u8,
    pub day: u8,
    pub hour: u8,
    pub minute: u8,
    pub second: u8,
}

impl ClockTime {
    /// The field ranges every clock reading satisfies. The year is left
    /// free: the calendar does not bound it.
    pub open spec fn wf(self) -> bool {
        &&& 1 <= self.month <= 12
        &&& 1 <= self.day <= 31
        &&& self.hour < 24
        &&& self.minute < 60
        &&& self.second < 60
    }

    /// A year the `YYYY` field of the format can carry: four decimal
    /// digits.
    pub open spec fn four_digit_year(self) -> bool {
        0 <= self.year <= 9999
    }
}

/// Relies on chrono::Local::now and its Datelike/Timelike accessors:
/// month ranges over 1..=12, day over 1..=31, hour over 0..=23, minute
/// and second over 0..=59. The value read depends on the system clock
/// and timezone, so nothing relates it to any earlier reading.
#[verifier::external_body]
fn read_local_clock() -> (t: ClockTime)
    ensures
        t.wf(),
{
    let now = chrono::Local::now();
    ClockTime {
        year: now.year(),
        month: now.month() as u8,
        day: now.day() as u8,
        hour: now.hour() as u8,
        minute: now.minute() as u8,
        second: now.second() as u8,
    }
}

/// A value below one hundred as two decimal digits, zero-padded.
pub open spec fn two_digits(n: int) -> Seq<char> {
    seq![digit(n / 10), digit(n % 10)]
}

/// A value below ten thousand as four decimal digits, zero-padded.
pub open spec fn four_digits(n: int) -> Seq<char> {
    seq![digit(n / 1000 % 10), digit(n / 100 % 10), digit(n / 10 % 10), digit(n % 10)]
}

/// The rendering of a clock reading: `YYYY-MM-DD-HH:MM:SS`.
pub open spec fn timestamp_display(t: ClockTime) -> Seq<char> {
    four_digits(t.year as int) + seq!['-'] + two_digits(t.month as int) + seq!['-'] + two_digits(
        t.day as int,
    ) + seq!['-'] + two_digits(t.hour as int) + seq![':'] + two_digits(t.minute as int) + seq![':']
        + two_digits(t.second as int)
}

/// Append a value below one hundred to a string as two zero-padded
/// decimal digits.
fn push_two_digits(s: &mut String, n: u8)
    requires
        n < 100,
    ensures
        final(s)@ == old(s)@ + two_digits(n as int),
{
    s.append(digit_str(n / 10));
    s.append(digit_str(n % 10));
    proof {
        assert(s@ =~= old(s)@ + two_digits(n as int));
    }
}

/// Render a clock reading as `YYYY-MM-DD-HH:MM:SS`, zero-padded, on the
/// 24-hour clock.
pub fn format_timestamp(t: &ClockTime) -> (r: String)
    requires
        t.wf(),
        t.four_digit_year(),
    ensures
        r@ == timestamp_display(*t),
{
    let y = t.year as u16;
    let mut r = String::new();
    r.append(digit_str((y / 1000) as u8));
    r.append(digit_str((y / 100 % 10) as u8));
    r.append(digit_str((y / 10 % 10) as u8));
    r.append(digit_str((y % 10) as u8));
    proof {
        assert(r@ =~= four_digits(t.year as int));
    }
    r.append("-");
    push_two_digits(&mut r, t.month);
    r.append("-");
    push_two_digits(&mut r, t.day);
    r.append("-");
    push_two_digits(&mut r, t.hour);
    r.append(":");
    push_two_digits(&mut r, t.minute);
    r.append(":");
    push_two_digits(&mut r, t.second);
    proof {
        reveal_strlit("-");
        reveal_strlit(":");
        assert(r@ =~= timestamp_display(*t));
    }
    r
}

/// Render a clock reading where the format can carry it: `Some` of the
/// full rendering exactly when the year fits four digits, `None`
/// otherwise.
pub fn render_reading(t: &ClockTime) -> (r: Option<String>)
    requires
        t.wf(),
    ensures
        t.four_digit_year() ==> (r matches Some(s) && s@ == timestamp_display(*t)),
        !t.four_digit_year() ==> r is None,
{
    if 0 <= t.year && t.year <= 9999 {
        Some(format_timestamp(t))
    } else {
        None
    }
}

/// Read the local clock and render it. `None` only when the clock's
/// year cannot be carried by the four-digit year field.
pub fn local_timestamp() -> (r: Option<String>)
    ensures
        r matches Some(s) ==> exists|t: ClockTime|
            t.wf() && t.four_digit_year() && s@ == timestamp_display(t),
{
    let t = read_local_clock();
    let r = render_reading(&t);
    proof {
        if t.four_digit_year() {
            assert(t.wf() && t.four_digit_year() && r->Some_0@ == timestamp_display(t));
        }
    }
    r
}

} // verus!
