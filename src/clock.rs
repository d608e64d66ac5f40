//! Wall-clock readings as plain calendar fields, and their text form.
use chrono::{Datelike, Timelike};
use vstd::prelude::*;

use crate::text::{decimal_padded, push_decimal};

verus! {

/// A calendar date and time of day, as read from a clock.
#[derive(Clone, Copy, Debug, PartialEq, Eq)]
pub struct ClockReading {
    pub year: i32,
    pub month: u32,
    pub day: u32,
    pub hour: u32,
    pub minute: u32,
    pub second: u32,
}

impl ClockReading {
    /// Every field lies in its calendar range.
    pub open spec fn wf(&self) -> bool {
        &&& 1 <= self.month <= 12
        &&& 1 <= self.day <= 31
        &&& self.hour < 24
        &&& self.minute < 60
        &&& self.second < 60
    }
}

/// The year as written in a timestamp: four digits, with a sign outside 0..=9999.
pub open spec fn year_text(y: int) -> Seq<char> {
    if y < 0 {
        seq!['-'] + decimal_padded((-y) as nat, 4)
    } else if y > 9999 {
        seq!['+'] + decimal_padded(y as nat, 4)
    } else {
        decimal_padded(y as nat, 4)
    }
}

/// `YYYY-MM-DD HH:MM:SS` for the reading `t`.
pub open spec fn timestamp_text(t: ClockReading) -> Seq<char> {
    year_text(t.year as int) + seq!['-'] + decimal_padded(t.month as nat, 2) + seq!['-']
        + decimal_padded(t.day as nat, 2) + seq![' '] + decimal_padded(t.hour as nat, 2)
        + seq![':'] + decimal_padded(t.minute as nat, 2) + seq![':'] + decimal_padded(
        t.second as nat,
        2,
    )
}

/// Relies on chrono::Local::now and the Datelike/Timelike accessors, which give
/// month 1..=12, day 1..=31, hour 0..=23, minute 0..=59 and second 0..=59.
#[verifier::external_body]
pub(crate) fn local_now() -> (r: ClockReading)
    ensures
        r.wf(),
{
    let now = chrono::Local::now();
    ClockReading {
        year: now.year(),
        month: now.month(),
        day: now.day(),
        hour: now.hour(),
        minute: now.minute(),
        second: now.second(),
    }
}

/// Relies on chrono::Utc::now and the Datelike/Timelike accessors, which give
/// month 1..=12, day 1..=31, hour 0..=23, minute 0..=59 and second 0..=59.
#[verifier::external_body]
pub(crate) fn utc_now() -> (r: ClockReading)
    ensures
        r.wf(),
{
    let now = chrono::Utc::now();
    ClockReading {
        year: now.year(),
        month: now.month(),
        day: now.day(),
        hour: now.hour(),
        minute: now.minute(),
        second: now.second(),
    }
}

/// Renders `t` as `YYYY-MM-DD HH:MM:SS`.
pub fn format_timestamp(t: &ClockReading) -> (r: String)
    ensures
        r@ == timestamp_text(*t),
{
    proof {
        reveal_strlit("-");
        reveal_strlit("+");
        reveal_strlit(" ");
        reveal_strlit(":");
        assert("-"@ =~= seq!['-']);
        assert("+"@ =~= seq!['+']);
        assert(" "@ =~= seq![' ']);
        assert(":"@ =~= seq![':']);
    }
    let mut out = String::new();
    if t.year < 0 {
        out.append("-");
        let y: u64 = (0i64 - t.year as i64) as u64;
        push_decimal(&mut out, y, 4);
    } else {
        if t.year > 9999 {
            out.append("+");
        }
        push_decimal(&mut out, t.year as u64, 4);
    }
    out.append("-");
    push_decimal(&mut out, t.month as u64, 2);
    out.append("-");
    push_decimal(&mut out, t.day as u64, 2);
    out.append(" ");
    push_decimal(&mut out, t.hour as u64, 2);
    out.append(":");
    push_decimal(&mut out, t.minute as u64, 2);
    out.append(":");
    push_decimal(&mut out, t.second as u64, 2);
    assert(out@ =~= timestamp_text(*t));
    out
}

} // verus!
