//! The time block: the current local calendar parts and their rendering.

use vstd::prelude::*;
use vstd::string::StringExecFns;
use chrono::{Datelike, Timelike};
use crate::blocks::{Block, BlockSignal, Sources};
use crate::text::{dec_digits, two_digits, push_u64, push_2d, push_char};

verus! {

/// The wall-clock facts the time block renders: the weekday as days from
/// Monday, the month and day of month, and the time of day.
#[derive(Clone, Copy, Debug, PartialEq, Eq, Structural)]
pub struct Time {
    pub weekday: u8,
    pub month: u8,
    pub day: u8,
    pub hour: u8,
    pub minute: u8,
}

/// The three-letter weekday name, Monday first.
pub open spec fn weekday_name(w: int) -> Seq<char>
    recommends
        0 <= w < 7,
{
    if w == 0 {
        "Mon"@
    } else if w == 1 {
        "Tue"@
    } else if w == 2 {
        "Wed"@
    } else if w == 3 {
        "Thu"@
    } else if w == 4 {
        "Fri"@
    } else if w == 5 {
        "Sat"@
    } else {
        "Sun"@
    }
}

/// The three-letter month name, January first.
pub open spec fn month_name(m: int) -> Seq<char>
    recommends
        1 <= m <= 12,
{
    if m == 1 {
        "Jan"@
    } else if m == 2 {
        "Feb"@
    } else if m == 3 {
        "Mar"@
    } else if m == 4 {
        "Apr"@
    } else if m == 5 {
        "May"@
    } else if m == 6 {
        "Jun"@
    } else if m == 7 {
        "Jul"@
    } else if m == 8 {
        "Aug"@
    } else if m == 9 {
        "Sep"@
    } else if m == 10 {
        "Oct"@
    } else if m == 11 {
        "Nov"@
    } else {
        "Dec"@
    }
}

fn weekday_str(w: u8) -> (s: &'static str)
    ensures
        s@ == weekday_name(w as int),
{
    match w {
        0 => "Mon",
        1 => "Tue",
        2 => "Wed",
        3 => "Thu",
        4 => "Fri",
        5 => "Sat",
        _ => "Sun",
    }
}

fn month_str(m: u8) -> (s: &'static str)
    ensures
        s@ == month_name(m as int),
{
    match m {
        1 => "Jan",
        2 => "Feb",
        3 => "Mar",
        4 => "Apr",
        5 => "May",
        6 => "Jun",
        7 => "Jul",
        8 => "Aug",
        9 => "Sep",
        10 => "Oct",
        11 => "Nov",
        _ => "Dec",
    }
}

/// Relies on chrono::Local::now and the Datelike/Timelike accessors:
/// weekday().num_days_from_monday() is below 7, month() is 1 to 12,
/// day() is 1 to 31, hour() is below 24, minute() is below 60, as their
/// documentation states of the current local time.
#[verifier::external_body]
fn local_now_parts() -> (r: (u8, u8, u8, u8, u8))
    ensures
        r.0 < 7,
        1 <= r.1 <= 12,
        1 <= r.2 <= 31,
        r.3 < 24,
        r.4 < 60,
{
    let now = chrono::Local::now();
    (
        now.weekday().num_days_from_monday() as u8,
        now.month() as u8,
        now.day() as u8,
        now.hour() as u8,
        now.minute() as u8,
    )
}

impl Time {
    /// Calendar ranges of well-formed facts.
    pub open spec fn wf(&self) -> bool {
        &&& self.weekday < 7
        &&& 1 <= self.month <= 12
        &&& 1 <= self.day <= 31
        &&& self.hour < 24
        &&& self.minute < 60
    }

    /// The epoch's calendar parts: Thursday, January the first, midnight.
    pub open spec fn default_spec() -> Time {
        Time { weekday: 3, month: 1, day: 1, hour: 0, minute: 0 }
    }

    /// Captures the current local time's parts.
    pub fn now() -> (t: Time)
        ensures
            t.wf(),
    {
        let p = local_now_parts();
        Time { weekday: p.0, month: p.1, day: p.2, hour: p.3, minute: p.4 }
    }
}

impl Default for Time {
    /// The epoch's calendar parts: Thursday, January the first, midnight.
    fn default() -> (t: Time)
        ensures
            t == Time::default_spec(),
            t.wf(),
    {
        Time { weekday: 3, month: 1, day: 1, hour: 0, minute: 0 }
    }
}

impl Block for Time {
    open spec fn identity_spec(&self) -> BlockSignal {
        BlockSignal::Time
    }

    /// `{weekday} {month} {day}  {HH:MM}`: abbreviated weekday and month,
    /// unpadded day, two spaces, then the zero-padded time of day.
    open spec fn rendered(&self) -> Seq<char> {
        weekday_name(self.weekday as int) + seq![' '] + month_name(self.month as int) + seq![' ']
            + dec_digits(self.day as nat) + seq![' ', ' '] + two_digits(self.hour as int)
            + seq![':'] + two_digits(self.minute as int)
    }

    fn signal(&self) -> (s: BlockSignal) {
        BlockSignal::Time
    }

    /// A refresh rereads the clock, not the given sources; the fresh facts
    /// are whatever the clock now shows.
    fn update(&mut self, sources: &Sources)
        ensures
            final(self).wf(),
    {
        *self = Time::now();
    }

    fn render(&self) -> (s: String) {
        let mut s = String::new();
        s.append(weekday_str(self.weekday));
        push_char(&mut s, ' ');
        s.append(month_str(self.month));
        push_char(&mut s, ' ');
        push_u64(&mut s, self.day as u64);
        push_char(&mut s, ' ');
        push_char(&mut s, ' ');
        push_2d(&mut s, self.hour as u64);
        push_char(&mut s, ':');
        push_2d(&mut s, self.minute as u64);
        assert(s@ =~= self.rendered());
        s
    }
}

} // verus!
