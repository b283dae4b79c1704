//! Time of day, and the `H:MM:am` / `H:MM:pm` format that users type it in.
use vstd::prelude::*;
use vstd::string::*;
use crate::error::TimeError;

verus! {

/// A time of day on the 24-hour clock, to the minute.
#[derive(Clone, Copy, Debug, PartialEq, Eq, Structural)]
pub struct TimeOfDay {
    pub hour: u8,
    pub minute: u8,
}

impl TimeOfDay {
    pub open spec fn wf(&self) -> bool {
        self.hour < 24 && self.minute < 60
    }

    /// Seconds since midnight.
    pub open spec fn seconds_of_day(&self) -> int {
        self.hour as int * 3600 + self.minute as int * 60
    }
}

pub open spec fn is_digit(c: char) -> bool {
    '0' <= c && c <= '9'
}

pub open spec fn digit_value(c: char) -> int {
    c as int - '0' as int
}

/// The hour field of a string whose hour has `k` digits.
pub open spec fn hour_field(s: Seq<char>, k: int) -> int {
    if k == 1 {
        digit_value(s[0])
    } else {
        10 * digit_value(s[0]) + digit_value(s[1])
    }
}

pub open spec fn minute_field(s: Seq<char>, k: int) -> int {
    10 * digit_value(s[k + 1]) + digit_value(s[k + 2])
}

/// The meridiem marker at `k + 4`, either case: `Some(true)` for pm.
pub open spec fn meridiem_field(s: Seq<char>, k: int) -> Option<bool> {
    if s[k + 5] != 'm' && s[k + 5] != 'M' {
        None
    } else if s[k + 4] == 'a' || s[k + 4] == 'A' {
        Some(false)
    } else if s[k + 4] == 'p' || s[k + 4] == 'P' {
        Some(true)
    } else {
        None
    }
}

/// `s` has the shape `H:MM:xm` with an hour of `k` digits (1 or 2).
pub open spec fn shaped(s: Seq<char>, k: int) -> bool {
    &&& s.len() == k + 6
    &&& is_digit(s[0])
    &&& (k == 2 ==> is_digit(s[1]))
    &&& s[k] == ':'
    &&& is_digit(s[k + 1])
    &&& is_digit(s[k + 2])
    &&& s[k + 3] == ':'
    &&& meridiem_field(s, k) is Some
}

/// The 24-hour value of a 12-hour clock hour.
pub open spec fn hour_24(h12: int, pm: bool) -> int {
    if pm {
        if h12 == 12 { 12 } else { h12 + 12 }
    } else {
        if h12 == 12 { 0 } else { h12 }
    }
}

/// What a string in the user's time format stands for: `None` unless it reads
/// `H:MM:am` or `H:MM:pm` (the hour in one or two digits from 1 to 12, the
/// minute in two digits from 00 to 59, the marker in either case).
pub open spec fn human_time(s: Seq<char>) -> Option<TimeOfDay> {
    let k = if s.len() == 7 { 1int } else { 2int };
    if (s.len() == 7 || s.len() == 8) && shaped(s, k) && 1 <= hour_field(s, k) <= 12
        && minute_field(s, k) <= 59 {
        Some(
            TimeOfDay {
                hour: hour_24(hour_field(s, k), meridiem_field(s, k).unwrap()) as u8,
                minute: minute_field(s, k) as u8,
            },
        )
    } else {
        None
    }
}

/// The character of a decimal digit.
pub open spec fn digit_char(n: int) -> char {
    if n == 0 { '0' }
    else if n == 1 { '1' }
    else if n == 2 { '2' }
    else if n == 3 { '3' }
    else if n == 4 { '4' }
    else if n == 5 { '5' }
    else if n == 6 { '6' }
    else if n == 7 { '7' }
    else if n == 8 { '8' }
    else { '9' }
}

/// `h12:mm:am` or `h12:mm:pm`, the hour without a leading zero, the minute in
/// two digits, the marker in lower or upper case.
pub open spec fn render_human_time(h12: int, minute: int, pm: bool, upper: bool) -> Seq<char> {
    let hour = if h12 < 10 { seq![digit_char(h12)] } else { seq![digit_char(h12 / 10), digit_char(h12 % 10)] };
    let marker = if upper {
        seq![if pm { 'P' } else { 'A' }, 'M']
    } else {
        seq![if pm { 'p' } else { 'a' }, 'm']
    };
    hour + seq![':', digit_char(minute / 10), digit_char(minute % 10), ':'] + marker
}

proof fn lemma_digit_char(n: int)
    requires
        0 <= n <= 9,
    ensures
        is_digit(digit_char(n)),
        digit_value(digit_char(n)) == n,
{
}

/// Every time written as `H:MM:am` or `H:MM:pm`, with an hour from 1 to 12 and
/// a minute from 0 to 59, reads as its 24-hour value: twelve am is midnight,
/// twelve pm is noon, and the other pm hours move on by twelve.
pub proof fn lemma_human_time_of_rendered(h12: int, minute: int, pm: bool, upper: bool)
    requires
        1 <= h12 <= 12,
        0 <= minute <= 59,
    ensures
        human_time(render_human_time(h12, minute, pm, upper)) == Some(
            TimeOfDay { hour: hour_24(h12, pm) as u8, minute: minute as u8 },
        ),
        hour_24(h12, pm) < 24,
{
    let s = render_human_time(h12, minute, pm, upper);
    let k = if h12 < 10 { 1int } else { 2int };
    lemma_digit_char(minute / 10);
    lemma_digit_char(minute % 10);
    if h12 < 10 {
        lemma_digit_char(h12);
    } else {
        lemma_digit_char(h12 / 10);
        lemma_digit_char(h12 % 10);
    }
    assert(s.len() == k + 6);
    assert(hour_field(s, k) == h12);
    assert(minute_field(s, k) == minute);
    assert(shaped(s, k));
}

fn is_digit_char(c: char) -> (r: bool)
    ensures
        r == is_digit(c),
{
    '0' <= c && c <= '9'
}

fn digit_of(c: char) -> (r: u8)
    requires
        is_digit(c),
    ensures
        r as int == digit_value(c),
{
    (c as u32 - '0' as u32) as u8
}

/// Reads a time of day typed as `H:MM:am` or `H:MM:pm`; any other string is
/// `TimeFormatInvalid`.
pub fn parse_human_time(time: &str) -> (r: Result<TimeOfDay, TimeError>)
    ensures
        match human_time(time@) {
            Some(t) => r == Ok::<TimeOfDay, TimeError>(t),
            None => r == Err::<TimeOfDay, TimeError>(TimeError::TimeFormatInvalid),
        },
        r matches Ok(t) ==> t.wf(),
{
    match read_time(time) {
        Some(t) => Ok(t),
        None => Err(TimeError::TimeFormatInvalid),
    }
}

fn read_time(time: &str) -> (r: Option<TimeOfDay>)
    ensures
        r == human_time(time@),
        r matches Some(t) ==> t.wf(),
{
    let n = time.unicode_len();
    if n != 7 && n != 8 {
        return None;
    }
    let k: usize = if n == 7 { 1 } else { 2 };
    let c0 = time.get_char(0);
    let c1 = time.get_char(1);
    let sep1 = time.get_char(k);
    let m1 = time.get_char(k + 1);
    let m2 = time.get_char(k + 2);
    let sep2 = time.get_char(k + 3);
    let a = time.get_char(k + 4);
    let b = time.get_char(k + 5);
    if !is_digit_char(c0) || (k == 2 && !is_digit_char(c1)) || sep1 != ':' || !is_digit_char(m1)
        || !is_digit_char(m2) || sep2 != ':' {
        return None;
    }
    let pm: bool;
    if b != 'm' && b != 'M' {
        return None;
    } else if a == 'a' || a == 'A' {
        pm = false;
    } else if a == 'p' || a == 'P' {
        pm = true;
    } else {
        return None;
    }
    let h12: u8 = if k == 1 { digit_of(c0) } else { 10 * digit_of(c0) + digit_of(c1) };
    let minute: u8 = 10 * digit_of(m1) + digit_of(m2);
    if h12 < 1 || h12 > 12 || minute > 59 {
        return None;
    }
    let hour: u8 = if pm {
        if h12 == 12 { 12 } else { h12 + 12 }
    } else {
        if h12 == 12 { 0 } else { h12 }
    };
    Some(TimeOfDay { hour, minute })
}

} // verus!
