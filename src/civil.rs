//! Calendar dates, instants with their zone offset, and the clock's
//! seconds-and-microseconds form.
use vstd::prelude::*;
use vstd::arithmetic::div_mod::*;
use crate::clock::TimeOfDay;

verus! {

/// The earliest year that the calendar routines accept.
pub const MIN_YEAR: i32 = -262143;

/// The latest year that the calendar routines accept.
pub const MAX_YEAR: i32 = 262142;

pub open spec fn is_leap_year(y: int) -> bool {
    (y % 4 == 0 && y % 100 != 0) || y % 400 == 0
}

pub open spec fn days_in_month(y: int, m: int) -> int {
    if m == 2 {
        if is_leap_year(y) { 29 } else { 28 }
    } else if m == 4 || m == 6 || m == 9 || m == 11 {
        30
    } else {
        31
    }
}

/// A date of the proleptic Gregorian calendar.
#[derive(Clone, Copy, Debug, PartialEq, Eq, Structural)]
pub struct CivilDate {
    pub year: i32,
    pub month: u8,
    pub day: u8,
}

impl CivilDate {
    pub open spec fn wf(&self) -> bool {
        &&& MIN_YEAR <= self.year <= MAX_YEAR
        &&& 1 <= self.month <= 12
        &&& 1 <= self.day <= days_in_month(self.year as int, self.month as int)
    }
}

/// Days from 1970-01-01 to the given date (negative before it).
pub open spec fn days_from_civil(y: int, m: int, d: int) -> int {
    let y2 = if m <= 2 { y - 1 } else { y };
    let era = y2 / 400;
    let yoe = y2 % 400;
    let mp = if m > 2 { m - 3 } else { m + 9 };
    let doy = (153 * mp + 2) / 5 + d - 1;
    let doe = yoe * 365 + yoe / 4 - yoe / 100 + doy;
    era * 146097 + doe - 719468
}

pub open spec fn date_days(d: CivilDate) -> int {
    days_from_civil(d.year as int, d.month as int, d.day as int)
}

/// Days from 1970-01-01 to `date`.
pub fn days_since_epoch(date: CivilDate) -> (r: i64)
    requires
        date.wf(),
    ensures
        r == date_days(date),
{
    let y: i64 = date.year as i64;
    let m: u64 = date.month as u64;
    let y2: i64 = if m <= 2 { y - 1 } else { y };
    // Shifted by a thousand eras, so that the division works on a non-negative number.
    let shifted: u64 = (y2 + 400000) as u64;
    let era_shifted: u64 = shifted / 400;
    let yoe: u64 = shifted % 400;
    proof {
        lemma_fundamental_div_mod(y2 as int, 400);
        lemma_fundamental_div_mod_converse(
            y2 as int + 400000,
            400,
            y2 as int / 400 + 1000,
            y2 as int % 400,
        );
    }
    let mp: u64 = if m > 2 { m - 3 } else { m + 9 };
    let doy: u64 = (153 * mp + 2) / 5 + date.day as u64 - 1;
    let doe: u64 = yoe * 365 + yoe / 4 - yoe / 100 + doy;
    (era_shifted as i64 - 1000) * 146097 + doe as i64 - 719468
}

/// An instant, with the offset of the zone that it is read in.
#[derive(Clone, Copy, Debug, PartialEq, Eq, Structural)]
pub struct ZonedTimestamp {
    /// Seconds since 1970-01-01T00:00:00Z.
    pub seconds: i64,
    /// Nanoseconds past `seconds`.
    pub nanos: u32,
    /// Local time minus UTC, in seconds.
    pub offset_seconds: i32,
}

impl ZonedTimestamp {
    pub open spec fn wf(&self) -> bool {
        self.nanos < 1_000_000_000 && -86400 < self.offset_seconds < 86400
    }

    /// Seconds since 1970-01-01T00:00:00 on the local clock.
    pub open spec fn local_seconds(&self) -> int {
        self.seconds + self.offset_seconds
    }

    /// The local date, as a day count from 1970-01-01.
    pub open spec fn local_days(&self) -> int {
        self.local_seconds() / 86400
    }

    pub open spec fn local_hour(&self) -> int {
        (self.local_seconds() % 86400) / 3600
    }

    pub open spec fn local_minute(&self) -> int {
        (self.local_seconds() % 3600) / 60
    }
}

/// The instant at which the local clock of a zone `offset` seconds ahead of UTC
/// reads `date` at `time`.
pub open spec fn combine_spec(date: CivilDate, time: TimeOfDay, offset: int) -> ZonedTimestamp {
    ZonedTimestamp {
        seconds: (date_days(date) * 86400 + time.seconds_of_day() - offset) as i64,
        nanos: 0,
        offset_seconds: offset as i32,
    }
}

/// The instant at which the local clock of a zone `offset` seconds ahead of UTC
/// reads `date` at `time`, to the second.
pub fn combine(date: CivilDate, time: TimeOfDay, offset: i32) -> (r: ZonedTimestamp)
    requires
        date.wf(),
        time.wf(),
        -86400 < offset < 86400,
    ensures
        r == combine_spec(date, time, offset as int),
        r.seconds == date_days(date) * 86400 + time.seconds_of_day() - offset,
        r.wf(),
{
    let days = days_since_epoch(date);
    proof {
        lemma_days_bounds(date);
    }
    ZonedTimestamp {
        seconds: days * 86400 + time.hour as i64 * 3600 + time.minute as i64 * 60 - offset as i64,
        nanos: 0,
        offset_seconds: offset,
    }
}

proof fn lemma_days_bounds(date: CivilDate)
    requires
        date.wf(),
    ensures
        -100_000_000 < date_days(date) < 100_000_000,
{
    let y = date.year as int;
    let m = date.month as int;
    let y2 = if m <= 2 { y - 1 } else { y };
    lemma_fundamental_div_mod(y2, 400);
    lemma_div_pos_is_pos(y2 % 400, 4);
    lemma_div_pos_is_pos(y2 % 400, 100);
    lemma_div_is_ordered(y2 % 400, 400, 4);
    lemma_div_is_ordered(y2 % 400, 400, 100);
    let mp = if m > 2 { m - 3 } else { m + 9 };
    lemma_div_is_ordered(0, 153 * mp + 2, 5);
    lemma_div_is_ordered(153 * mp + 2, 1685int, 5);
    assert(-263000 <= 400 * (y2 / 400) <= 262142);
}

/// Read in its own zone, the instant that `combine` builds from a date and a
/// time of day shows that date and that hour and minute, whatever the offset.
pub proof fn lemma_combine_reads_back(date: CivilDate, time: TimeOfDay, offset: int)
    requires
        date.wf(),
        time.wf(),
        -86400 < offset < 86400,
    ensures
        combine_spec(date, time, offset).local_days() == date_days(date),
        combine_spec(date, time, offset).local_hour() == time.hour,
        combine_spec(date, time, offset).local_minute() == time.minute,
{
    lemma_days_bounds(date);
    let z = combine_spec(date, time, offset);
    let days = date_days(date);
    let sod = time.seconds_of_day();
    assert(z.local_seconds() == days * 86400 + sod);
    lemma_fundamental_div_mod_converse(days * 86400 + sod, 86400, days, sod);
    assert(sod == time.hour * 3600 + time.minute * 60);
    lemma_fundamental_div_mod_converse(sod, 3600, time.hour as int, time.minute * 60);
    lemma_fundamental_div_mod_converse(time.minute * 60, 60, time.minute as int, 0);
    lemma_fundamental_div_mod_converse(
        days * 86400 + sod,
        3600,
        days * 24 + time.hour,
        time.minute * 60,
    );
}


/// The clock's native form: whole seconds since the epoch and microseconds.
#[derive(Clone, Copy, Debug, PartialEq, Eq, Structural)]
pub struct TimeVal {
    pub seconds: i64,
    pub micros: u32,
}

/// The seconds-and-microseconds form of an instant; the zone it is read in
/// does not change it.
pub fn to_timeval(t: ZonedTimestamp) -> (r: TimeVal)
    ensures
        r.seconds == t.seconds,
        r.micros == t.nanos / 1000,
{
    TimeVal { seconds: t.seconds, micros: t.nanos / 1000 }
}

} // verus!
