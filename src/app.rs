//! The application: the local time zone, the argument dispatcher, and the
//! two ways of working out the instant to set the clock to.
use vstd::prelude::*;
use vstd::string::*;
use chrono::{Datelike, Offset, TimeZone};
use crate::civil::{combine, combine_spec, date_days, lemma_combine_reads_back, CivilDate, ZonedTimestamp};
use crate::clock::{human_time, parse_human_time, TimeOfDay};
use crate::error::TimeError;

verus! {

/// A zone of chrono-tz's time zone database, carried through as an opaque value.
#[verifier::external_type_specification]
#[verifier::external_body]
pub struct ExTz(chrono_tz::Tz);

/// Whether the time zone database has a zone of this exact name.
pub uninterp spec fn known_zone(name: Seq<char>) -> bool;

/// Relies on `FromStr for chrono_tz::Tz`, which looks the name up in the
/// time zone database and fails when it is not there.
#[verifier::external_body]
fn parse_zone(name: &str) -> (r: Option<chrono_tz::Tz>)
    ensures
        r is Some <==> known_zone(name@),
{
    name.parse::<chrono_tz::Tz>().ok()
}

/// Relies on chrono's `Utc::now`, read in the zone `tz` by `with_timezone`
/// and `date_naive`: a `NaiveDate` is always a valid date within chrono's years.
#[verifier::external_body]
fn today_in(tz: &chrono_tz::Tz) -> (r: CivilDate)
    ensures
        r.wf(),
{
    let d = chrono::Utc::now().with_timezone(tz).date_naive();
    CivilDate { year: d.year(), month: d.month() as u8, day: d.day() as u8 }
}

/// How a zone maps a local date and time onto UTC offsets.
#[derive(Clone, Copy, Debug, PartialEq, Eq, Structural)]
pub enum LocalMapping {
    /// The local time does not occur (a gap).
    Nonexistent,
    /// The local time occurs once, at this offset.
    Single(i32),
    /// The local time occurs twice (a fold): the offsets of the earlier and
    /// of the later instant.
    Ambiguous(i32, i32),
}

pub open spec fn offset_in_range(o: i32) -> bool {
    -86400 < o < 86400
}

/// Relies on chrono's `TimeZone::offset_from_local_datetime` for `chrono_tz::Tz`,
/// and on `FixedOffset::local_minus_utc`, which is always strictly within a day.
#[verifier::external_body]
fn local_mapping(tz: &chrono_tz::Tz, date: CivilDate, time: TimeOfDay) -> (r: LocalMapping)
    requires
        date.wf(),
        time.wf(),
    ensures
        r matches LocalMapping::Single(o) ==> offset_in_range(o),
        r matches LocalMapping::Ambiguous(a, b) ==> offset_in_range(a) && offset_in_range(b),
{
    let d = chrono::NaiveDate::from_ymd_opt(date.year, date.month as u32, date.day as u32).unwrap();
    let local = d.and_hms_opt(time.hour as u32, time.minute as u32, 0).unwrap();
    match tz.offset_from_local_datetime(&local) {
        chrono::LocalResult::None => LocalMapping::Nonexistent,
        chrono::LocalResult::Single(o) => LocalMapping::Single(o.fix().local_minus_utc()),
        chrono::LocalResult::Ambiguous(a, b) => {
            LocalMapping::Ambiguous(a.fix().local_minus_utc(), b.fix().local_minus_utc())
        },
    }
}

/// The offset at which a local time is taken: the only one, or that of the
/// earlier instant in a fold; none in a gap.
pub open spec fn chosen_offset(m: LocalMapping) -> Option<i32> {
    match m {
        LocalMapping::Nonexistent => None,
        LocalMapping::Single(o) => Some(o),
        LocalMapping::Ambiguous(a, _) => Some(a),
    }
}

/// The instant to set the clock to for `time` on `today`, given how the local
/// zone maps that local time: `LocalTimeNonexistent` in a gap, else the
/// instant at the chosen offset.
pub fn resolve_local_time(today: CivilDate, time: TimeOfDay, mapping: LocalMapping) -> (r: Result<
    ZonedTimestamp,
    TimeError,
>)
    requires
        today.wf(),
        time.wf(),
        mapping matches LocalMapping::Single(o) ==> offset_in_range(o),
        mapping matches LocalMapping::Ambiguous(a, b) ==> offset_in_range(a),
    ensures
        match chosen_offset(mapping) {
            None => r == Err::<ZonedTimestamp, TimeError>(TimeError::LocalTimeNonexistent),
            Some(o) => r == Ok::<ZonedTimestamp, TimeError>(combine_spec(today, time, o as int)),
        },
        r matches Ok(z) ==> z.wf() && z.local_days() == date_days(today) && z.local_hour()
            == time.hour && z.local_minute() == time.minute,
{
    proof {
        if let Some(o) = chosen_offset(mapping) {
            lemma_combine_reads_back(today, time, o as int);
        }
    }
    match mapping {
        LocalMapping::Nonexistent => Err(TimeError::LocalTimeNonexistent),
        LocalMapping::Single(o) => Ok(combine(today, time, o)),
        LocalMapping::Ambiguous(a, _) => Ok(combine(today, time, a)),
    }
}

/// The one action that an argument list asks for.
#[derive(Debug, PartialEq, Eq)]
pub enum Command {
    /// Set the clock to this time today.
    SetTime(String),
    /// `-t` came last, with no value after it.
    MissingTimeValue,
    /// Set the clock from the network time server.
    SyncNetwork,
    ShowHelp,
    ShowVersion,
    /// No recognised flag.
    InvalidArgument,
}

/// The flag `-c`.
pub open spec fn flag(c: char) -> Seq<char> {
    seq!['-', c]
}

pub open spec fn arg_views(args: Seq<String>) -> Seq<Seq<char>> {
    args.map_values(|a: String| a@)
}

pub open spec fn has_flag(v: Seq<Seq<char>>, f: Seq<char>) -> bool {
    exists|i: int| 0 <= i < v.len() && v[i] == f
}

pub open spec fn is_first_flag(v: Seq<Seq<char>>, f: Seq<char>, i: int) -> bool {
    &&& 0 <= i < v.len()
    &&& v[i] == f
    &&& forall|j: int| 0 <= j < i ==> v[j] != f
}

/// Where `f` first stands in `v`.
pub open spec fn first_flag(v: Seq<Seq<char>>, f: Seq<char>) -> int {
    choose|i: int| is_first_flag(v, f, i)
}

fn is_flag(a: &String, c: char) -> (r: bool)
    ensures
        r == (a@ == flag(c)),
{
    let s = a.as_str();
    if s.unicode_len() != 2 {
        return false;
    }
    let r = s.get_char(0) == '-' && s.get_char(1) == c;
    proof {
        if r {
            assert(s@ =~= flag(c));
        }
    }
    r
}

/// Where the flag `-c` first stands in `args`, if anywhere.
fn find_flag(args: &Vec<String>, c: char) -> (r: Option<usize>)
    ensures
        match r {
            None => !has_flag(arg_views(args@), flag(c)),
            Some(i) => is_first_flag(arg_views(args@), flag(c), i as int) && first_flag(
                arg_views(args@),
                flag(c),
            ) == i,
        },
{
    let ghost v = arg_views(args@);
    let mut i: usize = 0;
    while i < args.len()
        invariant
            v == arg_views(args@),
            i <= args.len(),
            forall|j: int| 0 <= j < i ==> v[j] != flag(c),
        decreases args.len() - i,
    {
        if is_flag(&args[i], c) {
            proof {
                assert(is_first_flag(v, flag(c), i as int));
                let k = first_flag(v, flag(c));
                assert(is_first_flag(v, flag(c), k));
                if k < i {
                } else if k > i {
                    assert(v[i as int] != flag(c));
                }
            }
            return Some(i);
        }
        i += 1;
    }
    None
}

/// The command that an argument list (without the program's name) asks for.
/// Flags are taken in this order of priority, wherever they stand: `-t` and
/// the argument after its first occurrence, `-r`, `-h`, `-v`.
pub open spec fn command_of(v: Seq<Seq<char>>, r: Command) -> bool {
    if has_flag(v, flag('t')) {
        let i = first_flag(v, flag('t'));
        if i + 1 < v.len() {
            r matches Command::SetTime(t) && t@ == v[i + 1]
        } else {
            r == Command::MissingTimeValue
        }
    } else if has_flag(v, flag('r')) {
        r == Command::SyncNetwork
    } else if has_flag(v, flag('h')) {
        r == Command::ShowHelp
    } else if has_flag(v, flag('v')) {
        r == Command::ShowVersion
    } else {
        r == Command::InvalidArgument
    }
}

/// `-r` followed by any arguments but `-t` asks for one network sync, and
/// nothing else: the arguments after it change nothing.
pub proof fn lemma_sync_despite_trailing(trailing: Seq<Seq<char>>, r: Command)
    requires
        !has_flag(trailing, flag('t')),
        command_of(seq![flag('r')] + trailing, r),
    ensures
        r == Command::SyncNetwork,
{
    let v = seq![flag('r')] + trailing;
    assert(v[0] == flag('r'));
    assert(flag('r')[1] != flag('t')[1]);
    assert forall|i: int| 0 <= i < v.len() implies v[i] != flag('t') by {
        if i > 0 {
            assert(v[i] == trailing[i - 1]);
        }
    }
}

/// The application, with the local time zone that it interprets times in.
pub struct App {
    tz: chrono_tz::Tz,
    zone_name: String,
}

impl App {
    /// The name of the local time zone.
    pub closed spec fn zone_view(&self) -> Seq<char> {
        self.zone_name@
    }

    /// Starts with the zone that the operating system reported, if it did:
    /// `TimezoneUnavailable` if it reported none, `TimezoneUnrecognized` if
    /// the database does not know the name.
    pub fn new(system_zone: Option<String>) -> (r: Result<App, TimeError>)
        ensures
            match system_zone {
                None => r matches Err(e) && e == TimeError::TimezoneUnavailable,
                Some(name) => if known_zone(name@) {
                    r matches Ok(app) && app.zone_view() == name@
                } else {
                    r matches Err(e) && e == TimeError::TimezoneUnrecognized
                },
            },
    {
        match system_zone {
            None => Err(TimeError::TimezoneUnavailable),
            Some(name) => match parse_zone(name.as_str()) {
                None => Err(TimeError::TimezoneUnrecognized),
                Some(tz) => Ok(App { tz, zone_name: name }),
            },
        }
    }

    /// The name of the local time zone.
    pub fn zone_name(&self) -> (r: &str)
        ensures
            r@ == self.zone_view(),
    {
        self.zone_name.as_str()
    }

    /// The command that `args` (without the program's name) asks for.
    pub fn parse_arguments(&self, args: &Vec<String>) -> (r: Command)
        ensures
            command_of(arg_views(args@), r),
    {
        match find_flag(args, 't') {
            Some(i) => {
                if args.len() - i > 1 {
                    Command::SetTime(args[i + 1].clone())
                } else {
                    Command::MissingTimeValue
                }
            },
            None => {
                if find_flag(args, 'r').is_some() {
                    Command::SyncNetwork
                } else if find_flag(args, 'h').is_some() {
                    Command::ShowHelp
                } else if find_flag(args, 'v').is_some() {
                    Command::ShowVersion
                } else {
                    Command::InvalidArgument
                }
            },
        }
    }

    /// The instant that `-t time_arg` sets the clock to: `time_arg` today, on
    /// the local zone's clock. `TimeFormatInvalid` exactly when `time_arg` is
    /// not in the `H:MM:am` / `H:MM:pm` format; otherwise the local clock
    /// reads that hour and minute at the instant, or today has no such time
    /// (`LocalTimeNonexistent`).
    pub fn change_time_with_time_argument(&self, time_arg: &str) -> (r: Result<
        ZonedTimestamp,
        TimeError,
    >)
        ensures
            human_time(time_arg@) is None <==> r == Err::<ZonedTimestamp, TimeError>(
                TimeError::TimeFormatInvalid,
            ),
            r matches Err(e) ==> e == TimeError::TimeFormatInvalid || e
                == TimeError::LocalTimeNonexistent,
            r matches Ok(z) ==> z.wf() && z.nanos == 0 && exists|d: CivilDate, o: int|
                d.wf() && -86400 < o < 86400 && z == combine_spec(
                    d,
                    human_time(time_arg@).unwrap(),
                    o,
                ),
            r matches Ok(z) ==> z.local_hour() == human_time(time_arg@).unwrap().hour
                && z.local_minute() == human_time(time_arg@).unwrap().minute,
    {
        let time = match parse_human_time(time_arg) {
            Err(e) => {
                return Err(e);
            },
            Ok(t) => t,
        };
        let today = today_in(&self.tz);
        let mapping = local_mapping(&self.tz, today, time);
        let r = resolve_local_time(today, time, mapping);
        proof {
            if let Some(o) = chosen_offset(mapping) {
                assert(-86400 < o as int && (o as int) < 86400);
                assert(combine_spec(today, time, o as int) == r.unwrap());
            }
        }
        r
    }
}

} // verus!
