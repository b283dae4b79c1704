use time_machine::app::{resolve_local_time, App, LocalMapping};
use time_machine::civil::{combine, days_since_epoch, to_timeval, CivilDate, TimeVal};
use time_machine::clock::TimeOfDay;
use time_machine::error::{clock_set_result, TimeError};
use time_machine::sync::{convert_from_unix, timestamp_from_ntp, utc_clock_time, NtpSample};
use time_machine::world_time_model::WorldTimeModel;

fn date(year: i32, month: u8, day: u8) -> CivilDate {
    CivilDate { year, month, day }
}

#[test]
fn day_counts() {
    assert_eq!(days_since_epoch(date(1970, 1, 1)), 0);
    assert_eq!(days_since_epoch(date(2024, 1, 1)), 19723);
    assert_eq!(days_since_epoch(date(2000, 3, 1)), 11017);
    assert_eq!(days_since_epoch(date(1969, 12, 31)), -1);
    assert_eq!(days_since_epoch(date(2024, 2, 29)), 19782);
}

#[test]
fn half_past_five_in_a_zone_six_hours_behind() {
    let z = resolve_local_time(date(2024, 1, 1), TimeOfDay { hour: 17, minute: 30 }, LocalMapping::Single(-21600)).unwrap();
    assert_eq!(to_timeval(z), TimeVal { seconds: 1704151800, micros: 0 });
}

#[test]
fn combined_instant_reads_back() {
    let z = combine(date(2023, 7, 4), TimeOfDay { hour: 9, minute: 15 }, 7200);
    let local = z.seconds + z.offset_seconds as i64;
    assert_eq!(local.div_euclid(86400), days_since_epoch(date(2023, 7, 4)));
    assert_eq!(local.rem_euclid(86400), 9 * 3600 + 15 * 60);
}

#[test]
fn fold_takes_the_earlier_offset_and_gap_is_refused() {
    let t = TimeOfDay { hour: 1, minute: 30 };
    let z = resolve_local_time(date(2024, 11, 3), t, LocalMapping::Ambiguous(-18000, -21600)).unwrap();
    assert_eq!(z.offset_seconds, -18000);
    assert_eq!(z.seconds, 1730615400);
    let gap = resolve_local_time(date(2024, 3, 10), TimeOfDay { hour: 2, minute: 30 }, LocalMapping::Nonexistent);
    assert_eq!(gap, Err(TimeError::LocalTimeNonexistent));
}

#[test]
fn time_argument_in_utc() {
    let app = App::new(Some("Etc/UTC".to_string())).unwrap();
    let z = app.change_time_with_time_argument("5:30:pm").unwrap();
    assert_eq!(z.offset_seconds, 0);
    assert_eq!(z.nanos, 0);
    assert_eq!(z.seconds.rem_euclid(86400), 17 * 3600 + 30 * 60);
    let now = std::time::SystemTime::now().duration_since(std::time::UNIX_EPOCH).unwrap().as_secs() as i64;
    assert!((z.seconds.div_euclid(86400) - now.div_euclid(86400)).abs() <= 1);
}

#[test]
fn time_argument_in_chicago() {
    let app = App::new(Some("America/Chicago".to_string())).unwrap();
    let z = app.change_time_with_time_argument("5:30:pm").unwrap();
    assert!(z.offset_seconds == -21600 || z.offset_seconds == -18000);
    assert_eq!((z.seconds + z.offset_seconds as i64).rem_euclid(86400), 17 * 3600 + 30 * 60);
}

#[test]
fn bad_time_argument() {
    let app = App::new(Some("Etc/UTC".to_string())).unwrap();
    assert_eq!(app.change_time_with_time_argument("25:00:pm"), Err(TimeError::TimeFormatInvalid));
}

#[test]
fn unreachable_server() {
    assert_eq!(timestamp_from_ntp(None), Err(TimeError::NetworkTimeUnavailable));
}

#[test]
fn server_answer() {
    let sample = NtpSample { seconds: 1704151800, second_fraction: 0x8000_0000, offset: 12 };
    let z = timestamp_from_ntp(Some(sample)).unwrap();
    assert_eq!(z.nanos, 500_000_000);
    assert_eq!(to_timeval(z), TimeVal { seconds: 1704151800, micros: 500_000 });
    let huge = NtpSample { seconds: u64::MAX, second_fraction: 0, offset: 0 };
    assert_eq!(timestamp_from_ntp(Some(huge)), Err(TimeError::NetworkTimeUnavailable));
}

#[test]
fn clock_status() {
    assert_eq!(clock_set_result(0), Ok(()));
    assert_eq!(clock_set_result(-1), Err(TimeError::ClockSetFailed(-1)));
}

#[test]
fn empty_world_time_record() {
    let m = WorldTimeModel::default();
    assert!(m.unixtime.is_none() && m.timezone.is_none() && m.week_number.is_none());
}

#[test]
fn unix_digits_are_cut_to_seconds() {
    assert_eq!(convert_from_unix(1704151800), 1704151800);
    assert_eq!(convert_from_unix(1704151800123), 1704151800);
    assert_eq!(convert_from_unix(0), 0);
    assert_eq!(convert_from_unix(-5), -5);
    assert_eq!(convert_from_unix(-1234567890123), -123456789);
    assert_eq!(convert_from_unix(i64::MAX), 9223372036);
    assert_eq!(convert_from_unix(i64::MIN), -922337203);
}

#[test]
fn utc_hour_and_minute() {
    assert_eq!(utc_clock_time(1704151800), TimeOfDay { hour: 23, minute: 30 });
    assert_eq!(utc_clock_time(-60), TimeOfDay { hour: 23, minute: 59 });
    assert_eq!(utc_clock_time(0), TimeOfDay { hour: 0, minute: 0 });
}
