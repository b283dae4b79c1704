use time_machine::app::{App, Command};
use time_machine::error::TimeError;

fn app() -> App {
    App::new(Some("America/Chicago".to_string())).unwrap()
}

fn args(a: &[&str]) -> Vec<String> {
    a.iter().map(|s| s.to_string()).collect()
}

#[test]
fn time_flag_with_value() {
    assert_eq!(app().parse_arguments(&args(&["-t", "5:30:pm"])), Command::SetTime("5:30:pm".to_string()));
}

#[test]
fn time_flag_without_value() {
    assert_eq!(app().parse_arguments(&args(&["-t"])), Command::MissingTimeValue);
}

#[test]
fn sync_flag_with_trailing_arguments() {
    assert_eq!(app().parse_arguments(&args(&["-r"])), Command::SyncNetwork);
    assert_eq!(app().parse_arguments(&args(&["-r", "foo", "bar"])), Command::SyncNetwork);
}

#[test]
fn time_flag_beats_help() {
    assert_eq!(app().parse_arguments(&args(&["-h", "-t", "5:30:pm"])), Command::SetTime("5:30:pm".to_string()));
}

#[test]
fn priority_of_the_other_flags() {
    assert_eq!(app().parse_arguments(&args(&["-v", "-h", "-r"])), Command::SyncNetwork);
    assert_eq!(app().parse_arguments(&args(&["-v", "-h"])), Command::ShowHelp);
    assert_eq!(app().parse_arguments(&args(&["-v"])), Command::ShowVersion);
}

#[test]
fn nothing_recognised() {
    assert_eq!(app().parse_arguments(&args(&[])), Command::InvalidArgument);
    assert_eq!(app().parse_arguments(&args(&["-x", "--t", "t"])), Command::InvalidArgument);
}

#[test]
fn first_time_flag_takes_its_value() {
    assert_eq!(app().parse_arguments(&args(&["-t", "1:00:am", "-t", "2:00:am"])), Command::SetTime("1:00:am".to_string()));
}

#[test]
fn known_and_unknown_zones() {
    let a = App::new(Some("America/Chicago".to_string())).unwrap();
    assert_eq!(a.zone_name(), "America/Chicago");
    assert_eq!(App::new(Some("Mars/Olympus".to_string())).err(), Some(TimeError::TimezoneUnrecognized));
    assert_eq!(App::new(None).err(), Some(TimeError::TimezoneUnavailable));
}
