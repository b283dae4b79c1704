use time_machine::clock::{parse_human_time, TimeOfDay};
use time_machine::error::TimeError;

fn tod(hour: u8, minute: u8) -> Result<TimeOfDay, TimeError> {
    Ok(TimeOfDay { hour, minute })
}

#[test]
fn midnight_and_noon() {
    assert_eq!(parse_human_time("12:00:am"), tod(0, 0));
    assert_eq!(parse_human_time("12:00:pm"), tod(12, 0));
}

#[test]
fn afternoon_and_morning() {
    assert_eq!(parse_human_time("5:30:pm"), tod(17, 30));
    assert_eq!(parse_human_time("10:00:am"), tod(10, 0));
    assert_eq!(parse_human_time("11:59:pm"), tod(23, 59));
    assert_eq!(parse_human_time("1:05:am"), tod(1, 5));
}

#[test]
fn leading_zero_hour_is_read() {
    assert_eq!(parse_human_time("05:30:pm"), tod(17, 30));
}

#[test]
fn meridiem_in_either_case() {
    assert_eq!(parse_human_time("5:30:PM"), tod(17, 30));
    assert_eq!(parse_human_time("5:30:Am"), tod(5, 30));
}

#[test]
fn malformed_times_are_refused() {
    for s in ["25:00:pm", "5:30", "5:30:xm", "0:30:am", "13:00:pm", "5:60:pm", "5-30-pm", "5:3:pm", "", "5:30:pmx", "a:30:pm"] {
        assert_eq!(parse_human_time(s), Err(TimeError::TimeFormatInvalid), "{}", s);
    }
}

#[test]
fn format_error_names_the_example() {
    assert!(TimeError::TimeFormatInvalid.message().contains("10:00:am"));
}
