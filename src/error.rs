//! What can go wrong, at startup and in each action.
use vstd::prelude::*;

verus! {

#[derive(Clone, Copy, Debug, PartialEq, Eq, Structural)]
pub enum TimeError {
    /// The operating system reports no local time zone.
    TimezoneUnavailable,
    /// The reported zone is not in the time zone database.
    TimezoneUnrecognized,
    /// `-t` came without a value.
    ArgumentMissing,
    /// No recognised flag was given.
    ArgumentInvalid,
    /// The time argument is not in the `H:MM:am` / `H:MM:pm` format.
    TimeFormatInvalid,
    /// Today's date at the given time falls in a gap of the local zone.
    LocalTimeNonexistent,
    /// The time server could not be reached or answered with nonsense.
    NetworkTimeUnavailable,
    /// The operating system refused to set the clock, with this code.
    ClockSetFailed(i32),
}

pub open spec fn time_format_message() -> &'static str {
    "Could not parse time input. Example: 10:00:am"
}

impl TimeError {
    /// The line shown to the user for this error.
    pub fn message(&self) -> (r: &'static str)
        ensures
            *self == TimeError::TimeFormatInvalid ==> r@ == time_format_message()@,
    {
        match self {
            TimeError::TimezoneUnavailable => "Could not figure out local timezone",
            TimeError::TimezoneUnrecognized => "Could not parse timezone",
            TimeError::ArgumentMissing => "Error: missing time parameter",
            TimeError::ArgumentInvalid => "Error: Argument not valid",
            TimeError::TimeFormatInvalid => "Could not parse time input. Example: 10:00:am",
            TimeError::LocalTimeNonexistent => "That time does not occur today in the local time zone",
            TimeError::NetworkTimeUnavailable => "Could not get the time from the time server",
            TimeError::ClockSetFailed(_) => "Error settimeofday",
        }
    }
}

/// Reads the status of the operating system's clock-setting call: zero is
/// success, anything else the code of the failure.
pub fn clock_set_result(status: i32) -> (r: Result<(), TimeError>)
    ensures
        status == 0 <==> r is Ok,
        status != 0 ==> r == Err::<(), TimeError>(TimeError::ClockSetFailed(status)),
{
    if status == 0 {
        Ok(())
    } else {
        Err(TimeError::ClockSetFailed(status))
    }
}

} // verus!
