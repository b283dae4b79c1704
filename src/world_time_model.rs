//! The record that a world-time web service answers with.
use vstd::prelude::*;

verus! {

/// The fields of a world-time service's answer; each may be absent.
#[derive(Clone, Debug)]
pub struct WorldTimeModel {
    pub abbreviation: Option<String>,
    pub client_ip: Option<String>,
    pub datetime: Option<String>,
    pub day_of_week: Option<i32>,
    pub day_of_year: Option<i32>,
    pub dst: Option<bool>,
    pub dst_from: Option<String>,
    pub dst_offset: Option<i32>,
    pub dst_until: Option<String>,
    pub raw_offset: Option<i32>,
    pub timezone: Option<String>,
    pub unixtime: Option<i64>,
    pub utc_datetime: Option<String>,
    pub utc_offset: Option<String>,
    pub week_number: Option<i32>,
}

impl Default for WorldTimeModel {
    /// A record with every field absent.
    fn default() -> (r: Self)
        ensures
            r.abbreviation is None && r.client_ip is None && r.datetime is None
                && r.day_of_week is None && r.day_of_year is None && r.dst is None
                && r.dst_from is None && r.dst_offset is None && r.dst_until is None
                && r.raw_offset is None && r.timezone is None && r.unixtime is None
                && r.utc_datetime is None && r.utc_offset is None && r.week_number is None,
    {
        WorldTimeModel {
            abbreviation: None,
            client_ip: None,
            datetime: None,
            day_of_week: None,
            day_of_year: None,
            dst: None,
            dst_from: None,
            dst_offset: None,
            dst_until: None,
            raw_offset: None,
            timezone: None,
            unixtime: None,
            utc_datetime: None,
            utc_offset: None,
            week_number: None,
        }
    }
}

} // verus!
