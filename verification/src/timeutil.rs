//! Calendar time in the time zone of a device.

use chrono::{Datelike, MappedLocalTime, TimeZone, Timelike, Utc};
use tzfile::Tz;
use vstd::prelude::*;

verus! {

/// A time zone of the tz database, as `tzfile` holds it.
#[verifier::external_type_specification]
#[verifier::external_body]
pub struct ExTz(tzfile::Tz);

/// What the clocks of a zone make of a date and a time of day.
#[derive(Clone, Copy, Debug)]
pub enum LocalTime {
    /// They never show it: there is no such date or time of day, or the
    /// clocks were set forward over it.
    Never,
    /// They show it once: at this instant, in nanoseconds since the epoch,
    /// if that number fits into 64 bits.
    Once(Option<i64>),
    /// They show it twice: the clocks were set back over it.
    Twice,
}

/// What the clocks of the zone `tz` make of the given date and time.
pub uninterp spec fn local_time(
    tz: Tz,
    year: int,
    month: int,
    day: int,
    hour: int,
    min: int,
    sec: int,
) -> LocalTime;

/// The one instant that a local time stands for, if there is one.
pub open spec fn instant_of(t: LocalTime) -> Option<i64> {
    match t {
        LocalTime::Never => None,
        LocalTime::Once(ts) => ts,
        LocalTime::Twice => None,
    }
}

/// The instant, in nanoseconds since the epoch, at which the clocks of the
/// zone `tz` show the given date and time; `None` if they never show it, or
/// show it twice.
pub open spec fn local_to_utc_nanos(
    tz: Tz,
    year: int,
    month: int,
    day: int,
    hour: int,
    min: int,
    sec: int,
) -> Option<i64> {
    instant_of(local_time(tz, year, month, day, hour, min, sec))
}

/// The first and the last year whose instants all are a number of
/// nanoseconds that fits into 64 bits.
pub const TS_YEAR_MIN: u16 = 1678;

pub const TS_YEAR_MAX: u16 = 2261;

/// A date and a time of day as a wall clock shows them.
#[derive(Clone, Copy, Debug)]
pub struct Current {
    pub year: u16,
    pub month: u8,
    pub day: u8,
    pub hour: u8,
    pub min: u8,
    pub sec: u8,
}

impl Current {
    /// Month, day, hour, minute and second are in the range of a calendar.
    pub open spec fn valid(&self) -> bool {
        &&& 1 <= self.month <= 12
        &&& 1 <= self.day <= 31
        &&& self.hour <= 23
        &&& self.min <= 59
        &&& self.sec <= 59
    }
}

pub struct TimeUtil;

/// Calls `TimeZone::with_ymd_and_hms` of chrono on a zone of tzfile and
/// hands out which of its three cases came back; of a single result, what
/// `DateTime::timestamp_nanos_opt` of chrono makes of it. Trusted: that the
/// outcome hangs on the zone and the six numbers alone.
#[verifier::external_body]
fn local_time_of(tz: &Tz, year: i32, month: u32, day: u32, hour: u32, min: u32, sec: u32) -> (t:
    LocalTime)
    requires
        TS_YEAR_MIN <= year <= TS_YEAR_MAX,
    ensures
        t == local_time(
            *tz,
            year as int,
            month as int,
            day as int,
            hour as int,
            min as int,
            sec as int,
        ),
{
    match tz.with_ymd_and_hms(year, month, day, hour, min, sec) {
        MappedLocalTime::Single(datetime) => LocalTime::Once(datetime.timestamp_nanos_opt()),
        MappedLocalTime::Ambiguous(_, _) => LocalTime::Twice,
        MappedLocalTime::None => LocalTime::Never,
    }
}

/// Reads the clock with `Utc::now` of chrono and takes the fields of the
/// time in the zone `tz`: year, month, day, hour, minute, second. Trusted:
/// the ranges that chrono documents for `month`, `day`, `hour`, `minute`
/// and `second`.
#[verifier::external_body]
fn wall_clock(tz: &Tz) -> (now: (i32, u32, u32, u32, u32, u32))
    ensures
        1 <= now.1 <= 12,
        1 <= now.2 <= 31,
        now.3 <= 23,
        now.4 <= 59,
        now.5 <= 59,
{
    let datetime = Utc::now().with_timezone(&tz);
    (
        datetime.year(),
        datetime.month(),
        datetime.day(),
        datetime.hour(),
        datetime.minute(),
        datetime.second(),
    )
}

impl TimeUtil {
    /// The instant at which the clocks of `tz` show the given time, in
    /// nanoseconds since the epoch.
    pub fn get_ts(tz: &Tz, year: u16, month: u8, day: u8, hour: u8, min: u8, sec: u8) -> (ts:
        Option<i64>)
        requires
            TS_YEAR_MIN <= year <= TS_YEAR_MAX,
        ensures
            ts == local_to_utc_nanos(
                *tz,
                year as int,
                month as int,
                day as int,
                hour as int,
                min as int,
                sec as int,
            ),
    {
        Self::instant(
            local_time_of(
                tz,
                year as i32,
                month as u32,
                day as u32,
                hour as u32,
                min as u32,
                sec as u32,
            ),
        )
    }

    /// The one instant that a local time stands for: none for a time that
    /// the clocks never show or show twice.
    pub fn instant(t: LocalTime) -> (ts: Option<i64>)
        ensures
            ts == instant_of(t),
    {
        match t {
            LocalTime::Never => None,
            LocalTime::Once(ts) => ts,
            LocalTime::Twice => None,
        }
    }

    /// The fields of a clock reading as a date and time; `None` if the year
    /// is not one of the years 0 to 65535, or another field does not fit
    /// into a byte.
    pub fn current_of(now: (i32, u32, u32, u32, u32, u32)) -> (current: Option<Current>)
        ensures
            current is Some <==> 0 <= now.0 <= 0xffff && now.1 <= 0xff && now.2 <= 0xff && now.3
                <= 0xff && now.4 <= 0xff && now.5 <= 0xff,
            current matches Some(c) ==> c.year == now.0 && c.month == now.1 && c.day == now.2
                && c.hour == now.3 && c.min == now.4 && c.sec == now.5,
    {
        if now.0 < 0 || now.0 > 0xffff {
            return None;
        }
        if now.1 > 0xff || now.2 > 0xff || now.3 > 0xff || now.4 > 0xff || now.5 > 0xff {
            return None;
        }
        Some(
            Current {
                year: now.0 as u16,
                month: now.1 as u8,
                day: now.2 as u8,
                hour: now.3 as u8,
                min: now.4 as u8,
                sec: now.5 as u8,
            },
        )
    }

    /// What the clocks of `tz` show now; `None` if the year is not one of
    /// the years 0 to 65535.
    pub fn get_current(tz: &Tz) -> (current: Option<Current>)
        ensures
            current matches Some(c) ==> c.valid(),
    {
        Self::current_of(wall_clock(tz))
    }
}

} // verus!
