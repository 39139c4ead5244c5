use chrono::{FixedOffset, TimeZone, Utc};
use omron_link::timeutil::{Current, LocalTime, TimeUtil};
use tzfile::Tz;

#[test]
fn get_ts_in_utc() {
    let tz = Tz::from(Utc);
    assert_eq!(
        TimeUtil::get_ts(&tz, 2005, 7, 1, 5, 0, 0),
        Some(1_120_194_000_000_000_000)
    );
    assert_eq!(TimeUtil::get_ts(&tz, 1970, 1, 1, 0, 0, 1), Some(1_000_000_000));
    assert_eq!(
        TimeUtil::get_ts(&tz, 2024, 2, 29, 23, 59, 58),
        Utc.with_ymd_and_hms(2024, 2, 29, 23, 59, 58).unwrap().timestamp_nanos_opt()
    );
}

#[test]
fn get_ts_in_a_zone_east_of_utc() {
    let tz = Tz::from(FixedOffset::east_opt(3600).unwrap());
    assert_eq!(
        TimeUtil::get_ts(&tz, 2005, 7, 1, 5, 0, 0),
        Some(1_120_190_400_000_000_000)
    );
}

#[test]
fn get_ts_at_the_ends_of_the_range() {
    let tz = Tz::from(Utc);
    assert_eq!(
        TimeUtil::get_ts(&tz, 1678, 1, 1, 0, 0, 0),
        Utc.with_ymd_and_hms(1678, 1, 1, 0, 0, 0).unwrap().timestamp_nanos_opt()
    );
    assert!(TimeUtil::get_ts(&tz, 1678, 1, 1, 0, 0, 0).unwrap() < 0);
    assert!(TimeUtil::get_ts(&tz, 2261, 12, 31, 23, 59, 59).unwrap() > 0);
}

#[test]
fn get_ts_of_a_time_that_is_none() {
    let tz = Tz::from(Utc);
    assert_eq!(TimeUtil::get_ts(&tz, 2023, 2, 29, 0, 0, 0), None);
    assert_eq!(TimeUtil::get_ts(&tz, 2024, 13, 1, 0, 0, 0), None);
    assert_eq!(TimeUtil::get_ts(&tz, 2024, 0, 1, 0, 0, 0), None);
    assert_eq!(TimeUtil::get_ts(&tz, 2024, 1, 1, 24, 0, 0), None);
    assert_eq!(TimeUtil::get_ts(&tz, 2024, 1, 1, 0, 60, 0), None);
    assert_eq!(TimeUtil::get_ts(&tz, 2024, 1, 1, 0, 0, 60), None);
}

#[test]
fn current_of_a_clock_reading() {
    let c = TimeUtil::current_of((2024, 2, 29, 23, 59, 58)).unwrap();
    assert_eq!((c.year, c.month, c.day, c.hour, c.min, c.sec), (2024, 2, 29, 23, 59, 58));
    assert!(TimeUtil::current_of((-1, 1, 1, 0, 0, 0)).is_none());
    assert!(TimeUtil::current_of((65536, 1, 1, 0, 0, 0)).is_none());
    assert!(TimeUtil::current_of((65535, 1, 1, 0, 0, 0)).is_some());
    assert!(TimeUtil::current_of((2024, 256, 1, 0, 0, 0)).is_none());
}

#[test]
fn get_current_is_a_calendar_time() {
    let tz = Tz::from(Utc);
    let c: Current = TimeUtil::get_current(&tz).unwrap();
    assert!(c.year >= 2024);
    assert!((1..=12).contains(&c.month));
    assert!((1..=31).contains(&c.day));
    assert!(c.hour <= 23 && c.min <= 59 && c.sec <= 59);
    let ts = TimeUtil::get_ts(&tz, c.year, c.month, c.day, c.hour, c.min, c.sec).unwrap();
    let now = Utc::now().timestamp_nanos_opt().unwrap();
    assert!(ts <= now && now - ts < 5_000_000_000);
}

#[test]
fn instant_of_a_local_time() {
    assert_eq!(TimeUtil::instant(LocalTime::Once(Some(42))), Some(42));
    assert_eq!(TimeUtil::instant(LocalTime::Once(Some(-1))), Some(-1));
    assert_eq!(TimeUtil::instant(LocalTime::Once(None)), None);
    assert_eq!(TimeUtil::instant(LocalTime::Never), None);
    assert_eq!(TimeUtil::instant(LocalTime::Twice), None);
}
