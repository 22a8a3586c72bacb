use chrono::{DateTime, Local, NaiveDate};
use cronthat::error::ScheduleError;
use cronthat::time::Instant;
use cronthat::until::{parse_date_time, LocalInstant, DATETIME_FORMAT};

fn local(y: i32, m: u32, d: u32, h: u32, min: u32, s: u32) -> Option<Instant> {
    NaiveDate::from_ymd_opt(y, m, d)
        .unwrap()
        .and_hms_opt(h, min, s)
        .unwrap()
        .and_local_timezone(Local)
        .single()
        .map(|t| Instant { secs: t.timestamp(), nanos: 0 })
}

fn written(t: Instant) -> String {
    DateTime::from_timestamp(t.secs, t.nanos)
        .unwrap()
        .with_timezone(&Local)
        .format(DATETIME_FORMAT)
        .to_string()
}

#[test]
fn format_is_date_then_time_of_day() {
    assert_eq!(DATETIME_FORMAT, "%Y-%m-%d %H:%M:%S");
}

#[test]
fn timestamp_is_read_in_local_time() {
    let expected = local(2015, 9, 5, 23, 56, 4);
    if let Some(t) = expected {
        assert_eq!(parse_date_time("2015-09-05 23:56:04"), Ok(t));
    } else {
        assert_eq!(
            parse_date_time("2015-09-05 23:56:04"),
            Err(ScheduleError::TimezoneAmbiguous)
        );
    }
}

#[test]
fn timestamps_a_second_apart_are_a_second_apart() {
    let a = parse_date_time("2031-01-15 12:00:00");
    let b = parse_date_time("2031-01-15 12:00:01");
    if let (Ok(a), Ok(b)) = (a, b) {
        assert_eq!(b.secs - a.secs, 1);
        assert_eq!(a.nanos, 0);
        assert!(b.is_after(&a));
    }
}

#[test]
fn written_timestamp_reads_back_the_same() {
    for text in [
        "2015-09-05 23:56:04",
        "1999-12-31 23:59:59",
        "2024-02-29 00:00:00",
        "2031-01-15 12:00:00",
        "2038-01-19 03:14:08",
    ] {
        if let Ok(t) = parse_date_time(text) {
            assert_eq!(written(t), text);
        }
    }
}

#[test]
fn instant_written_and_read_is_the_same_instant() {
    for secs in [0i64, 1_000_000_000, 1_700_000_000, 1_893_456_000] {
        let t = Instant { secs, nanos: 0 };
        if let Ok(back) = parse_date_time(&written(t)) {
            assert_eq!(back, t);
        }
    }
}

#[test]
fn text_that_is_no_timestamp_is_refused() {
    for text in [
        "",
        "tomorrow",
        "2015-09-05",
        "23:56:04",
        "2015-09-05T23:56:04",
        "2015-09-05 23:56",
        "2015-09-05 23:56:04 UTC",
        "2015/09/05 23:56:04",
    ] {
        assert_eq!(parse_date_time(text), Err(ScheduleError::InvalidTimestamp));
    }
}

#[test]
fn date_that_does_not_exist_is_refused() {
    assert_eq!(parse_date_time("2015-02-30 00:00:00"), Err(ScheduleError::InvalidTimestamp));
    assert_eq!(parse_date_time("2015-13-01 00:00:00"), Err(ScheduleError::InvalidTimestamp));
    assert_eq!(parse_date_time("2015-09-05 24:00:00"), Err(ScheduleError::InvalidTimestamp));
    assert_eq!(parse_date_time("2015-09-05 23:60:00"), Err(ScheduleError::InvalidTimestamp));
}

#[test]
fn single_instant_is_taken() {
    let t = Instant { secs: 12, nanos: 34 };
    assert_eq!(LocalInstant::Single(t).single(), Ok(t));
}

#[test]
fn missing_or_double_instant_is_an_error() {
    let a = Instant { secs: 12, nanos: 0 };
    let b = Instant { secs: 3612, nanos: 0 };
    assert_eq!(LocalInstant::Missing.single(), Err(ScheduleError::TimezoneAmbiguous));
    assert_eq!(LocalInstant::Ambiguous(a, b).single(), Err(ScheduleError::TimezoneAmbiguous));
}
