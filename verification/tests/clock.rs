use time::{Date, OffsetDateTime, Time};
use ushio::clock::{day_window_start, next_1am, next_1am_after, next_1am_from, EARLIEST_UNIX, LATEST_SCHEDULABLE_UNIX, LATEST_UNIX};

#[test]
fn test_offsets() {
    let baseline = OffsetDateTime::from_unix_timestamp(1782675578).unwrap();
    assert_eq!(
        baseline,
        OffsetDateTime::new_utc(
            Date::from_calendar_date(2026, time::Month::June, 28).unwrap(),
            Time::from_hms(19, 39, 38).unwrap()
        )
    );

    let tomorrow = baseline
        .clone()
        .replace_day(baseline.day() + 1)
        .unwrap()
        .replace_time(Time::from_hms(1, 0, 0).unwrap());

    assert_eq!(
        tomorrow,
        OffsetDateTime::new_utc(
            Date::from_calendar_date(2026, time::Month::June, 29).unwrap(),
            Time::from_hms(1, 0, 0).unwrap()
        )
    )
}

#[test]
fn test_next_1am_from() {
    let baseline = OffsetDateTime::from_unix_timestamp(1782675578).unwrap();
    assert_eq!(
        next_1am_from(baseline.unix_timestamp()),
        OffsetDateTime::new_utc(
            Date::from_calendar_date(2026, time::Month::June, 29).unwrap(),
            Time::from_hms(1, 0, 0).unwrap()
        )
        .unix_timestamp()
    );
}

/// The same computation done by the `time` crate itself.
fn next_1am_by_time(now: i64) -> i64 {
    (OffsetDateTime::from_unix_timestamp(now).unwrap() + time::Duration::days(1))
        .replace_time(Time::from_hms(1, 0, 0).unwrap())
        .unix_timestamp()
}

#[test]
fn next_1am_agrees_with_time_crate() {
    let samples: [i64; 10] = [
        0,
        1,
        3599,
        3600,
        86399,
        -1,
        -86400,
        -86401,
        1782675578,
        EARLIEST_UNIX,
    ];
    for now in samples {
        assert_eq!(next_1am_from(now), next_1am_by_time(now), "at {now}");
    }
    assert_eq!(
        next_1am_from(LATEST_SCHEDULABLE_UNIX),
        next_1am_by_time(LATEST_SCHEDULABLE_UNIX)
    );
}

#[test]
fn next_1am_before_epoch_floors_the_day() {
    // 1969-12-31T23:00:00Z is on the day before the epoch.
    assert_eq!(next_1am_from(-3600), 3600);
    // 1970-01-01T00:30:00Z is on the epoch day: the answer is the next day.
    assert_eq!(next_1am_from(1800), 86400 + 3600);
}

#[test]
fn next_1am_from_clock_is_one_oclock_tomorrow() {
    let before = OffsetDateTime::now_utc().unix_timestamp();
    let next = next_1am().unwrap();
    let after = OffsetDateTime::now_utc().unix_timestamp();
    assert_eq!(next.rem_euclid(86400), 3600);
    assert!(next > before);
    assert!(next == next_1am_from(before) || next == next_1am_from(after));
}

#[test]
fn day_window_start_is_one_day_back() {
    assert_eq!(day_window_start(1782675578), 1782675578 - 86400);
    assert_eq!(day_window_start(EARLIEST_UNIX + 10), EARLIEST_UNIX);
    assert_eq!(day_window_start(LATEST_UNIX), LATEST_UNIX - 86400);
}

#[test]
fn next_1am_after_clock_reading() {
    assert_eq!(next_1am_after(1782675578), Some(1782694800));
    assert_eq!(next_1am_after(LATEST_SCHEDULABLE_UNIX), Some(next_1am_from(LATEST_SCHEDULABLE_UNIX)));
    assert_eq!(next_1am_after(LATEST_SCHEDULABLE_UNIX + 1), None);
    assert_eq!(next_1am_after(LATEST_UNIX), None);
    assert_eq!(next_1am_after(EARLIEST_UNIX - 1), None);
}
