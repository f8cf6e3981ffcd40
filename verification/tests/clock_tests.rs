use udp_relay::clock::{log_time, now_time, LocalTime};

fn at(year: i32, month: u32, day: u32, hour: u32, minute: u32, second: u32, nanosecond: u32) -> LocalTime {
    LocalTime { year, month, day, hour, minute, second, nanosecond }
}

#[test]
fn log_time_pads_fields() {
    assert_eq!(log_time(&at(2024, 1, 5, 3, 4, 5, 0)), "2024-01-05 03:04:05");
    assert_eq!(log_time(&at(1999, 12, 31, 23, 59, 59, 999_999_999)), "1999-12-31 23:59:59");
}

#[test]
fn log_time_leap_second_shows_sixty() {
    assert_eq!(log_time(&at(2016, 12, 31, 23, 59, 59, 1_000_000_000)), "2016-12-31 23:59:60");
}

#[test]
fn log_time_small_and_large_years() {
    assert_eq!(log_time(&at(5, 2, 28, 0, 0, 0, 0)), "0005-02-28 00:00:00");
    assert_eq!(log_time(&at(-1, 3, 1, 12, 0, 0, 0)), "-0001-03-01 12:00:00");
    assert_eq!(log_time(&at(12345, 6, 7, 8, 9, 10, 0)), "+12345-06-07 08:09:10");
}

#[test]
fn log_time_leap_day() {
    assert_eq!(log_time(&at(2000, 2, 29, 1, 2, 3, 0)), "2000-02-29 01:02:03");
}

#[test]
fn now_time_has_log_shape() {
    let t = now_time();
    assert_eq!(t.len(), 19);
    let b = t.as_bytes();
    assert_eq!(b[4], b'-');
    assert_eq!(b[7], b'-');
    assert_eq!(b[10], b' ');
    assert_eq!(b[13], b':');
    assert_eq!(b[16], b':');
}
