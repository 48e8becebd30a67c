use did_it_run::duration_format::{
    duration_format, format_elapsed, MILLISECONDS_PER_SECOND, SECONDS_PER_DAY, SECONDS_PER_HOUR,
    SECONDS_PER_MINUTE,
};
use std::time::Duration;

fn millis(millis: u64) -> Duration {
    Duration::from_millis(millis)
}

fn secs(secs: u64) -> Duration {
    Duration::from_secs(secs)
}

#[test]
fn formats_milliseconds() {
    assert_eq!(duration_format(&millis(0)), "0ms");
    assert_eq!(duration_format(&millis(MILLISECONDS_PER_SECOND - 1)), "999ms");
}

#[test]
fn formats_seconds() {
    assert_eq!(duration_format(&millis(MILLISECONDS_PER_SECOND)), "1s");
    assert_eq!(duration_format(&secs(SECONDS_PER_MINUTE - 1)), "59s");
}

#[test]
fn formats_minutes() {
    assert_eq!(duration_format(&secs(SECONDS_PER_MINUTE)), "1m 0s");
    assert_eq!(duration_format(&secs(SECONDS_PER_HOUR - 1)), "59m 59s");
    assert_eq!(duration_format(&secs(SECONDS_PER_HOUR)), "1h 0m 0s");
    assert_eq!(duration_format(&secs(SECONDS_PER_DAY - 1)), "23h 59m 59s");
}

#[test]
fn formats_days() {
    assert_eq!(duration_format(&secs(SECONDS_PER_DAY)), "1d 0h 0m");
    assert_eq!(
        duration_format(&secs(
            3 * SECONDS_PER_DAY + 14 * SECONDS_PER_HOUR + 16 * SECONDS_PER_MINUTE
        )),
        "3d 14h 16m"
    );
}

#[test]
fn format_elapsed_drops_finer_units() {
    assert_eq!(format_elapsed(1, 999), "1s");
    assert_eq!(format_elapsed(3 * 86_400 + 14 * 3_600 + 16 * 60 + 59, 999), "3d 14h 16m");
    assert_eq!(format_elapsed(u64::MAX, 0), "213503982334601d 7h 0m");
}
