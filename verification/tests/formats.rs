use tickdash::clock::{seconds_until, split_hms, Timestamp};
use tickdash::config::{Config, ConfigError, TimeConfig};
use tickdash::invoke::{later_call_message, status_is_success, FirstOutcome, LaterOutcome};
use tickdash::invoke::first_call_message;
use tickdash::text::{u16_to_string, u64_to_string};

#[test]
fn decimal_digits() {
    assert_eq!(u64_to_string(0), "0");
    assert_eq!(u64_to_string(7), "7");
    assert_eq!(u64_to_string(10), "10");
    assert_eq!(u64_to_string(90210), "90210");
    assert_eq!(u64_to_string(u64::MAX), "18446744073709551615");
    assert_eq!(u16_to_string(200), "200");
    assert_eq!(u16_to_string(65535), "65535");
}

#[test]
fn hms_split() {
    assert_eq!(split_hms(0), (0, 0, 0));
    assert_eq!(split_hms(3661), (1, 1, 1));
    assert_eq!(split_hms(86399), (23, 59, 59));
    assert_eq!(split_hms(90), (0, 1, 30));
}

#[test]
fn countdown_to_target() {
    let now = Timestamp { days: 100, secs: 80000 };
    let target = Timestamp { days: 101, secs: 0 };
    assert_eq!(seconds_until(now, target), 6400);
    // A passed target counts as zero.
    assert_eq!(seconds_until(target, now), 0);
    assert_eq!(seconds_until(now, now), 0);
}

#[test]
fn first_call_texts() {
    assert_eq!(
        first_call_message(&FirstOutcome::Status(404)),
        "first call completed, status 404"
    );
    assert_eq!(
        first_call_message(&FirstOutcome::Transport("timed out".to_string())),
        "first call failed: timed out"
    );
}

#[test]
fn later_call_texts() {
    assert_eq!(
        later_call_message(&LaterOutcome::Transport("timed out".to_string())),
        "call failed: timed out"
    );
    assert_eq!(
        later_call_message(&LaterOutcome::HttpError(500)),
        "call returned status 500"
    );
    assert_eq!(
        later_call_message(&LaterOutcome::BodyError("broken pipe".to_string())),
        "call succeeded, reading the body failed: broken pipe"
    );
    assert_eq!(
        later_call_message(&LaterOutcome::NoDirectory),
        "call succeeded, no output directory to save to"
    );
    assert_eq!(
        later_call_message(&LaterOutcome::SaveFailed("disk full".to_string())),
        "call succeeded, saving the body failed: disk full"
    );
    assert_eq!(
        later_call_message(&LaterOutcome::Saved("12-00-00".to_string())),
        "call succeeded, body saved at 12-00-00"
    );
}

#[test]
fn success_statuses() {
    assert!(!status_is_success(199));
    assert!(status_is_success(200));
    assert!(status_is_success(204));
    assert!(status_is_success(299));
    assert!(!status_is_success(300));
    assert!(!status_is_success(404));
    assert!(!status_is_success(500));
}

fn cfg(on_time: bool, h: u32, m: u32, s: u32) -> Config {
    Config { api: "http://e".to_string(), on_time, time: TimeConfig { h, m, s } }
}

#[test]
fn on_time_config_bounds() {
    assert_eq!(cfg(true, 23, 59, 59).validate(), Ok(()));
    assert_eq!(cfg(true, 0, 0, 0).validate(), Ok(()));
    assert_eq!(cfg(true, 24, 0, 0).validate(), Err(ConfigError::OnTimeHour));
    assert_eq!(cfg(true, 23, 60, 0).validate(), Err(ConfigError::OnTimeMinute));
    assert_eq!(cfg(true, 23, 59, 60).validate(), Err(ConfigError::OnTimeSecond));
    // The hour is checked first.
    assert_eq!(cfg(true, 24, 60, 60).validate(), Err(ConfigError::OnTimeHour));
}

#[test]
fn interval_config_bounds() {
    // Plain wall-clock-like triples are fine.
    assert_eq!(cfg(false, 1, 2, 3).validate(), Ok(()));
    // A literal duration may overflow one field while the others are zero.
    assert_eq!(cfg(false, 0, 0, 90).validate(), Ok(()));
    assert_eq!(cfg(false, 0, 90, 0).validate(), Ok(()));
    // It may not overflow next to a non-zero neighbour.
    assert_eq!(cfg(false, 1, 0, 90).validate(), Err(ConfigError::IntervalSecond));
    assert_eq!(cfg(false, 0, 1, 90).validate(), Err(ConfigError::IntervalSecond));
    assert_eq!(cfg(false, 1, 90, 0).validate(), Err(ConfigError::IntervalMinute));
    assert_eq!(cfg(false, 0, 90, 1).validate(), Err(ConfigError::IntervalMinute));
    // The seconds bound is checked first.
    assert_eq!(cfg(false, 1, 90, 90).validate(), Err(ConfigError::IntervalSecond));
}
