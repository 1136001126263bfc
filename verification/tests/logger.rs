use disk_watchdog::logger::{clean_log, log_file_path, log_record, LogAge, RETENTION_SECONDS};

#[test]
fn the_log_file_has_a_fixed_name_under_the_log_directory() {
    assert_eq!(log_file_path("/var/log/watchdog"), "/var/log/watchdog/cleanup.log");
    assert_eq!(log_file_path("logs"), "logs/cleanup.log");
    assert_eq!(log_file_path(""), "/cleanup.log");
    assert_eq!(log_file_path("/var/log/"), "/var/log//cleanup.log");
}

#[test]
fn a_record_is_the_message_and_a_line_break() {
    assert_eq!(log_record("Deleting folder: /a/b"), "Deleting folder: /a/b\n");
    assert_eq!(log_record(""), "\n");
}

#[test]
fn retention_is_seven_days() {
    assert_eq!(RETENTION_SECONDS, 7 * 24 * 60 * 60);
    assert_eq!(RETENTION_SECONDS, 604_800);
}

#[test]
fn a_log_of_exactly_seven_days_is_kept() {
    assert!(!clean_log(LogAge::Elapsed { seconds: 604_800, nanoseconds: 0 }));
}

#[test]
fn a_log_just_over_seven_days_is_removed() {
    assert!(clean_log(LogAge::Elapsed { seconds: 604_800, nanoseconds: 1 }));
    assert!(clean_log(LogAge::Elapsed { seconds: 604_801, nanoseconds: 0 }));
}

#[test]
fn a_log_just_under_seven_days_is_kept() {
    assert!(!clean_log(LogAge::Elapsed { seconds: 604_799, nanoseconds: 999_999_999 }));
    assert!(!clean_log(LogAge::Elapsed { seconds: 604_799, nanoseconds: 0 }));
}

#[test]
fn a_fresh_log_is_kept_and_an_ancient_one_removed() {
    assert!(!clean_log(LogAge::Elapsed { seconds: 0, nanoseconds: 0 }));
    assert!(!clean_log(LogAge::Elapsed { seconds: 3_600, nanoseconds: 500 }));
    assert!(clean_log(LogAge::Elapsed { seconds: 30 * 24 * 60 * 60, nanoseconds: 0 }));
    assert!(clean_log(LogAge::Elapsed { seconds: u64::MAX, nanoseconds: u32::MAX }));
}

#[test]
fn a_log_of_unknown_age_is_kept() {
    assert!(!clean_log(LogAge::Unknown));
}

#[test]
fn a_log_written_in_the_future_is_kept() {
    assert!(!clean_log(LogAge::Ahead));
}
