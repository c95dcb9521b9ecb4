use zed::{log_time_offset, should_rotate_log, stdout_is_a_pty, MAX_LOG_BYTES};

#[test]
fn log_limit_is_one_mebibyte() {
    assert_eq!(MAX_LOG_BYTES, 1_048_576);
}

#[test]
fn log_rotates_only_above_limit() {
    assert!(!should_rotate_log(Some(1_048_576)));
    assert!(should_rotate_log(Some(1_048_577)));
    assert!(!should_rotate_log(Some(0)));
    assert!(!should_rotate_log(None));
}

#[test]
fn pty_needs_terminal_and_no_forced_cli_mode() {
    assert!(stdout_is_a_pty(false, true));
    assert!(!stdout_is_a_pty(true, true));
    assert!(!stdout_is_a_pty(false, false));
}

#[test]
fn log_offset_in_range_is_kept() {
    assert_eq!(log_time_offset(3600).unwrap().whole_seconds(), 3600);
    assert_eq!(log_time_offset(-19800).unwrap().whole_seconds(), -19800);
    assert_eq!(log_time_offset(0).unwrap().whole_seconds(), 0);
}

#[test]
fn log_offset_edges() {
    assert_eq!(log_time_offset(93599).unwrap().whole_seconds(), 93599);
    assert_eq!(log_time_offset(-93599).unwrap().whole_seconds(), -93599);
    assert!(log_time_offset(93600).is_none());
    assert!(log_time_offset(-93600).is_none());
    assert!(log_time_offset(i32::MIN).is_none());
}
