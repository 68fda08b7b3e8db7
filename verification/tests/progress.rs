//! Tests of the progress protocol: marker parsing, percentage derivation,
//! and the run-to-completion monitoring of one process's output.

use compresscli::error::CompressError;
use compresscli::parser::{duration_from_probe, parse_seconds_ms};
use compresscli::progress::ProgressTracker;
use compresscli::runner::{classify_exit, monitor_process_output, JobOutcome};

#[test]
fn test_progress_parser() {
    let mut parser = ProgressTracker::new(Some(100_000));

    // A valid elapsed-time marker: 50 seconds in microseconds.
    assert!(parser.parse_line("out_time_ms=50000000").is_ok());

    // A recognized marker with a non-numeric value is a hard parse error.
    assert!(parser.parse_line("out_time_ms=invalid").is_err());

    // A non-marker line is protocol noise and is ignored.
    assert!(parser.parse_line("frame=100").is_ok());
}

#[test]
fn halfway_marker_reports_fifty_percent() {
    // Total duration 100 seconds; out_time_ms=50000000 microseconds = 50 s.
    let mut tracker = ProgressTracker::new(Some(100_000));
    tracker.parse_line("out_time_ms=50000000").unwrap();
    assert_eq!(tracker.percent(), Some(50));
}

#[test]
fn percent_is_clamped_to_one_hundred() {
    // Measurement overshoot beyond the total is clamped.
    let mut tracker = ProgressTracker::new(Some(10_000));
    tracker.parse_line("out_time_ms=999000000").unwrap();
    assert_eq!(tracker.percent(), Some(100));
}

#[test]
fn unknown_duration_is_indeterminate() {
    let mut tracker = ProgressTracker::new(None);
    tracker.parse_line("out_time_ms=50000000").unwrap();
    assert_eq!(tracker.percent(), None);
}

#[test]
fn malformed_marker_fails_with_parse_error() {
    let mut tracker = ProgressTracker::new(Some(100_000));
    let e = tracker.parse_line("out_time_ms=notanumber").unwrap_err();
    assert!(matches!(e, CompressError::ProgressParse { .. }));
}

#[test]
fn monitor_runs_to_successful_exit() {
    let mut tracker = ProgressTracker::new(Some(100_000));
    let lines = vec![
        "frame=1".to_string(),
        "out_time_ms=25000000".to_string(),
        "speed=1.0x".to_string(),
        "out_time_ms=75000000".to_string(),
    ];
    assert!(monitor_process_output(&mut tracker, &lines, 0).is_ok());
    assert_eq!(tracker.percent(), Some(75));
}

#[test]
fn monitor_fails_on_nonzero_exit() {
    let mut tracker = ProgressTracker::new(None);
    let lines = vec!["frame=1".to_string()];
    let e = monitor_process_output(&mut tracker, &lines, 3).unwrap_err();
    assert!(matches!(e, CompressError::ProcessExited { code: 3 }));
}

#[test]
fn monitor_fails_on_malformed_marker() {
    let mut tracker = ProgressTracker::new(Some(100_000));
    let lines = vec![
        "out_time_ms=1000000".to_string(),
        "out_time_ms=bogus".to_string(),
        "out_time_ms=99000000".to_string(),
    ];
    let e = monitor_process_output(&mut tracker, &lines, 0).unwrap_err();
    assert!(matches!(e, CompressError::ProgressParse { .. }));
    // The line after the malformed one was never consumed.
    assert_eq!(tracker.percent(), Some(1));
}

#[test]
fn exit_codes_classify_by_zero() {
    assert!(classify_exit(0).is_ok());
    assert!(matches!(
        classify_exit(137),
        Err(CompressError::ProcessExited { code: 137 })
    ));
}

#[test]
fn outcome_constructors_keep_their_fields() {
    let ok = JobOutcome::success("in.mp4", "out.mp4");
    assert_eq!(ok.input, "in.mp4");
    assert_eq!(ok.result.unwrap(), "out.mp4");

    let spawn = JobOutcome::spawn_failure("in.mp4", "missing encoder");
    assert!(matches!(
        spawn.result,
        Err(CompressError::SpawnFailed { .. })
    ));
}

#[test]
fn probe_durations_parse_to_milliseconds() {
    assert_eq!(parse_seconds_ms("100"), Some(100_000));
    assert_eq!(parse_seconds_ms("123.456000"), Some(123_456));
    assert_eq!(parse_seconds_ms("0.5"), Some(500));
    assert_eq!(parse_seconds_ms("1.25"), Some(1_250));
    assert_eq!(parse_seconds_ms("N/A"), None);

    assert_eq!(duration_from_probe(true, " 42.0 \n").unwrap(), Some(42_000));
    assert_eq!(duration_from_probe(false, "whatever").unwrap(), None);
    assert!(duration_from_probe(true, "garbage").is_err());
}
