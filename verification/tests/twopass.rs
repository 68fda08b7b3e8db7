//! Scenario tests for the two-pass encode state machine.

use compresscli::error::CompressError;
use compresscli::twopass::{PassState, TwoPassPipeline};

fn args(items: &[&str]) -> Vec<String> {
    items.iter().map(|s| s.to_string()).collect()
}

#[test]
fn two_pass_success_runs_both_passes_in_order() {
    let mut p = TwoPassPipeline::new(args(&["-pass", "1"]), args(&["-pass", "2"]));
    assert_eq!(p.pass1_args()[0], "-pass");
    p.begin_pass1();
    p.finish_pass1(0);
    p.begin_pass2();
    p.finish_pass2(0);
    assert!(p.outcome().is_ok());
}

#[test]
fn pass1_failure_records_its_exit_status() {
    // A pass-1 process exiting non-zero fails the job with that status;
    // the pipeline absorbs and pass 2 is never spawned.
    let mut p = TwoPassPipeline::new(args(&["a"]), args(&["b"]));
    p.begin_pass1();
    p.finish_pass1(42);
    let e = p.outcome().unwrap_err();
    assert!(matches!(e, CompressError::ProcessExited { code: 42 }));
}

#[test]
fn pass2_failure_records_its_exit_status() {
    let mut p = TwoPassPipeline::new(args(&["a"]), args(&["b"]));
    p.begin_pass1();
    p.finish_pass1(0);
    p.begin_pass2();
    p.finish_pass2(7);
    let e = p.outcome().unwrap_err();
    assert!(matches!(e, CompressError::ProcessExited { code: 7 }));
}

#[test]
fn spawn_failure_absorbs_the_pipeline() {
    let mut p = TwoPassPipeline::new(args(&["a"]), args(&["b"]));
    p.begin_pass1();
    p.fail(CompressError::SpawnFailed {
        message: "encoder not found".to_string(),
    });
    let e = p.outcome().unwrap_err();
    assert!(matches!(e, CompressError::SpawnFailed { .. }));
}

#[test]
fn pass_state_values_are_distinct() {
    assert_ne!(PassState::NotStarted, PassState::Pass1Running);
    assert_ne!(PassState::Pass1Done, PassState::Failed);
    assert_ne!(PassState::Pass2Running, PassState::Done);
}
