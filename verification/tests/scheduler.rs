//! Scenario tests for the bounded-concurrency scheduler and the result
//! aggregation of one batch run.

use compresscli::error::CompressError;
use compresscli::runner::JobOutcome;
use compresscli::scheduler::{BatchRun, JobScheduler, ResultAggregator};

#[test]
fn scheduler_never_exceeds_limit() {
    // N = 2, M = 5: starts are only possible while fewer than two jobs run.
    let mut s = JobScheduler::new(2, 5).unwrap();
    assert!(s.can_start());
    let first = s.start_job();
    assert_eq!(first, 0);
    assert!(s.can_start());
    s.start_job();
    // Both permits are taken: a third job cannot start.
    assert!(!s.can_start());
    s.complete();
    // A permit came back; admission is possible again.
    assert!(s.can_start());
    s.start_job();
    assert!(!s.can_start());
}

#[test]
fn scheduler_zero_limit_is_setup_error() {
    let r = JobScheduler::new(0, 3);
    assert!(matches!(
        r,
        Err(CompressError::InvalidParameter { .. })
    ));
}

#[test]
fn scheduler_serializes_with_limit_one() {
    // N = 1, M = 3: after each start the next start waits for completion.
    let mut s = JobScheduler::new(1, 3).unwrap();
    for _ in 0..3 {
        assert!(s.can_start());
        s.start_job();
        assert!(!s.can_start());
        s.complete();
    }
    assert!(s.finished());
}

#[test]
fn scheduler_full_overlap_with_ample_permits() {
    // N = 3, M = 3: no start ever waits.
    let mut s = JobScheduler::new(3, 3).unwrap();
    for _ in 0..3 {
        assert!(s.can_start());
        s.start_job();
    }
    assert!(!s.can_start());
    for _ in 0..3 {
        s.complete();
    }
    assert!(s.finished());
}

#[test]
fn aggregator_conserves_outcomes() {
    // M = 4 with K = 2 failing: succeeded + failed == M.
    let mut a = ResultAggregator::new(4);
    a.record(JobOutcome::success("a.mp4", "a_out.mp4"));
    a.record(JobOutcome::failure(
        "b.mp4",
        CompressError::ProcessExited { code: 1 },
    ));
    a.record(JobOutcome::success("c.mp4", "c_out.mp4"));
    a.record(JobOutcome::spawn_failure("d.mp4", "no such program"));
    assert!(a.is_complete());
}

#[test]
fn batch_run_counts_add_up() {
    // M = 3 jobs under N = 2, one failing: the final lists always sum to M.
    let mut run = BatchRun::new(2, 3).unwrap();
    assert!(run.can_start());
    run.start_job();
    run.start_job();
    run.record_outcome(JobOutcome::success("a.mp4", "a_out.mp4"));
    run.start_job();
    run.record_outcome(JobOutcome::failure(
        "b.mp4",
        CompressError::ProcessExited { code: 2 },
    ));
    run.record_outcome(JobOutcome::success("c.mp4", "c_out.mp4"));
    assert!(run.finished());
    let results = run.finalize();
    assert_eq!(results.successful.len(), 2);
    assert_eq!(results.failed.len(), 1);
    assert_eq!(results.successful.len() + results.failed.len(), 3);
    assert_eq!(results.failed[0], "b.mp4");
}

#[test]
fn batch_run_completion_order_is_kept() {
    let mut run = BatchRun::new(3, 2).unwrap();
    run.start_job();
    run.start_job();
    // Outcomes arrive in completion order, not submission order.
    run.record_outcome(JobOutcome::success("second.mp4", "second_out.mp4"));
    run.record_outcome(JobOutcome::success("first.mp4", "first_out.mp4"));
    let results = run.finalize();
    assert_eq!(results.successful, vec!["second_out.mp4", "first_out.mp4"]);
}

#[test]
fn empty_batch_returns_immediately() {
    // M = 0: finished at once, no permit ever acquired, empty result.
    let run = BatchRun::new(4, 0).unwrap();
    assert!(run.finished());
    assert!(!run.can_start());
    let results = run.finalize();
    assert_eq!(results.successful.len(), 0);
    assert_eq!(results.failed.len(), 0);
}
