//! Bounded-concurrency job scheduling and result aggregation.
//!
//! A [`JobScheduler`] accounts for the permits of a batch: at most `limit`
//! jobs hold a permit at any moment, every admitted job holds exactly one
//! permit from admission to completion, and a batch is finished when every
//! job has reported. A [`ResultAggregator`] classifies outcomes in arrival
//! order. [`BatchRun`] ties the two together so that the count of collected
//! outcomes always equals the count of completed jobs.

use vstd::prelude::*;

use crate::error::CompressError;
use crate::runner::JobOutcome;

verus! {

/// Permit accounting for one batch of jobs.
///
/// `limit` is the concurrency bound N (at least 1), `total` the number of
/// admitted jobs M. `admitted` counts jobs that have acquired a permit so
/// far; `completed` counts jobs that have reported an outcome and released
/// their permit. Jobs currently holding a permit: `admitted - completed`.
pub struct JobScheduler {
    limit: usize,
    total: usize,
    admitted: usize,
    completed: usize,
}

impl JobScheduler {
    /// The scheduler's invariant: the concurrency bound is positive, no job
    /// completes before admission, no job is admitted beyond the batch, and
    /// the jobs holding a permit never outnumber the permits.
    pub open spec fn wf(&self) -> bool {
        &&& 1 <= self.spec_limit()
        &&& self.spec_completed() <= self.spec_admitted()
        &&& self.spec_admitted() <= self.spec_total()
        &&& self.spec_admitted() - self.spec_completed() <= self.spec_limit()
    }

    /// Number of jobs currently running, i.e. holding a permit.
    pub open spec fn running(&self) -> int {
        self.spec_admitted() - self.spec_completed()
    }

    pub closed spec fn spec_limit(&self) -> int {
        self.limit as int
    }

    pub closed spec fn spec_total(&self) -> int {
        self.total as int
    }

    pub closed spec fn spec_admitted(&self) -> int {
        self.admitted as int
    }

    pub closed spec fn spec_completed(&self) -> int {
        self.completed as int
    }

    /// Makes a scheduler for `total` jobs under concurrency bound `limit`.
    /// A zero bound is a fatal setup error: nothing is admitted.
    pub fn new(limit: usize, total: usize) -> (r: Result<JobScheduler, CompressError>)
        ensures
            limit >= 1 ==> (r matches Ok(s) && s.wf() && s.spec_limit() == limit
                && s.spec_total() == total && s.spec_admitted() == 0 && s.spec_completed() == 0),
            limit == 0 ==> (r matches Err(e)
                && e matches CompressError::InvalidParameter { parameter: p, value: v }
                && p@ == "jobs"@ && v@ == "0"@),
    {
        if limit == 0 {
            Err(CompressError::invalid_parameter("jobs", "0"))
        } else {
            Ok(JobScheduler { limit, total, admitted: 0, completed: 0 })
        }
    }

    /// True when one more job may start right now: some job is still
    /// unadmitted and a permit is free.
    pub fn can_start(&self) -> (b: bool)
        requires
            self.wf(),
        ensures
            b == (self.spec_admitted() < self.spec_total() && self.running() < self.spec_limit()),
    {
        self.admitted < self.total && self.admitted - self.completed < self.limit
    }

    /// Admits the next job: it acquires a permit and starts running.
    /// Returns the index of the job just admitted.
    pub fn start_job(&mut self) -> (i: usize)
        requires
            old(self).wf(),
            old(self).spec_admitted() < old(self).spec_total(),
            old(self).running() < old(self).spec_limit(),
        ensures
            final(self).wf(),
            i == old(self).spec_admitted(),
            final(self).spec_admitted() == old(self).spec_admitted() + 1,
            final(self).spec_completed() == old(self).spec_completed(),
            final(self).spec_limit() == old(self).spec_limit(),
            final(self).spec_total() == old(self).spec_total(),
            final(self).running() <= final(self).spec_limit(),
    {
        let i = self.admitted;
        self.admitted = self.admitted + 1;
        i
    }

    /// One running job has reported its outcome and releases its permit.
    pub fn complete(&mut self)
        requires
            old(self).wf(),
            old(self).running() > 0,
        ensures
            final(self).wf(),
            final(self).spec_completed() == old(self).spec_completed() + 1,
            final(self).spec_admitted() == old(self).spec_admitted(),
            final(self).spec_limit() == old(self).spec_limit(),
            final(self).spec_total() == old(self).spec_total(),
    {
        self.completed = self.completed + 1;
    }

    /// True when every job of the batch has reported an outcome.
    pub fn finished(&self) -> (b: bool)
        ensures
            b == (self.spec_completed() == self.spec_total()),
    {
        self.completed == self.total
    }
}

/// Law: however a batch is scheduled, the number of concurrently running
/// jobs never exceeds the concurrency bound N.
pub proof fn lemma_concurrency_bounded(s: JobScheduler)
    requires
        s.wf(),
    ensures
        s.running() <= s.spec_limit(),
{
}

/// Law: with a concurrency bound of 1 the jobs are strictly serialized; at
/// most one job is ever running, so no two execution windows overlap.
pub proof fn lemma_serialized(s: JobScheduler)
    requires
        s.wf(),
        s.spec_limit() == 1,
    ensures
        s.running() <= 1,
{
}

/// Law: when the bound is at least the job count (N >= M), a permit is free
/// whenever a job is still unadmitted, so no job ever waits for a permit and
/// all M jobs may overlap fully.
pub proof fn lemma_ample_permits(s: JobScheduler)
    requires
        s.wf(),
        s.spec_total() <= s.spec_limit(),
        s.spec_admitted() < s.spec_total(),
    ensures
        s.running() < s.spec_limit(),
{
}

/// Law: an empty batch never touches the permit pool; with no jobs to admit,
/// no permit is ever acquired.
pub proof fn lemma_empty_batch_idle(s: JobScheduler)
    requires
        s.wf(),
        s.spec_total() == 0,
    ensures
        s.spec_admitted() == 0,
        s.running() == 0,
{
}

/// Classifies job outcomes into success and failure lists as they arrive,
/// in completion order, until the expected count has been received.
pub struct ResultAggregator {
    expected: usize,
    successful: Vec<String>,
    failed: Vec<String>,
}

impl ResultAggregator {
    /// Number of outcomes received so far.
    pub open spec fn received(&self) -> int {
        self.spec_successful().len() + self.spec_failed().len() as int
    }

    pub closed spec fn spec_expected(&self) -> int {
        self.expected as int
    }

    pub closed spec fn spec_successful(&self) -> Seq<Seq<char>> {
        self.successful@.map_values(|s: String| s@)
    }

    pub closed spec fn spec_failed(&self) -> Seq<Seq<char>> {
        self.failed@.map_values(|s: String| s@)
    }

    /// The aggregator's invariant: it never records more outcomes than the
    /// batch expects.
    pub open spec fn wf(&self) -> bool {
        self.received() <= self.spec_expected()
    }

    /// Makes an empty aggregator for a batch of `expected` jobs.
    pub fn new(expected: usize) -> (a: Self)
        ensures
            a.wf(),
            a.spec_expected() == expected,
            a.received() == 0,
            a.spec_successful() =~= Seq::<Seq<char>>::empty(),
            a.spec_failed() =~= Seq::<Seq<char>>::empty(),
    {
        ResultAggregator { expected, successful: Vec::new(), failed: Vec::new() }
    }

    /// Records one outcome: the output path of a successful job goes to the
    /// success list, the input path of a failed job to the failure list.
    pub fn record(&mut self, outcome: JobOutcome)
        requires
            old(self).wf(),
            old(self).received() < old(self).spec_expected(),
        ensures
            final(self).wf(),
            final(self).spec_expected() == old(self).spec_expected(),
            final(self).received() == old(self).received() + 1,
            outcome.result matches Ok(out) ==> {
                &&& final(self).spec_successful() =~= old(self).spec_successful().push(out@)
                &&& final(self).spec_failed() =~= old(self).spec_failed()
            },
            outcome.result is Err ==> {
                &&& final(self).spec_successful() =~= old(self).spec_successful()
                &&& final(self).spec_failed() =~= old(self).spec_failed().push(outcome.input@)
            },
    {
        match outcome.result {
            Ok(output) => self.successful.push(output),
            Err(_) => self.failed.push(outcome.input),
        }
    }

    /// True once every expected outcome has been received.
    pub fn is_complete(&self) -> (b: bool)
        requires
            self.wf(),
        ensures
            b == (self.received() == self.spec_expected()),
    {
        self.successful.len() + self.failed.len() == self.expected
    }
}

/// Law: outcome conservation. Every received outcome lands in exactly one of
/// the two lists, so their sizes always add up to the received count.
pub proof fn lemma_outcome_conservation(a: ResultAggregator)
    ensures
        a.spec_successful().len() + a.spec_failed().len() == a.received(),
{
}

/// The success and failure lists of one finished category run.
#[derive(Debug)]
pub struct ProcessingResults {
    pub successful: Vec<String>,
    pub failed: Vec<String>,
}

/// One batch run over a single category of files: permit accounting plus
/// outcome aggregation, kept in lock step.
pub struct BatchRun {
    scheduler: JobScheduler,
    results: ResultAggregator,
}

impl BatchRun {
    /// The run's invariant: both halves are well formed, they speak of the
    /// same batch, and exactly the completed jobs have been recorded.
    pub open spec fn wf(&self) -> bool {
        &&& self.sched().wf()
        &&& self.agg().wf()
        &&& self.agg().spec_expected() == self.sched().spec_total()
        &&& self.agg().received() == self.sched().spec_completed()
    }

    pub closed spec fn sched(&self) -> JobScheduler {
        self.scheduler
    }

    pub closed spec fn agg(&self) -> ResultAggregator {
        self.results
    }

    /// Starts a run of `total` jobs under concurrency bound `limit`.
    /// A zero bound is a fatal setup error, reported before any admission.
    pub fn new(limit: usize, total: usize) -> (r: Result<BatchRun, CompressError>)
        ensures
            limit >= 1 ==> (r matches Ok(b) && b.wf()
                && b.sched().spec_limit() == limit
                && b.sched().spec_total() == total
                && b.sched().spec_admitted() == 0
                && b.sched().spec_completed() == 0),
            limit == 0 ==> r is Err,
    {
        let scheduler = JobScheduler::new(limit, total)?;
        Ok(BatchRun { scheduler, results: ResultAggregator::new(total) })
    }

    /// True when one more job may start right now.
    pub fn can_start(&self) -> (b: bool)
        requires
            self.wf(),
        ensures
            b == (self.sched().spec_admitted() < self.sched().spec_total()
                && self.sched().running() < self.sched().spec_limit()),
    {
        self.scheduler.can_start()
    }

    /// Admits the next job under a free permit; returns its index.
    pub fn start_job(&mut self) -> (i: usize)
        requires
            old(self).wf(),
            old(self).sched().spec_admitted() < old(self).sched().spec_total(),
            old(self).sched().running() < old(self).sched().spec_limit(),
        ensures
            final(self).wf(),
            i == old(self).sched().spec_admitted(),
            final(self).sched().spec_admitted() == old(self).sched().spec_admitted() + 1,
            final(self).sched().spec_completed() == old(self).sched().spec_completed(),
            final(self).sched().spec_limit() == old(self).sched().spec_limit(),
            final(self).sched().spec_total() == old(self).sched().spec_total(),
            final(self).sched().running() <= final(self).sched().spec_limit(),
            final(self).agg() == old(self).agg(),
    {
        self.scheduler.start_job()
    }

    /// One running job reports its outcome: its permit is released and the
    /// outcome is classified, whatever order completions arrive in.
    pub fn record_outcome(&mut self, outcome: JobOutcome)
        requires
            old(self).wf(),
            old(self).sched().running() > 0,
        ensures
            final(self).wf(),
            final(self).sched().spec_completed() == old(self).sched().spec_completed() + 1,
            final(self).sched().spec_admitted() == old(self).sched().spec_admitted(),
            final(self).sched().spec_limit() == old(self).sched().spec_limit(),
            final(self).sched().spec_total() == old(self).sched().spec_total(),
            outcome.result matches Ok(out) ==> {
                &&& final(self).agg().spec_successful() =~= old(self).agg().spec_successful().push(out@)
                &&& final(self).agg().spec_failed() =~= old(self).agg().spec_failed()
            },
            outcome.result is Err ==> {
                &&& final(self).agg().spec_successful() =~= old(self).agg().spec_successful()
                &&& final(self).agg().spec_failed() =~= old(self).agg().spec_failed().push(outcome.input@)
            },
    {
        self.scheduler.complete();
        self.results.record(outcome);
    }

    /// True when every job of the run has reported.
    pub fn finished(&self) -> (b: bool)
        ensures
            b == (self.sched().spec_completed() == self.sched().spec_total()),
    {
        self.scheduler.finished()
    }

    /// Hands out the collected lists once all jobs have reported. Success
    /// and failure counts always add up to the number of jobs: no outcome is
    /// lost and none is counted twice.
    pub fn finalize(self) -> (r: ProcessingResults)
        requires
            self.wf(),
            self.sched().spec_completed() == self.sched().spec_total(),
        ensures
            r.successful@.map_values(|s: String| s@) =~= self.agg().spec_successful(),
            r.failed@.map_values(|s: String| s@) =~= self.agg().spec_failed(),
            r.successful@.len() + r.failed@.len() == self.sched().spec_total(),
    {
        ProcessingResults { successful: self.results.successful, failed: self.results.failed }
    }
}

} // verus!
