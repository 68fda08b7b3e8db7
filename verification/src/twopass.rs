//! The two-pass encode state machine: pass 1 analyzes and discards its
//! output, pass 2 produces the real output, strictly in that order and
//! under the same single concurrency permit. A failing pass moves the
//! pipeline into the absorbing `Failed` state; pass 2 can only ever start
//! from `Pass1Done`, so a failed pass 1 makes a pass-2 spawn impossible.

use vstd::prelude::*;

use crate::error::CompressError;

verus! {

/// Where a two-pass job stands.
#[derive(Debug, Clone, Copy, PartialEq, Eq, Structural)]
pub enum PassState {
    NotStarted,
    Pass1Running,
    Pass1Done,
    Pass2Running,
    Done,
    Failed,
}

/// What finishing pass 1 with an exit code does to the state.
pub open spec fn spec_finish_pass1(code: i32) -> PassState {
    if code == 0 {
        PassState::Pass1Done
    } else {
        PassState::Failed
    }
}

/// What finishing pass 2 with an exit code does to the state.
pub open spec fn spec_finish_pass2(code: i32) -> PassState {
    if code == 0 {
        PassState::Done
    } else {
        PassState::Failed
    }
}

/// True in the states from which pass 2 may be started.
pub open spec fn spec_can_begin_pass2(s: PassState) -> bool {
    s == PassState::Pass1Done
}

/// One two-pass job: the argument vectors of both passes and the state of
/// their strictly sequential execution.
pub struct TwoPassPipeline {
    state: PassState,
    pass1_args: Vec<String>,
    pass2_args: Vec<String>,
    failure: Option<CompressError>,
}

impl TwoPassPipeline {
    pub closed spec fn state(&self) -> PassState {
        self.state
    }

    pub closed spec fn spec_pass1_args(&self) -> Seq<Seq<char>> {
        self.pass1_args@.map_values(|a: String| a@)
    }

    pub closed spec fn spec_pass2_args(&self) -> Seq<Seq<char>> {
        self.pass2_args@.map_values(|a: String| a@)
    }

    pub closed spec fn spec_failure(&self) -> Option<CompressError> {
        self.failure
    }

    /// The pipeline's invariant: a failure reason is recorded exactly in
    /// the `Failed` state.
    pub open spec fn wf(&self) -> bool {
        self.spec_failure() is Some <==> self.state() == PassState::Failed
    }

    /// Plans a two-pass job from the argument vectors of its two passes;
    /// nothing has run yet.
    pub fn new(pass1_args: Vec<String>, pass2_args: Vec<String>) -> (p: Self)
        ensures
            p.wf(),
            p.state() == PassState::NotStarted,
            p.spec_pass1_args() =~= pass1_args@.map_values(|a: String| a@),
            p.spec_pass2_args() =~= pass2_args@.map_values(|a: String| a@),
    {
        TwoPassPipeline { state: PassState::NotStarted, pass1_args, pass2_args, failure: None }
    }

    /// The analysis pass's argument vector.
    pub fn pass1_args(&self) -> (r: &Vec<String>)
        ensures
            r@.map_values(|a: String| a@) == self.spec_pass1_args(),
    {
        &self.pass1_args
    }

    /// The encoding pass's argument vector.
    pub fn pass2_args(&self) -> (r: &Vec<String>)
        ensures
            r@.map_values(|a: String| a@) == self.spec_pass2_args(),
    {
        &self.pass2_args
    }

    /// Pass 1 starts: its process has been spawned.
    pub fn begin_pass1(&mut self)
        requires
            old(self).wf(),
            old(self).state() == PassState::NotStarted,
        ensures
            final(self).wf(),
            final(self).state() == PassState::Pass1Running,
            final(self).spec_pass1_args() == old(self).spec_pass1_args(),
            final(self).spec_pass2_args() == old(self).spec_pass2_args(),
    {
        self.state = PassState::Pass1Running;
    }

    /// Pass 1 exited: a zero status makes pass 2 possible, any other
    /// status fails the job with that status retained, and pass 2 can
    /// never be attempted.
    pub fn finish_pass1(&mut self, exit_code: i32)
        requires
            old(self).wf(),
            old(self).state() == PassState::Pass1Running,
        ensures
            final(self).wf(),
            final(self).state() == spec_finish_pass1(exit_code),
            exit_code != 0 ==> final(self).spec_failure() == Some(
                CompressError::ProcessExited { code: exit_code },
            ),
            final(self).spec_pass1_args() == old(self).spec_pass1_args(),
            final(self).spec_pass2_args() == old(self).spec_pass2_args(),
    {
        if exit_code == 0 {
            self.state = PassState::Pass1Done;
        } else {
            self.state = PassState::Failed;
            self.failure = Some(CompressError::ProcessExited { code: exit_code });
        }
    }

    /// A running pass failed outside the process exit protocol (it could
    /// not be spawned, or its progress stream was malformed): the job
    /// fails with that reason and the pipeline absorbs.
    pub fn fail(&mut self, error: CompressError)
        requires
            old(self).wf(),
            old(self).state() == PassState::Pass1Running || old(self).state()
                == PassState::Pass2Running,
        ensures
            final(self).wf(),
            final(self).state() == PassState::Failed,
            final(self).spec_failure() == Some(error),
            final(self).spec_pass1_args() == old(self).spec_pass1_args(),
            final(self).spec_pass2_args() == old(self).spec_pass2_args(),
    {
        self.state = PassState::Failed;
        self.failure = Some(error);
    }

    /// Pass 2 starts. This demands `Pass1Done`: a pipeline whose pass 1
    /// did not succeed can never reach this transition.
    pub fn begin_pass2(&mut self)
        requires
            old(self).wf(),
            spec_can_begin_pass2(old(self).state()),
        ensures
            final(self).wf(),
            final(self).state() == PassState::Pass2Running,
            final(self).spec_pass1_args() == old(self).spec_pass1_args(),
            final(self).spec_pass2_args() == old(self).spec_pass2_args(),
    {
        self.state = PassState::Pass2Running;
    }

    /// Pass 2 exited: a zero status completes the job, any other status
    /// fails it with that status retained.
    pub fn finish_pass2(&mut self, exit_code: i32)
        requires
            old(self).wf(),
            old(self).state() == PassState::Pass2Running,
        ensures
            final(self).wf(),
            final(self).state() == spec_finish_pass2(exit_code),
            exit_code != 0 ==> final(self).spec_failure() == Some(
                CompressError::ProcessExited { code: exit_code },
            ),
            final(self).spec_pass1_args() == old(self).spec_pass1_args(),
            final(self).spec_pass2_args() == old(self).spec_pass2_args(),
    {
        if exit_code == 0 {
            self.state = PassState::Done;
        } else {
            self.state = PassState::Failed;
            self.failure = Some(CompressError::ProcessExited { code: exit_code });
        }
    }

    /// The job's result once the pipeline is terminal: success after
    /// `Done`, the recorded reason after `Failed`.
    pub fn outcome(self) -> (r: Result<(), CompressError>)
        requires
            self.wf(),
            self.state() == PassState::Done || self.state() == PassState::Failed,
        ensures
            self.state() == PassState::Done ==> r is Ok,
            self.state() == PassState::Failed ==> r == Result::<(), CompressError>::Err(
                self.spec_failure()->Some_0,
            ),
    {
        match self.failure {
            None => Ok(()),
            Some(e) => Err(e),
        }
    }
}

/// Law: a pass-1 process that exits with a non-zero status moves the
/// pipeline to `Failed` with that status recorded, and `Failed` never
/// satisfies the guard under which pass 2 may start, so a pass-2 process
/// is never spawned for such a job.
pub proof fn lemma_pass1_failure_blocks_pass2(exit_code: i32)
    requires
        exit_code != 0,
    ensures
        spec_finish_pass1(exit_code) == PassState::Failed,
        !spec_can_begin_pass2(spec_finish_pass1(exit_code)),
{
}

} // verus!
