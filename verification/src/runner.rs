//! Running one external transformation process to completion: its status
//! lines are forwarded to the owning progress tracker, unrecognized lines
//! are ignored, a malformed recognized line fails the job, and the exit
//! status decides success. The terminal result of a job is a [`JobOutcome`].

use vstd::prelude::*;

use crate::error::CompressError;
use crate::progress::{is_marker_line, spec_line_ok, spec_marker_micros, ProgressTracker};

verus! {

/// The terminal result of one job: the input it worked on and either the
/// produced output path or the typed reason it failed. Immutable once made.
#[derive(Debug)]
pub struct JobOutcome {
    pub input: String,
    pub result: Result<String, CompressError>,
}

impl JobOutcome {
    /// Outcome of a job that produced `output` from `input`.
    pub fn success(input: &str, output: &str) -> (o: Self)
        ensures
            o.input@ == input@,
            o.result matches Ok(out) && out@ == output@,
    {
        JobOutcome { input: input.to_owned(), result: Ok(output.to_owned()) }
    }

    /// Outcome of a job that failed with `error`; the batch goes on.
    pub fn failure(input: &str, error: CompressError) -> (o: Self)
        ensures
            o.input@ == input@,
            o.result matches Err(e) && e == error,
    {
        JobOutcome { input: input.to_owned(), result: Err(error) }
    }

    /// Outcome of a job whose external process could not be started at all:
    /// an environment problem, distinct from a failure of the input.
    pub fn spawn_failure(input: &str, message: &str) -> (o: Self)
        ensures
            o.input@ == input@,
            o.result matches Err(e) && e matches CompressError::SpawnFailed { message: m }
                && m@ == message@,
    {
        JobOutcome {
            input: input.to_owned(),
            result: Err(CompressError::SpawnFailed { message: message.to_owned() }),
        }
    }
}

/// Maps an external process exit code to a job-level result: exit code 0 is
/// success, any other code is a failure that retains the code for diagnostics.
pub fn classify_exit(code: i32) -> (r: Result<(), CompressError>)
    ensures
        code == 0 <==> r is Ok,
        code != 0 ==> (r matches Err(e) && e matches CompressError::ProcessExited { code: c }
            && c == code),
{
    if code == 0 {
        Ok(())
    } else {
        Err(CompressError::ProcessExited { code })
    }
}

/// The views of a sequence of output lines.
pub open spec fn line_views(lines: Seq<String>) -> Seq<Seq<char>> {
    lines.map_values(|l: String| l@)
}

/// True when no line of the stream is a malformed progress marker.
pub open spec fn spec_all_lines_ok(lines: Seq<Seq<char>>) -> bool {
    forall|i: int| 0 <= i < lines.len() ==> spec_line_ok(#[trigger] lines[i])
}

/// What one status line does to the observed elapsed milliseconds.
pub open spec fn spec_line_step(elapsed_ms: u64, line: Seq<char>) -> u64 {
    if is_marker_line(line) && spec_line_ok(line) {
        (spec_marker_micros(line) / 1000) as u64
    } else {
        elapsed_ms
    }
}

/// The observed elapsed milliseconds after consuming a stream of lines in
/// order, starting from `elapsed_ms`.
pub open spec fn spec_elapsed_after(elapsed_ms: u64, lines: Seq<Seq<char>>) -> u64
    decreases lines.len(),
{
    if lines.len() == 0 {
        elapsed_ms
    } else {
        spec_elapsed_after(spec_line_step(elapsed_ms, lines.first()), lines.drop_first())
    }
}

/// Index of the first malformed marker line of the stream, if any.
pub open spec fn spec_first_bad(lines: Seq<Seq<char>>) -> Option<int>
    decreases lines.len(),
{
    if lines.len() == 0 {
        None
    } else if !spec_line_ok(lines.first()) {
        Some(0)
    } else {
        match spec_first_bad(lines.drop_first()) {
            Some(i) => Some(i + 1),
            None => None,
        }
    }
}

proof fn lemma_elapsed_after_push(elapsed_ms: u64, lines: Seq<Seq<char>>, line: Seq<char>)
    ensures
        spec_elapsed_after(elapsed_ms, lines.push(line)) == spec_line_step(
            spec_elapsed_after(elapsed_ms, lines),
            line,
        ),
    decreases lines.len(),
{
    if lines.len() == 0 {
        assert(lines.push(line).first() == line);
        assert(lines.push(line).drop_first() =~= Seq::<Seq<char>>::empty());
        assert(spec_elapsed_after(elapsed_ms, lines) == elapsed_ms);
        assert(spec_elapsed_after(elapsed_ms, lines.push(line)) == spec_elapsed_after(
            spec_line_step(elapsed_ms, line),
            Seq::<Seq<char>>::empty(),
        ));
        assert(spec_elapsed_after(spec_line_step(elapsed_ms, line), Seq::<Seq<char>>::empty())
            == spec_line_step(elapsed_ms, line));
    } else {
        assert(lines.push(line).first() == lines.first());
        assert(lines.push(line).drop_first() =~= lines.drop_first().push(line));
        lemma_elapsed_after_push(spec_line_step(elapsed_ms, lines.first()), lines.drop_first(), line);
        assert(spec_elapsed_after(elapsed_ms, lines.push(line)) == spec_elapsed_after(
            spec_line_step(elapsed_ms, lines.first()),
            lines.drop_first().push(line),
        ));
        assert(spec_elapsed_after(elapsed_ms, lines) == spec_elapsed_after(
            spec_line_step(elapsed_ms, lines.first()),
            lines.drop_first(),
        ));
    }
}

proof fn lemma_first_bad_at(lines: Seq<Seq<char>>, i: int)
    requires
        0 <= i < lines.len(),
        forall|j: int| 0 <= j < i ==> spec_line_ok(#[trigger] lines[j]),
        !spec_line_ok(lines[i]),
    ensures
        spec_first_bad(lines) == Some(i),
    decreases i,
{
    if i == 0 {
    } else {
        assert(forall|j: int| 0 <= j < i - 1 ==> lines.drop_first()[j] == lines[j + 1]);
        lemma_first_bad_at(lines.drop_first(), i - 1);
    }
}

/// Runs the observable part of one external process to completion: every
/// status line is handed to the tracker in order; a malformed recognized
/// line fails the job at once (lines after it are not consumed), and
/// otherwise the exit status decides: zero is success, any other code is a
/// process failure that retains the code.
pub fn monitor_process_output(
    tracker: &mut ProgressTracker,
    lines: &Vec<String>,
    exit_code: i32,
) -> (r: Result<(), CompressError>)
    ensures
        final(tracker).spec_total_ms() == old(tracker).spec_total_ms(),
        r is Ok <==> (spec_all_lines_ok(line_views(lines@)) && exit_code == 0),
        spec_all_lines_ok(line_views(lines@)) ==> final(tracker).spec_elapsed_ms()
            == spec_elapsed_after(old(tracker).spec_elapsed_ms(), line_views(lines@)),
        !spec_all_lines_ok(line_views(lines@)) ==> ({
            &&& r matches Err(e)
            &&& e is ProgressParse
            &&& spec_first_bad(line_views(lines@)) matches Some(i)
                && final(tracker).spec_elapsed_ms() == spec_elapsed_after(
                    old(tracker).spec_elapsed_ms(),
                    line_views(lines@).take(i),
                )
        }),
        spec_all_lines_ok(line_views(lines@)) && exit_code != 0 ==> ({
            &&& r matches Err(e)
            &&& e matches CompressError::ProcessExited { code } && code == exit_code
        }),
{
    let ghost views = line_views(lines@);
    let n = lines.len();
    let mut i: usize = 0;
    while i < n
        invariant
            0 <= i <= n,
            n == lines@.len(),
            views == line_views(lines@),
            forall|j: int| 0 <= j < i ==> spec_line_ok(#[trigger] views[j]),
            tracker.spec_total_ms() == old(tracker).spec_total_ms(),
            tracker.spec_elapsed_ms() == spec_elapsed_after(
                old(tracker).spec_elapsed_ms(),
                views.take(i as int),
            ),
        decreases n - i,
    {
        let line = &lines[i];
        let res = tracker.parse_line(line.as_str());
        proof {
            assert(views.take(i + 1 as int) =~= views.take(i as int).push(views[i as int]));
            lemma_elapsed_after_push(old(tracker).spec_elapsed_ms(), views.take(i as int), views[i as int]);
        }
        match res {
            Ok(()) => {},
            Err(e) => {
                proof {
                    lemma_first_bad_at(views, i as int);
                }
                return Err(e);
            },
        }
        i = i + 1;
    }
    proof {
        assert(views.take(n as int) =~= views);
    }
    classify_exit(exit_code)
}

} // verus!
