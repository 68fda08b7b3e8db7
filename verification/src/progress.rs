//! Progress tracking for one external encode: a stateful parser bound to an
//! optional total duration, fed the encoder's machine-readable status lines.
//!
//! The only line meaningful here has the form `out_time_ms=<integer>`, an
//! elapsed-time measurement in microseconds since encode start. All other
//! lines are protocol-compatible noise and are ignored without error; a
//! recognized marker with a non-numeric value is a hard parse error that
//! fails the owning job, not the batch.

use vstd::prelude::*;

use crate::error::CompressError;
use crate::text::{is_prefix_of, parse_u64, spec_parse_u64, starts_with};

verus! {

/// The recognized progress marker prefix.
pub open spec fn marker_prefix() -> Seq<char> {
    "out_time_ms="@
}

/// True when a status line is a recognized progress marker.
pub open spec fn is_marker_line(line: Seq<char>) -> bool {
    is_prefix_of(marker_prefix(), line)
}

/// The value part of a recognized marker line.
pub open spec fn marker_value(line: Seq<char>) -> Seq<char> {
    line.skip(marker_prefix().len() as int)
}

/// True for the whitespace that may surround a marker value.
pub open spec fn is_ws(c: char) -> bool {
    c == ' ' || c == '\t' || c == '\r' || c == '\n'
}

/// A string with leading whitespace removed.
pub open spec fn trim_front(s: Seq<char>) -> Seq<char>
    decreases s.len(),
{
    if s.len() > 0 && is_ws(s.first()) {
        trim_front(s.drop_first())
    } else {
        s
    }
}

/// A string with trailing whitespace removed.
pub open spec fn trim_back(s: Seq<char>) -> Seq<char>
    decreases s.len(),
{
    if s.len() > 0 && is_ws(s.last()) {
        trim_back(s.drop_last())
    } else {
        s
    }
}

/// A string with surrounding whitespace removed.
pub open spec fn spec_trim(s: Seq<char>) -> Seq<char> {
    trim_back(trim_front(s))
}

/// True when a status line does not fail the job: either it is not a
/// recognized marker at all, or its value parses as an unsigned integer.
pub open spec fn spec_line_ok(line: Seq<char>) -> bool {
    !is_marker_line(line) || spec_parse_u64(spec_trim(marker_value(line))) is Some
}

/// The elapsed microseconds a recognized, well-formed marker line reports.
pub open spec fn spec_marker_micros(line: Seq<char>) -> u64
    recommends
        is_marker_line(line),
        spec_line_ok(line),
{
    spec_parse_u64(spec_trim(marker_value(line))) ->Some_0
}

/// Completion percentage, clamped to 100 to tolerate minor measurement
/// overshoot from the external tool.
pub open spec fn spec_percent(total_ms: u64, elapsed_ms: u64) -> int
    recommends
        total_ms > 0,
{
    let raw = (elapsed_ms as int) * 100 / (total_ms as int);
    if raw >= 100 {
        100
    } else {
        raw
    }
}

proof fn lemma_trim_front_skip(s: Seq<char>, i: int)
    requires
        0 <= i <= s.len(),
        forall|j: int| 0 <= j < i ==> is_ws(#[trigger] s[j]),
        i < s.len() ==> !is_ws(s[i]),
    ensures
        trim_front(s) == s.skip(i),
    decreases i,
{
    if i == 0 {
        assert(s.skip(0) =~= s);
    } else {
        assert(is_ws(s.first()));
        lemma_trim_front_skip(s.drop_first(), i - 1);
        assert(s.drop_first().skip(i - 1) =~= s.skip(i));
    }
}

proof fn lemma_trim_back_take(s: Seq<char>, i: int)
    requires
        0 <= i <= s.len(),
        forall|j: int| i <= j < s.len() ==> is_ws(#[trigger] s[j]),
        i > 0 ==> !is_ws(s[i - 1]),
    ensures
        trim_back(s) == s.take(i),
    decreases s.len() - i,
{
    if i == s.len() {
        if s.len() > 0 && is_ws(s.last()) {
            assert(false);
        }
        assert(s.take(i) =~= s);
    } else {
        assert(is_ws(s.last()));
        lemma_trim_back_take(s.drop_last(), i);
        assert(s.drop_last().take(i) =~= s.take(i));
    }
}

/// Whitespace test for one character.
fn is_ws_char(c: char) -> (r: bool)
    ensures
        r == is_ws(c),
{
    c == ' ' || c == '\t' || c == '\r' || c == '\n'
}

/// Removes surrounding whitespace, exactly as `spec_trim` describes.
pub fn trim_str<'a>(s: &'a str) -> (r: &'a str)
    ensures
        r@ == spec_trim(s@),
{
    let n = s.unicode_len();
    let mut a: usize = 0;
    loop
        invariant
            0 <= a <= n,
            n == s@.len(),
            forall|j: int| 0 <= j < a ==> is_ws(#[trigger] s@[j]),
        ensures
            0 <= a <= n,
            forall|j: int| 0 <= j < a ==> is_ws(#[trigger] s@[j]),
            a < n ==> !is_ws(s@[a as int]),
        decreases n - a,
    {
        if a < n && is_ws_char(s.get_char(a)) {
            a = a + 1;
        } else {
            break;
        }
    }
    let mut b: usize = n;
    loop
        invariant
            a <= b <= n,
            n == s@.len(),
            forall|j: int| b <= j < n ==> is_ws(#[trigger] s@[j]),
        ensures
            a <= b <= n,
            forall|j: int| b <= j < n ==> is_ws(#[trigger] s@[j]),
            b > a ==> !is_ws(s@[b - 1]),
        decreases b,
    {
        if b > a && is_ws_char(s.get_char(b - 1)) {
            b = b - 1;
        } else {
            break;
        }
    }
    let t = s.substring_char(a, b);
    proof {
        lemma_trim_front_skip(s@, a as int);
        let rest = s@.skip(a as int);
        assert(forall|j: int| b - a <= j < rest.len() ==> is_ws(#[trigger] rest[j]));
        if b > a {
            assert(!is_ws(rest[b - a - 1]));
        }
        lemma_trim_back_take(rest, b - a);
        assert(rest.take(b - a) =~= s@.subrange(a as int, b as int));
    }
    t
}

/// The progress state of one running job: the total duration estimate in
/// milliseconds (absent degrades to an indeterminate state) and the last
/// observed elapsed time. Mutated only by the owning tracker.
pub struct ProgressTracker {
    total_ms: Option<u64>,
    elapsed_ms: u64,
}

impl ProgressTracker {
    pub closed spec fn spec_total_ms(&self) -> Option<u64> {
        self.total_ms
    }

    pub closed spec fn spec_elapsed_ms(&self) -> u64 {
        self.elapsed_ms
    }

    /// The tracker's invariant: a known total duration is positive.
    pub open spec fn wf(&self) -> bool {
        self.spec_total_ms() matches Some(t) ==> t > 0
    }

    /// Makes a tracker for a job whose total duration, when known, is
    /// `total_ms` milliseconds. An absent or zero duration degrades the job
    /// to indeterminate-progress mode instead of failing it.
    pub fn new(total_ms: Option<u64>) -> (t: Self)
        ensures
            t.wf(),
            t.spec_elapsed_ms() == 0,
            total_ms matches Some(d) ==> t.spec_total_ms() == (if d > 0 {
                Some(d)
            } else {
                None::<u64>
            }),
            total_ms is None ==> t.spec_total_ms() is None,
    {
        let total = match total_ms {
            Some(d) => if d > 0 {
                Some(d)
            } else {
                None
            },
            None => None,
        };
        ProgressTracker { total_ms: total, elapsed_ms: 0 }
    }

    /// Consumes one status line of the external encoder. A recognized
    /// marker updates the observed elapsed time (the value is microseconds;
    /// it is kept in milliseconds); an unrecognized line is ignored; a
    /// recognized marker with a non-numeric value is a parse error, and the
    /// tracker is left unchanged.
    pub fn parse_line(&mut self, line: &str) -> (r: Result<(), CompressError>)
        ensures
            final(self).spec_total_ms() == old(self).spec_total_ms(),
            r is Ok <==> spec_line_ok(line@),
            !is_marker_line(line@) ==> final(self).spec_elapsed_ms() == old(self).spec_elapsed_ms(),
            is_marker_line(line@) && spec_line_ok(line@) ==> final(self).spec_elapsed_ms()
                == spec_marker_micros(line@) / 1000,
            r matches Err(e) ==> e is ProgressParse
                && final(self).spec_elapsed_ms() == old(self).spec_elapsed_ms(),
    {
        let marker = "out_time_ms=";
        if starts_with(line, marker) {
            let mlen = marker.unicode_len();
            let n = line.unicode_len();
            let value = line.substring_char(mlen, n);
            proof {
                assert(value@ =~= marker_value(line@));
            }
            let trimmed = trim_str(value);
            match parse_u64(trimmed) {
                Some(micros) => {
                    self.elapsed_ms = micros / 1000;
                    Ok(())
                },
                None => {
                    Err(
                        CompressError::ProgressParse {
                            message: "invalid time value in progress output".to_owned(),
                        },
                    )
                },
            }
        } else {
            Ok(())
        }
    }

    /// The derived completion percentage: `min(100, elapsed/total*100)` when
    /// the total duration is known, indeterminate otherwise.
    pub fn percent(&self) -> (p: Option<u8>)
        requires
            self.wf(),
        ensures
            self.spec_total_ms() is None ==> p is None,
            self.spec_total_ms() matches Some(t) ==> (p matches Some(v) && v == spec_percent(
                t,
                self.spec_elapsed_ms(),
            )),
    {
        match self.total_ms {
            None => None,
            Some(t) => {
                if self.elapsed_ms >= t {
                    proof {
                        lemma_ratio_at_least_100(self.elapsed_ms, t);
                    }
                    Some(100)
                } else {
                    let v: u128 = (self.elapsed_ms as u128) * 100 / (t as u128);
                    proof {
                        lemma_ratio_below_100(self.elapsed_ms, t);
                        assert(v < 256 ==> v as u8 == v) by (bit_vector);
                    }
                    Some(v as u8)
                }
            },
        }
    }
}

proof fn lemma_ratio_at_least_100(e: u64, t: u64)
    requires
        t >= 1,
        e >= t,
    ensures
        (e as int) * 100 / (t as int) >= 100,
{
    assert((e as int) * 100 / (t as int) >= 100) by (nonlinear_arith)
        requires
            t >= 1,
            e >= t,
    ;
}

proof fn lemma_ratio_below_100(e: u64, t: u64)
    requires
        t >= 1,
        e < t,
    ensures
        0 <= (e as int) * 100 / (t as int) < 100,
{
    assert(0 <= (e as int) * 100 / (t as int) < 100) by (nonlinear_arith)
        requires
            t >= 1,
            e < t,
    ;
}

} // verus!
