//! Parsers for user-facing value formats: resolutions such as `1920x1080`
//! or `720p`, trim times such as `90`, `1:30` or `01:01:30`, and the
//! decimal seconds a duration probe prints.

use vstd::prelude::*;

use crate::error::CompressError;
use crate::progress::{spec_trim, trim_str};
use crate::text::{
    all_digits, digit_char, digit_val, digits_val, is_digit, lemma_dec_round_trip, parse_u64,
    push_char, seq_contains_char, spec_dec, spec_digit_char, spec_parse_u64, u64_to_dec,
};

verus! {

/// Index of the first occurrence of `c` in `s`, or -1 when absent.
pub open spec fn first_index_of(s: Seq<char>, c: char) -> int
    decreases s.len(),
{
    if s.len() == 0 {
        -1
    } else if s.first() == c {
        0
    } else {
        let r = first_index_of(s.drop_first(), c);
        if r < 0 {
            -1
        } else {
            r + 1
        }
    }
}

proof fn lemma_first_index_at(s: Seq<char>, c: char, i: int)
    requires
        0 <= i < s.len(),
        s[i] == c,
        forall|j: int| 0 <= j < i ==> s[j] != c,
    ensures
        first_index_of(s, c) == i,
    decreases i,
{
    if i > 0 {
        assert(forall|j: int| 0 <= j < i - 1 ==> s.drop_first()[j] == s[j + 1]);
        lemma_first_index_at(s.drop_first(), c, i - 1);
    }
}

proof fn lemma_first_index_none(s: Seq<char>, c: char)
    requires
        !seq_contains_char(s, c),
    ensures
        first_index_of(s, c) == -1,
    decreases s.len(),
{
    if s.len() > 0 {
        assert(s.first() != c);
        assert(forall|j: int| 0 <= j < s.len() - 1 ==> s.drop_first()[j] == s[j + 1]);
        assert(!seq_contains_char(s.drop_first(), c));
        lemma_first_index_none(s.drop_first(), c);
    }
}

/// Finds the first occurrence of a character, as `first_index_of` describes.
fn find_char(s: &str, c: char) -> (r: Option<usize>)
    ensures
        r matches Some(i) ==> 0 <= i < s@.len() && first_index_of(s@, c) == i,
        r is None ==> first_index_of(s@, c) == -1 && !seq_contains_char(s@, c),
{
    let n = s.unicode_len();
    let mut i: usize = 0;
    while i < n
        invariant
            0 <= i <= n,
            n == s@.len(),
            forall|j: int| 0 <= j < i ==> s@[j] != c,
        decreases n - i,
    {
        if s.get_char(i) == c {
            proof {
                lemma_first_index_at(s@, c, i as int);
            }
            return Some(i);
        }
        i = i + 1;
    }
    proof {
        lemma_first_index_none(s@, c);
    }
    None
}

/// What parsing a decimal string as a `u32` yields.
pub open spec fn spec_parse_u32(s: Seq<char>) -> Option<u32> {
    match spec_parse_u64(s) {
        Some(v) => if v <= u32::MAX {
            Some(v as u32)
        } else {
            None
        },
        None => None,
    }
}

/// Parses a decimal string as a `u32`, exactly as `spec_parse_u32` describes.
pub fn parse_u32(s: &str) -> (r: Option<u32>)
    ensures
        r == spec_parse_u32(s@),
{
    match parse_u64(s) {
        Some(v) => if v <= u32::MAX as u64 {
            Some(v as u32)
        } else {
            None
        },
        None => None,
    }
}

/// The standard width for a named resolution height (the `<height>p`
/// shorthands), when there is one.
pub open spec fn spec_standard_width(height: u32) -> Option<u32> {
    if height == 240 {
        Some(320u32)
    } else if height == 360 {
        Some(480u32)
    } else if height == 480 {
        Some(640u32)
    } else if height == 720 {
        Some(1280u32)
    } else if height == 1080 {
        Some(1920u32)
    } else if height == 1440 {
        Some(2560u32)
    } else if height == 2160 {
        Some(3840u32)
    } else {
        None
    }
}

/// The standard width for a named resolution height.
fn standard_width(height: u32) -> (r: Option<u32>)
    ensures
        r == spec_standard_width(height),
{
    if height == 240 {
        Some(320)
    } else if height == 360 {
        Some(480)
    } else if height == 480 {
        Some(640)
    } else if height == 720 {
        Some(1280)
    } else if height == 1080 {
        Some(1920)
    } else if height == 1440 {
        Some(2560)
    } else if height == 2160 {
        Some(3840)
    } else {
        None
    }
}

/// What parsing a resolution string yields: `<height>p` maps a named height
/// to its standard width; `<width>x<height>` takes both numbers; anything
/// else is invalid.
pub open spec fn spec_parse_resolution(s: Seq<char>) -> Option<(u32, u32)> {
    if s.len() > 0 && s.last() == 'p' {
        match spec_parse_u32(s.drop_last()) {
            Some(h) => match spec_standard_width(h) {
                Some(w) => Some((w, h)),
                None => None,
            },
            None => None,
        }
    } else if seq_contains_char(s, 'x') {
        let i = first_index_of(s, 'x');
        let left = s.take(i);
        let right = s.skip(i + 1);
        if seq_contains_char(right, 'x') {
            None
        } else {
            match (spec_parse_u32(left), spec_parse_u32(right)) {
                (Some(w), Some(h)) => Some((w, h)),
                _ => None,
            }
        }
    } else {
        None
    }
}

/// Parses a resolution string into width and height in pixels, exactly as
/// `spec_parse_resolution` describes; an unparsable string is reported as
/// an invalid `resolution` parameter.
pub fn parse_resolution(resolution: &str) -> (r: Result<(u32, u32), CompressError>)
    ensures
        r matches Ok(wh) ==> spec_parse_resolution(resolution@) == Some(wh),
        r matches Err(e) ==> ({
            &&& spec_parse_resolution(resolution@) is None
            &&& e matches CompressError::InvalidParameter { parameter: p, value: v }
                && p@ == "resolution"@ && v@ == resolution@
        }),
{
    let n = resolution.unicode_len();
    if n > 0 && resolution.get_char(n - 1) == 'p' {
        let head = resolution.substring_char(0, n - 1);
        proof {
            assert(head@ =~= resolution@.drop_last());
        }
        match parse_u32(head) {
            Some(h) => match standard_width(h) {
                Some(w) => Ok((w, h)),
                None => Err(CompressError::invalid_parameter("resolution", resolution)),
            },
            None => Err(CompressError::invalid_parameter("resolution", resolution)),
        }
    } else {
        match find_char(resolution, 'x') {
            Some(i) => {
                let left = resolution.substring_char(0, i);
                let right = resolution.substring_char(i + 1, n);
                proof {
                    assert(left@ =~= resolution@.take(i as int));
                    assert(right@ =~= resolution@.skip(i + 1));
                    assert(seq_contains_char(resolution@, 'x')) by {
                        lemma_first_index_at_contains(resolution@, 'x', i as int);
                    }
                }
                if contains_char_str(right, 'x') {
                    return Err(CompressError::invalid_parameter("resolution", resolution));
                }
                match (parse_u32(left), parse_u32(right)) {
                    (Some(w), Some(h)) => Ok((w, h)),
                    _ => Err(CompressError::invalid_parameter("resolution", resolution)),
                }
            },
            None => Err(CompressError::invalid_parameter("resolution", resolution)),
        }
    }
}

proof fn lemma_first_index_at_contains(s: Seq<char>, c: char, i: int)
    requires
        0 <= i < s.len(),
        first_index_of(s, c) == i,
    ensures
        seq_contains_char(s, c),
    decreases s.len(),
{
    if s.len() > 0 {
        if s.first() == c {
            assert(s[0] == c);
        } else {
            lemma_first_index_at_contains(s.drop_first(), c, i - 1);
            let j = choose|j: int| 0 <= j < s.drop_first().len() && s.drop_first()[j] == c;
            assert(s[j + 1] == c);
        }
    }
}

/// Looks for a character in a string.
fn contains_char_str(s: &str, c: char) -> (r: bool)
    ensures
        r == seq_contains_char(s@, c),
{
    crate::text::contains_char(s, c)
}

/// What parsing a trim time yields, in whole milliseconds: a bare
/// (possibly fractional) number of seconds, `MM:SS`, or `HH:MM:SS`, every
/// component a decimal seconds value; anything else, or a value beyond
/// the representable range, is invalid.
pub open spec fn spec_parse_time(s: Seq<char>) -> Option<u64> {
    if !seq_contains_char(s, ':') {
        spec_parse_seconds_ms(s)
    } else {
        let i = first_index_of(s, ':');
        let head = s.take(i);
        let rest = s.skip(i + 1);
        if !seq_contains_char(rest, ':') {
            match (spec_parse_seconds_ms(head), spec_parse_seconds_ms(rest)) {
                (Some(m), Some(sec)) => {
                    let total = m * 60 + sec;
                    if total <= u64::MAX {
                        Some(total as u64)
                    } else {
                        None
                    }
                },
                _ => None,
            }
        } else {
            let j = first_index_of(rest, ':');
            let mid = rest.take(j);
            let tail = rest.skip(j + 1);
            if seq_contains_char(tail, ':') {
                None
            } else {
                match (spec_parse_seconds_ms(head), spec_parse_seconds_ms(mid),
                spec_parse_seconds_ms(tail)) {
                    (Some(h), Some(m), Some(sec)) => {
                        let total = h * 3600 + m * 60 + sec;
                        if total <= u64::MAX {
                            Some(total as u64)
                        } else {
                            None
                        }
                    },
                    _ => None,
                }
            }
        }
    }
}

/// Parses a trim time into whole milliseconds, exactly as
/// `spec_parse_time` describes; an unparsable string is reported as an
/// invalid `time` parameter.
pub fn parse_time(time_str: &str) -> (r: Result<u64, CompressError>)
    ensures
        r matches Ok(v) ==> spec_parse_time(time_str@) == Some(v),
        r matches Err(e) ==> ({
            &&& spec_parse_time(time_str@) is None
            &&& e matches CompressError::InvalidParameter { parameter: p, value: v }
                && p@ == "time"@ && v@ == time_str@
        }),
{
    let n = time_str.unicode_len();
    match find_char(time_str, ':') {
        None => {
            match parse_seconds_ms(time_str) {
                Some(v) => Ok(v),
                None => Err(CompressError::invalid_parameter("time", time_str)),
            }
        },
        Some(i) => {
            proof {
                lemma_first_index_at_contains(time_str@, ':', i as int);
            }
            let head = time_str.substring_char(0, i);
            let rest = time_str.substring_char(i + 1, n);
            proof {
                assert(head@ =~= time_str@.take(i as int));
                assert(rest@ =~= time_str@.skip(i + 1));
            }
            match find_char(rest, ':') {
                None => {
                    match (parse_seconds_ms(head), parse_seconds_ms(rest)) {
                        (Some(m), Some(sec)) => {
                            let total: u128 = (m as u128) * 60 + (sec as u128);
                            if total <= u64::MAX as u128 {
                                proof {
                                    lemma_u128_fits_u64(total);
                                }
                                Ok(total as u64)
                            } else {
                                Err(CompressError::invalid_parameter("time", time_str))
                            }
                        },
                        _ => Err(CompressError::invalid_parameter("time", time_str)),
                    }
                },
                Some(j) => {
                    proof {
                        lemma_first_index_at_contains(rest@, ':', j as int);
                    }
                    let rn = rest.unicode_len();
                    let mid = rest.substring_char(0, j);
                    let tail = rest.substring_char(j + 1, rn);
                    proof {
                        assert(mid@ =~= rest@.take(j as int));
                        assert(tail@ =~= rest@.skip(j + 1));
                    }
                    if contains_char_str(tail, ':') {
                        return Err(CompressError::invalid_parameter("time", time_str));
                    }
                    match (parse_seconds_ms(head), parse_seconds_ms(mid), parse_seconds_ms(tail)) {
                        (Some(h), Some(m), Some(sec)) => {
                            let total: u128 = (h as u128) * 3600 + (m as u128) * 60 + (sec as u128);
                            if total <= u64::MAX as u128 {
                                proof {
                                    lemma_u128_fits_u64(total);
                                }
                                Ok(total as u64)
                            } else {
                                Err(CompressError::invalid_parameter("time", time_str))
                            }
                        },
                        _ => Err(CompressError::invalid_parameter("time", time_str)),
                    }
                },
            }
        },
    }
}

proof fn lemma_u128_fits_u64(v: u128)
    requires
        v <= u64::MAX,
    ensures
        v as u64 == v,
{
    assert(v <= 0xffff_ffff_ffff_ffff ==> v as u64 == v) by (bit_vector);
}

/// What splitting a `<width>x<height>` string yields: the two numbers
/// around a single `x`; anything else is nothing.
pub open spec fn spec_split_dimensions(s: Seq<char>) -> Option<(u32, u32)> {
    if seq_contains_char(s, 'x') {
        let i = first_index_of(s, 'x');
        let left = s.take(i);
        let right = s.skip(i + 1);
        if seq_contains_char(right, 'x') {
            None
        } else {
            match (spec_parse_u32(left), spec_parse_u32(right)) {
                (Some(w), Some(h)) => Some((w, h)),
                _ => None,
            }
        }
    } else {
        None
    }
}

/// Splits a `<width>x<height>` string, exactly as `spec_split_dimensions`
/// describes.
pub fn split_dimensions(s: &str) -> (r: Option<(u32, u32)>)
    ensures
        r == spec_split_dimensions(s@),
{
    let n = s.unicode_len();
    match find_char(s, 'x') {
        Some(i) => {
            proof {
                lemma_first_index_at_contains(s@, 'x', i as int);
            }
            let left = s.substring_char(0, i);
            let right = s.substring_char(i + 1, n);
            proof {
                assert(left@ =~= s@.take(i as int));
                assert(right@ =~= s@.skip(i + 1));
            }
            if contains_char_str(right, 'x') {
                return None;
            }
            match (parse_u32(left), parse_u32(right)) {
                (Some(w), Some(h)) => Some((w, h)),
                _ => None,
            }
        },
        None => None,
    }
}

/// The milliseconds denoted by a fractional part: its first three digits,
/// padded with zeros on the right when shorter.
pub open spec fn spec_frac_ms(f: Seq<char>) -> int {
    if f.len() == 0 {
        0
    } else if f.len() == 1 {
        digits_val(f) * 100
    } else if f.len() == 2 {
        digits_val(f) * 10
    } else {
        digits_val(f.take(3))
    }
}

/// What parsing a decimal seconds value yields, in whole milliseconds:
/// `<digits>` or `<digits>.<digits>` (fraction truncated to milliseconds);
/// anything else, or a value beyond the representable range, is invalid.
pub open spec fn spec_parse_seconds_ms(s: Seq<char>) -> Option<u64> {
    if !seq_contains_char(s, '.') {
        match spec_parse_u64(s) {
            Some(v) => if v * 1000 <= u64::MAX {
                Some((v * 1000) as u64)
            } else {
                None
            },
            None => None,
        }
    } else {
        let i = first_index_of(s, '.');
        let whole = s.take(i);
        let frac = s.skip(i + 1);
        if seq_contains_char(frac, '.') || !all_digits(frac) {
            None
        } else {
            match spec_parse_u64(whole) {
                Some(v) => {
                    let total = v * 1000 + spec_frac_ms(frac);
                    if total <= u64::MAX {
                        Some(total as u64)
                    } else {
                        None
                    }
                },
                None => None,
            }
        }
    }
}

/// Checks that every character of a string is a decimal digit.
fn all_digits_str(s: &str) -> (r: bool)
    ensures
        r == all_digits(s@),
{
    let n = s.unicode_len();
    let mut i: usize = 0;
    while i < n
        invariant
            0 <= i <= n,
            n == s@.len(),
            forall|j: int| 0 <= j < i ==> crate::text::is_digit(#[trigger] s@[j]),
        decreases n - i,
    {
        let c = s.get_char(i);
        if !('0' <= c && c <= '9') {
            return false;
        }
        i = i + 1;
    }
    true
}

/// Parses a decimal seconds value into whole milliseconds, exactly as
/// `spec_parse_seconds_ms` describes.
pub fn parse_seconds_ms(s: &str) -> (r: Option<u64>)
    ensures
        r == spec_parse_seconds_ms(s@),
{
    let n = s.unicode_len();
    match find_char(s, '.') {
        None => {
            match parse_u64(s) {
                Some(v) => {
                    if v <= u64::MAX / 1000 {
                        assert(v * 1000 <= u64::MAX);
                        Some(v * 1000)
                    } else {
                        assert(v * 1000 > u64::MAX);
                        None
                    }
                },
                None => None,
            }
        },
        Some(i) => {
            proof {
                lemma_first_index_at_contains(s@, '.', i as int);
            }
            let whole = s.substring_char(0, i);
            let frac = s.substring_char(i + 1, n);
            proof {
                assert(whole@ =~= s@.take(i as int));
                assert(frac@ =~= s@.skip(i + 1));
            }
            if contains_char_str(frac, '.') {
                return None;
            }
            if !all_digits_str(frac) {
                return None;
            }
            let frac_ms = frac_millis(frac);
            match parse_u64(whole) {
                Some(v) => {
                    let total: u128 = (v as u128) * 1000 + (frac_ms as u128);
                    if total <= u64::MAX as u128 {
                        proof {
                            lemma_u128_fits_u64(total);
                        }
                        Some(total as u64)
                    } else {
                        None
                    }
                },
                None => None,
            }
        },
    }
}

/// The milliseconds of a fractional part, as `spec_frac_ms` describes.
fn frac_millis(f: &str) -> (r: u64)
    requires
        all_digits(f@),
    ensures
        r == spec_frac_ms(f@),
{
    let n = f.unicode_len();
    if n == 0 {
        0
    } else if n >= 3 {
        let head = f.substring_char(0, 3);
        proof {
            assert(head@ =~= f@.take(3));
            assert(all_digits(f@.take(3)));
            lemma_digits_bound_3(f@.take(3));
        }
        match parse_u64(head) {
            Some(v) => v,
            None => {
                proof {
                    assert(false);
                }
                0
            },
        }
    } else {
        proof {
            lemma_digits_bound_3(f@);
        }
        match parse_u64(f) {
            Some(v) => if n == 1 {
                v * 100
            } else {
                v * 10
            },
            None => {
                proof {
                    assert(false);
                }
                0
            },
        }
    }
}

/// A digit string of at most three digits denotes less than a thousand.
proof fn lemma_digits_bound_3(s: Seq<char>)
    requires
        all_digits(s),
        s.len() <= 3,
    ensures
        0 <= digits_val(s) < 1000,
        s.len() <= 2 ==> digits_val(s) < 100,
        s.len() <= 1 ==> digits_val(s) < 10,
    decreases s.len(),
{
    if s.len() > 0 {
        assert(all_digits(s.drop_last()));
        lemma_digits_bound_3(s.drop_last());
    }
}

/// Interprets the result of the external duration probe: a failed probe
/// degrades the job to indeterminate progress rather than failing it; a
/// successful probe whose output is not a decimal seconds value is a
/// progress error; otherwise the duration is returned in milliseconds.
pub fn duration_from_probe(probe_ok: bool, stdout: &str) -> (r: Result<
    Option<u64>,
    CompressError,
>)
    ensures
        !probe_ok ==> (r matches Ok(d) && d is None),
        probe_ok ==> match spec_parse_seconds_ms(spec_trim(stdout@)) {
            Some(ms) => r matches Ok(d) && d == Some(ms),
            None => (r matches Err(e) && e is ProgressParse),
        },
{
    if !probe_ok {
        return Ok(None);
    }
    let trimmed = trim_str(stdout);
    match parse_seconds_ms(trimmed) {
        Some(ms) => Ok(Some(ms)),
        None => Err(
            CompressError::ProgressParse {
                message: "could not parse the probed duration".to_owned(),
            },
        ),
    }
}


/// The decimal-seconds rendering of a millisecond count: the whole
/// seconds, then a fractional part without trailing zeros when the count
/// is not whole.
pub open spec fn spec_sec_str(ms: u64) -> Seq<char> {
    let whole = spec_dec((ms / 1000) as nat);
    let f = (ms % 1000) as int;
    if f == 0 {
        whole
    } else if f % 100 == 0 {
        whole + seq!['.', spec_digit_char(f / 100)]
    } else if f % 10 == 0 {
        whole + seq!['.', spec_digit_char(f / 100), spec_digit_char((f / 10) % 10)]
    } else {
        whole + seq![
            '.',
            spec_digit_char(f / 100),
            spec_digit_char((f / 10) % 10),
            spec_digit_char(f % 10),
        ]
    }
}

/// Renders a millisecond count as decimal seconds, exactly as
/// `spec_sec_str` describes.
pub fn ms_to_seconds_str(ms: u64) -> (r: String)
    ensures
        r@ == spec_sec_str(ms),
{
    let mut out = u64_to_dec(ms / 1000);
    let f: u64 = ms % 1000;
    if f == 0 {
        return out;
    }
    push_char(&mut out, '.');
    push_char(&mut out, digit_char((f / 100) as u8));
    if f % 100 == 0 {
        proof {
            assert(out@ =~= spec_sec_str(ms));
        }
        return out;
    }
    push_char(&mut out, digit_char(((f / 10) % 10) as u8));
    if f % 10 == 0 {
        proof {
            assert(out@ =~= spec_sec_str(ms));
        }
        return out;
    }
    push_char(&mut out, digit_char((f % 10) as u8));
    proof {
        assert(out@ =~= spec_sec_str(ms));
    }
    out
}

/// A digit string never holds a character that is not a digit.
proof fn lemma_digits_exclude(s: Seq<char>, c: char)
    requires
        all_digits(s),
        !is_digit(c),
    ensures
        !seq_contains_char(s, c),
{
    if seq_contains_char(s, c) {
        let i = choose|i: int| 0 <= i < s.len() && s[i] == c;
        assert(is_digit(s[i]));
    }
}

/// Law: rendering a millisecond count as decimal seconds and parsing it
/// back yields the same count.
#[verifier::rlimit(100)]
#[verifier::spinoff_prover]
pub proof fn lemma_sec_str_round_trip(ms: u64)
    ensures
        spec_parse_seconds_ms(spec_sec_str(ms)) == Some(ms),
        spec_parse_time(spec_sec_str(ms)) == Some(ms),
{
    let sstr = spec_sec_str(ms);
    let whole_val = (ms / 1000) as nat;
    let whole = spec_dec(whole_val);
    lemma_dec_round_trip(whole_val);
    vstd::arithmetic::div_mod::lemma_fundamental_div_mod(ms as int, 1000);
    let f = (ms % 1000) as int;
    if f == 0 {
        lemma_digits_exclude(whole, ':');
        lemma_digits_exclude(whole, '.');
        assert(spec_parse_u64(whole) == Some((whole_val) as u64));
        assert(whole_val * 1000 == ms);
    } else {
        let d1 = spec_digit_char(f / 100);
        let d2 = spec_digit_char((f / 10) % 10);
        let d3 = spec_digit_char(f % 10);
        let fr: Seq<char> = if f % 100 == 0 {
            seq![d1]
        } else if f % 10 == 0 {
            seq![d1, d2]
        } else {
            seq![d1, d2, d3]
        };
        assert(sstr =~= whole + seq!['.'] + fr);
        assert(all_digits(fr)) by {
            assert(is_digit(d1) && is_digit(d2) && is_digit(d3));
        }
        assert(!seq_contains_char(sstr, ':')) by {
            if seq_contains_char(sstr, ':') {
                let i = choose|i: int| 0 <= i < sstr.len() && sstr[i] == ':';
                if i < whole.len() {
                    assert(is_digit(whole[i]));
                } else if i == whole.len() {
                    assert(sstr[i] == '.');
                } else {
                    assert(is_digit(fr[i - whole.len() - 1]));
                }
            }
        }
        assert(sstr[whole.len() as int] == '.');
        assert(seq_contains_char(sstr, '.'));
        assert(forall|j: int| 0 <= j < whole.len() ==> #[trigger] sstr[j] != '.') by {
            assert(forall|j: int|
                0 <= j < whole.len() ==> is_digit(#[trigger] whole[j]) && sstr[j] == whole[j]);
        }
        lemma_first_index_at(sstr, '.', whole.len() as int);
        let head = sstr.take(whole.len() as int);
        let frac = sstr.skip(whole.len() as int + 1);
        assert(head =~= whole);
        assert(frac =~= fr);
        lemma_digits_exclude(fr, '.');
        assert(whole_val * 1000 + f == ms);
        assert(whole_val <= ms);
        assert(spec_parse_u64(whole) == Some((whole_val) as u64));
        assert(spec_frac_ms(fr) == f) by {
            vstd::arithmetic::div_mod::lemma_fundamental_div_mod(f, 10);
            vstd::arithmetic::div_mod::lemma_fundamental_div_mod(f, 100);
            vstd::arithmetic::div_mod::lemma_fundamental_div_mod(f / 10, 10);
            vstd::arithmetic::div_mod::lemma_div_denominator(f, 10, 10);
            assert(0 <= f / 100 < 10);
            assert(digit_val(d1) == f / 100);
            assert(digit_val(d2) == (f / 10) % 10);
            assert(digit_val(d3) == f % 10);
            if f % 100 == 0 {
                assert(fr.last() == d1);
                assert(fr.drop_last() =~= Seq::<char>::empty());
                assert(digits_val(Seq::<char>::empty()) == 0);
                assert(digits_val(fr) == f / 100);
                assert((f / 100) * 100 == f);
            } else if f % 10 == 0 {
                assert(fr.last() == d2);
                assert(fr.drop_last() =~= seq![d1]);
                assert(seq![d1].last() == d1);
                assert(seq![d1].drop_last() =~= Seq::<char>::empty());
                assert(digits_val(Seq::<char>::empty()) == 0);
                assert(digits_val(seq![d1]) == f / 100);
                assert(digits_val(fr) == (f / 100) * 10 + (f / 10) % 10);
                assert((f / 100) * 10 + (f / 10) % 10 == f / 10);
                assert((f / 10) * 10 == f);
            } else {
                assert(fr.last() == d3);
                assert(fr.drop_last() =~= seq![d1, d2]);
                assert(seq![d1, d2].last() == d2);
                assert(seq![d1, d2].drop_last() =~= seq![d1]);
                assert(seq![d1].last() == d1);
                assert(seq![d1].drop_last() =~= Seq::<char>::empty());
                assert(digits_val(Seq::<char>::empty()) == 0);
                assert(digits_val(seq![d1]) == f / 100);
                assert(digits_val(seq![d1, d2]) == (f / 100) * 10 + (f / 10) % 10);
                assert((f / 100) * 10 + (f / 10) % 10 == f / 10);
                assert(digits_val(fr) == (f / 10) * 10 + f % 10);
                assert(fr.take(3) =~= fr);
                assert(digits_val(fr) == f);
            }
        }
        assert(whole_val * 1000 + spec_frac_ms(fr) == ms);
    }
}

} // verus!
