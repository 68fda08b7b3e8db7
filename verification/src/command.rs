//! Builders for the argument vectors of the external encoder and of the
//! duration probe. Every method pins exactly which arguments it appends,
//! so the constructed command line is known in full.

use vstd::prelude::*;

use crate::error::CompressError;
use crate::files::{quote_path, spec_quote_path, validate_safe_path};
use crate::parser::{
    ms_to_seconds_str, parse_resolution, parse_time, spec_parse_resolution, spec_parse_time,
    spec_sec_str,
};
use crate::presets::{AudioCodec, VideoCodec};
use crate::text::{has_adjacent_pair, is_digit, push_char, seq_contains_char, spec_dec, u64_to_dec};

verus! {

/// True when the string holds at least one decimal digit.
pub open spec fn has_digit(s: Seq<char>) -> bool {
    exists|i: int| 0 <= i < s.len() && is_digit(#[trigger] s[i])
}

/// Looks for a decimal digit in a string.
fn contains_digit(s: &str) -> (r: bool)
    ensures
        r == has_digit(s@),
{
    let n = s.unicode_len();
    let mut i: usize = 0;
    while i < n
        invariant
            0 <= i <= n,
            n == s@.len(),
            forall|j: int| 0 <= j < i ==> !is_digit(#[trigger] s@[j]),
        decreases n - i,
    {
        let c = s.get_char(i);
        if '0' <= c && c <= '9' {
            return true;
        }
        i = i + 1;
    }
    false
}

/// True when a path passes `validate_safe_path`.
pub open spec fn spec_path_safe(p: Seq<char>) -> bool {
    !has_adjacent_pair(p, '.', '.') && !seq_contains_char(p, '\0')
}

/// Builds the argument vector for one invocation of the external encoder.
pub struct FFmpegCommandBuilder {
    args: Vec<String>,
}

impl FFmpegCommandBuilder {
    /// The arguments collected so far.
    pub closed spec fn spec_args(&self) -> Seq<Seq<char>> {
        self.args@.map_values(|a: String| a@)
    }

    /// Starts an empty encoder command.
    pub fn new() -> (r: Self)
        ensures
            r.spec_args() =~= Seq::<Seq<char>>::empty(),
    {
        FFmpegCommandBuilder { args: Vec::new() }
    }

    /// Appends the input file, quoted, after validating the path.
    pub fn input(self, path: &str) -> (r: Result<Self, CompressError>)
        ensures
            r matches Ok(b) ==> spec_path_safe(path@) && b.spec_args() =~= self.spec_args()
                + seq!["-i"@, spec_quote_path(path@)],
            r is Err ==> !spec_path_safe(path@),
            r matches Err(e) ==> e is InvalidParameter,
    {
        match validate_safe_path(path) {
            Ok(()) => {},
            Err(e) => {
                return Err(e);
            },
        }
        let mut b = self;
        b.args.push("-i".to_owned());
        b.args.push(quote_path(path));
        Ok(b)
    }

    /// Appends the output file, quoted, after validating the path.
    pub fn output(self, path: &str) -> (r: Result<Self, CompressError>)
        ensures
            r matches Ok(b) ==> spec_path_safe(path@) && b.spec_args() =~= self.spec_args()
                + seq![spec_quote_path(path@)],
            r is Err ==> !spec_path_safe(path@),
            r matches Err(e) ==> e is InvalidParameter,
    {
        match validate_safe_path(path) {
            Ok(()) => {},
            Err(e) => {
                return Err(e);
            },
        }
        let mut b = self;
        b.args.push(quote_path(path));
        Ok(b)
    }

    /// Selects the video codec.
    pub fn video_codec(self, codec: VideoCodec) -> (r: Self)
        ensures
            r.spec_args() =~= self.spec_args() + seq!["-c:v"@, codec.spec_name()],
    {
        let mut b = self;
        b.args.push("-c:v".to_owned());
        b.args.push(codec.name().to_owned());
        b
    }

    /// Selects the audio codec.
    pub fn audio_codec(self, codec: AudioCodec) -> (r: Self)
        ensures
            r.spec_args() =~= self.spec_args() + seq!["-c:a"@, codec.spec_name()],
    {
        let mut b = self;
        b.args.push("-c:a".to_owned());
        b.args.push(codec.name().to_owned());
        b
    }

    /// Sets the constant rate factor; values above 51 are invalid.
    pub fn crf(self, crf: u8) -> (r: Result<Self, CompressError>)
        ensures
            crf <= 51 ==> (r matches Ok(b) && b.spec_args() =~= self.spec_args()
                + seq!["-crf"@, spec_dec(crf as nat)]),
            crf > 51 ==> (r matches Err(e)
                && e matches CompressError::InvalidParameter { parameter: p, value: v }
                && p@ == "crf"@ && v@ == spec_dec(crf as nat)),
    {
        let text = u64_to_dec(crf as u64);
        if crf > 51 {
            return Err(CompressError::invalid_parameter("crf", text.as_str()));
        }
        let mut b = self;
        b.args.push("-crf".to_owned());
        b.args.push(text);
        Ok(b)
    }

    /// Sets the target video bitrate; the value must hold a digit.
    pub fn bitrate(self, bitrate: &str) -> (r: Result<Self, CompressError>)
        ensures
            has_digit(bitrate@) ==> (r matches Ok(b) && b.spec_args() =~= self.spec_args()
                + seq!["-b:v"@, bitrate@]),
            !has_digit(bitrate@) ==> (r matches Err(e)
                && e matches CompressError::InvalidParameter { parameter: p, value: v }
                && p@ == "bitrate"@ && v@ == bitrate@),
    {
        if !contains_digit(bitrate) {
            return Err(CompressError::invalid_parameter("bitrate", bitrate));
        }
        let mut b = self;
        b.args.push("-b:v".to_owned());
        b.args.push(bitrate.to_owned());
        Ok(b)
    }

    /// Sets the target audio bitrate; the value must hold a digit.
    pub fn audio_bitrate(self, bitrate: &str) -> (r: Result<Self, CompressError>)
        ensures
            has_digit(bitrate@) ==> (r matches Ok(b) && b.spec_args() =~= self.spec_args()
                + seq!["-b:a"@, bitrate@]),
            !has_digit(bitrate@) ==> (r matches Err(e)
                && e matches CompressError::InvalidParameter { parameter: p, value: v }
                && p@ == "audio_bitrate"@ && v@ == bitrate@),
    {
        if !contains_digit(bitrate) {
            return Err(CompressError::invalid_parameter("audio_bitrate", bitrate));
        }
        let mut b = self;
        b.args.push("-b:a".to_owned());
        b.args.push(bitrate.to_owned());
        Ok(b)
    }

    /// Selects the encoder speed preset; an empty name appends nothing.
    pub fn preset(self, preset: &str) -> (r: Self)
        ensures
            preset@.len() == 0 ==> r.spec_args() =~= self.spec_args(),
            preset@.len() > 0 ==> r.spec_args() =~= self.spec_args() + seq![
                "-preset"@,
                preset@,
            ],
    {
        let mut b = self;
        if !preset.is_empty() {
            b.args.push("-preset".to_owned());
            b.args.push(preset.to_owned());
        }
        b
    }

    /// Sets the output resolution via a scale filter.
    pub fn resolution(self, resolution: &str) -> (r: Result<Self, CompressError>)
        ensures
            r matches Ok(b) ==> ({
                &&& spec_parse_resolution(resolution@) matches Some((w, h))
                    && b.spec_args() =~= self.spec_args() + seq![
                    "-vf"@,
                    "scale="@ + spec_dec(w as nat) + seq![':'] + spec_dec(h as nat),
                ]
            }),
            r is Err ==> spec_parse_resolution(resolution@) is None,
            r matches Err(e) ==> e is InvalidParameter,
    {
        let (w, h) = match parse_resolution(resolution) {
            Ok(wh) => wh,
            Err(e) => {
                return Err(e);
            },
        };
        let mut filter = "scale=".to_owned();
        filter.append(u64_to_dec(w as u64).as_str());
        push_char(&mut filter, ':');
        filter.append(u64_to_dec(h as u64).as_str());
        proof {
            assert(filter@ =~= "scale="@ + spec_dec(w as nat) + seq![':'] + spec_dec(h as nat));
        }
        let mut b = self;
        b.args.push("-vf".to_owned());
        b.args.push(filter);
        Ok(b)
    }

    /// Sets the output frame rate; zero or more than 120 is invalid.
    pub fn framerate(self, fps: u32) -> (r: Result<Self, CompressError>)
        ensures
            1 <= fps <= 120 ==> (r matches Ok(b) && b.spec_args() =~= self.spec_args()
                + seq!["-r"@, spec_dec(fps as nat)]),
            fps == 0 || fps > 120 ==> (r matches Err(e)
                && e matches CompressError::InvalidParameter { parameter: p, value: v }
                && p@ == "fps"@ && v@ == spec_dec(fps as nat)),
    {
        let text = u64_to_dec(fps as u64);
        if fps == 0 || fps > 120 {
            return Err(CompressError::invalid_parameter("fps", text.as_str()));
        }
        let mut b = self;
        b.args.push("-r".to_owned());
        b.args.push(text);
        Ok(b)
    }

    /// Sets the trim start time, normalized to decimal seconds.
    pub fn start_time(self, time: &str) -> (r: Result<Self, CompressError>)
        ensures
            r matches Ok(b) ==> ({
                &&& spec_parse_time(time@) matches Some(ms) && b.spec_args()
                    =~= self.spec_args() + seq!["-ss"@, spec_sec_str(ms)]
            }),
            r is Err ==> spec_parse_time(time@) is None,
            r matches Err(e) ==> e is InvalidParameter,
    {
        let millis = match parse_time(time) {
            Ok(v) => v,
            Err(e) => {
                return Err(e);
            },
        };
        let mut b = self;
        b.args.push("-ss".to_owned());
        b.args.push(ms_to_seconds_str(millis));
        Ok(b)
    }

    /// Sets the trim duration, normalized to decimal seconds.
    pub fn duration(self, duration: &str) -> (r: Result<Self, CompressError>)
        ensures
            r matches Ok(b) ==> ({
                &&& spec_parse_time(duration@) matches Some(ms) && b.spec_args()
                    =~= self.spec_args() + seq!["-t"@, spec_sec_str(ms)]
            }),
            r is Err ==> spec_parse_time(duration@) is None,
            r matches Err(e) ==> e is InvalidParameter,
    {
        let millis = match parse_time(duration) {
            Ok(v) => v,
            Err(e) => {
                return Err(e);
            },
        };
        let mut b = self;
        b.args.push("-t".to_owned());
        b.args.push(ms_to_seconds_str(millis));
        Ok(b)
    }

    /// Drops the audio track.
    pub fn no_audio(self) -> (r: Self)
        ensures
            r.spec_args() =~= self.spec_args() + seq!["-an"@],
    {
        let mut b = self;
        b.args.push("-an".to_owned());
        b
    }

    /// Asks the encoder for machine-readable progress on its standard
    /// output.
    pub fn progress(self) -> (r: Self)
        ensures
            r.spec_args() =~= self.spec_args() + seq!["-progress"@, "pipe:1"@],
    {
        let mut b = self;
        b.args.push("-progress".to_owned());
        b.args.push("pipe:1".to_owned());
        b
    }

    /// Lets the encoder overwrite its output file.
    pub fn overwrite(self) -> (r: Self)
        ensures
            r.spec_args() =~= self.spec_args() + seq!["-y"@],
    {
        let mut b = self;
        b.args.push("-y".to_owned());
        b
    }

    /// Turns the command into the first pass of a two-pass encode: the
    /// output is analyzed only and discarded into the null device.
    pub fn first_pass(self) -> (r: Self)
        ensures
            r.spec_args() =~= self.spec_args() + seq![
                "-pass"@,
                "1"@,
                "-f"@,
                "null"@,
                "/dev/null"@,
            ],
    {
        let mut b = self;
        b.args.push("-pass".to_owned());
        b.args.push("1".to_owned());
        b.args.push("-f".to_owned());
        b.args.push("null".to_owned());
        b.args.push("/dev/null".to_owned());
        b
    }

    /// Turns the command into the second pass of a two-pass encode.
    pub fn second_pass(self) -> (r: Self)
        ensures
            r.spec_args() =~= self.spec_args() + seq!["-pass"@, "2"@],
    {
        let mut b = self;
        b.args.push("-pass".to_owned());
        b.args.push("2".to_owned());
        b
    }

    /// Appends extra arguments verbatim.
    pub fn custom_args(self, args: &Vec<String>) -> (r: Self)
        ensures
            r.spec_args() =~= self.spec_args() + args@.map_values(|a: String| a@),
    {
        let mut b = self;
        let n = args.len();
        let mut i: usize = 0;
        while i < n
            invariant
                0 <= i <= n,
                n == args@.len(),
                b.spec_args() =~= self.spec_args() + args@.map_values(|a: String| a@).take(
                    i as int,
                ),
            decreases n - i,
        {
            let ghost prev = b.spec_args();
            b.args.push(args[i].clone());
            proof {
                assert(b.spec_args() =~= prev.push(args@[i as int]@));
                assert(args@.map_values(|a: String| a@).take(i + 1 as int)
                    =~= args@.map_values(|a: String| a@).take(i as int).push(args@[i as int]@));
            }
            i = i + 1;
        }
        proof {
            assert(args@.map_values(|a: String| a@).take(n as int) =~= args@.map_values(
                |a: String| a@,
            ));
        }
        b
    }

    /// Hands out the finished argument vector.
    pub fn build(self) -> (r: Vec<String>)
        ensures
            r@.map_values(|a: String| a@) =~= self.spec_args(),
    {
        self.args
    }

    /// The command as one line, for logging: the program name followed by
    /// each argument, space separated.
    pub fn command_string(&self) -> (r: String)
        ensures
            r@ == "ffmpeg"@ + spec_joined(self.spec_args()),
    {
        let mut out = "ffmpeg".to_owned();
        let n = self.args.len();
        let mut i: usize = 0;
        while i < n
            invariant
                0 <= i <= n,
                n == self.args@.len(),
                out@ =~= "ffmpeg"@ + spec_joined(self.spec_args().take(i as int)),
            decreases n - i,
        {
            push_char(&mut out, ' ');
            out.append(self.args[i].as_str());
            proof {
                assert(self.spec_args().take(i + 1 as int) =~= self.spec_args().take(
                    i as int,
                ).push(self.spec_args()[i as int]));
                lemma_joined_push(self.spec_args().take(i as int), self.spec_args()[i as int]);
            }
            i = i + 1;
        }
        proof {
            assert(self.spec_args().take(n as int) =~= self.spec_args());
        }
        out
    }
}

/// The space-separated joining of arguments, each preceded by one space.
pub open spec fn spec_joined(args: Seq<Seq<char>>) -> Seq<char>
    decreases args.len(),
{
    if args.len() == 0 {
        Seq::<char>::empty()
    } else {
        spec_joined(args.drop_last()) + seq![' '] + args.last()
    }
}

proof fn lemma_joined_push(args: Seq<Seq<char>>, arg: Seq<char>)
    ensures
        spec_joined(args.push(arg)) == spec_joined(args) + seq![' '] + arg,
{
    assert(args.push(arg).drop_last() =~= args);
    assert(args.push(arg).last() == arg);
}

/// Builds the argument vector for the external duration probe.
pub struct FFprobeCommandBuilder {
    args: Vec<String>,
}

impl FFprobeCommandBuilder {
    /// The arguments collected so far.
    pub closed spec fn spec_args(&self) -> Seq<Seq<char>> {
        self.args@.map_values(|a: String| a@)
    }

    /// Starts an empty probe command.
    pub fn new() -> (r: Self)
        ensures
            r.spec_args() =~= Seq::<Seq<char>>::empty(),
    {
        FFprobeCommandBuilder { args: Vec::new() }
    }

    /// Appends the input file, quoted, after validating the path.
    pub fn input(self, path: &str) -> (r: Result<Self, CompressError>)
        ensures
            r matches Ok(b) ==> spec_path_safe(path@) && b.spec_args() =~= self.spec_args()
                + seq![spec_quote_path(path@)],
            r is Err ==> !spec_path_safe(path@),
            r matches Err(e) ==> e is InvalidParameter,
    {
        match validate_safe_path(path) {
            Ok(()) => {},
            Err(e) => {
                return Err(e);
            },
        }
        let mut b = self;
        b.args.push(quote_path(path));
        Ok(b)
    }

    /// Asks the probe for the container duration alone, in plain CSV form.
    pub fn duration(self) -> (r: Self)
        ensures
            r.spec_args() =~= self.spec_args() + seq![
                "-v"@,
                "quiet"@,
                "-show_entries"@,
                "format=duration"@,
                "-of"@,
                "csv=p=0"@,
            ],
    {
        let mut b = self;
        b.args.push("-v".to_owned());
        b.args.push("quiet".to_owned());
        b.args.push("-show_entries".to_owned());
        b.args.push("format=duration".to_owned());
        b.args.push("-of".to_owned());
        b.args.push("csv=p=0".to_owned());
        b
    }

    /// Asks the probe for full format and stream metadata as JSON.
    pub fn metadata(self) -> (r: Self)
        ensures
            r.spec_args() =~= self.spec_args() + seq![
                "-v"@,
                "quiet"@,
                "-print_format"@,
                "json"@,
                "-show_format"@,
                "-show_streams"@,
            ],
    {
        let mut b = self;
        b.args.push("-v".to_owned());
        b.args.push("quiet".to_owned());
        b.args.push("-print_format".to_owned());
        b.args.push("json".to_owned());
        b.args.push("-show_format".to_owned());
        b.args.push("-show_streams".to_owned());
        b
    }

    /// Hands out the finished argument vector.
    pub fn build(self) -> (r: Vec<String>)
        ensures
            r@.map_values(|a: String| a@) =~= self.spec_args(),
    {
        self.args
    }
}

} // verus!
