//! The video job pipeline around the external encoder: resolving the
//! preset with command-line overrides, generating the output path, and
//! building the exact encoder argument vector for single-pass and
//! two-pass runs.

use vstd::prelude::*;

use crate::command::{has_digit, spec_path_safe, FFmpegCommandBuilder, FFprobeCommandBuilder};
use crate::config::{opt_str_view, Config, VideoPresetConfig};
use crate::error::CompressError;
use crate::files::{
    check_output_overwrite, generate_output_path, spec_generate_output_path, spec_quote_path,
    validate_safe_path,
};
use crate::parser::{spec_parse_resolution, spec_parse_time, spec_sec_str};
use crate::presets::{AudioCodec, VideoCodec, VideoPreset};
use crate::text::{clone_strings, spec_dec, str_views};
use crate::twopass::{PassState, TwoPassPipeline};

verus! {

/// One video job's resolved options: an immutable snapshot taken when the
/// job is admitted.
#[derive(Debug)]
pub struct VideoCompressionOptions {
    pub input: String,
    pub output: Option<String>,
    pub preset: VideoPreset,
    pub codec: Option<VideoCodec>,
    pub crf: Option<u8>,
    pub bitrate: Option<String>,
    pub resolution: Option<String>,
    pub fps: Option<u32>,
    pub audio_codec: Option<AudioCodec>,
    pub audio_bitrate: Option<String>,
    pub no_audio: bool,
    pub start: Option<String>,
    pub end: Option<String>,
    pub two_pass: bool,
    pub output_dir: Option<String>,
    pub overwrite: bool,
}

/// Compresses video files by planning and sequencing runs of the external
/// encoder.
pub struct VideoCompressor {
    pub config: Config,
    pub dry_run: bool,
    pub verbose: bool,
}

/// True when `merged` is the preset `base` with the job's command-line
/// overrides applied: explicit codec, rate factor, bitrates and audio
/// codec win over the preset, and a requested two-pass run stays one.
pub open spec fn spec_merged_video_preset(
    base: VideoPresetConfig,
    o: &VideoCompressionOptions,
    merged: VideoPresetConfig,
) -> bool {
    &&& merged.codec == (match o.codec {
        Some(c) => c,
        None => base.codec,
    })
    &&& merged.crf == (match o.crf {
        Some(c) => Some(c),
        None => base.crf,
    })
    &&& opt_str_view(merged.bitrate) == (match o.bitrate {
        Some(b) => Some(b@),
        None => opt_str_view(base.bitrate),
    })
    &&& merged.audio_codec == (match o.audio_codec {
        Some(c) => c,
        None => base.audio_codec,
    })
    &&& opt_str_view(merged.audio_bitrate) == (match o.audio_bitrate {
        Some(b) => Some(b@),
        None => opt_str_view(base.audio_bitrate),
    })
    &&& merged.preset@ == base.preset@
    &&& merged.two_pass == (o.two_pass || base.two_pass)
    &&& str_views(merged.extra_args@) == str_views(base.extra_args@)
}

/// The output path of a video job: the explicit output when one was
/// given, otherwise the input's name with a `_compressed_<preset>` suffix
/// and the default video extension, in the chosen directory.
pub open spec fn spec_video_output_path(o: &VideoCompressionOptions) -> Seq<char> {
    match o.output {
        Some(out) => out@,
        None => spec_generate_output_path(
            o.input@,
            opt_str_view(o.output_dir),
            Some("_compressed_"@ + o.preset.spec_name()),
            Some("mp4"@),
        ),
    }
}

/// True when the job's explicit output path, if any, is safe.
pub open spec fn spec_output_ok(o: &VideoCompressionOptions) -> bool {
    match o.output {
        Some(out) => spec_path_safe(out@),
        None => true,
    }
}

/// True when every value of the job can stand on the encoder command
/// line: safe paths, a plausible bitrate, a rate factor within range, and
/// parsable trim times, resolution and frame rate, with the trim end not
/// before the trim start.
pub open spec fn spec_cmd_ok(
    o: &VideoCompressionOptions,
    p: &VideoPresetConfig,
    out: Seq<char>,
) -> bool {
    &&& spec_path_safe(o.input@)
    &&& spec_path_safe(out)
    &&& (p.bitrate matches Some(b) ==> has_digit(b@))
    &&& (p.bitrate is None ==> (p.crf matches Some(c) ==> c <= 51))
    &&& (o.start matches Some(s) ==> spec_parse_time(s@) is Some)
    &&& (o.end matches Some(e) ==> spec_parse_time(e@) is Some)
    &&& (o.end matches Some(e) ==> (o.start matches Some(s)
        ==> spec_parse_time(e@)->Some_0 >= spec_parse_time(s@)->Some_0))
    &&& (o.resolution matches Some(r) ==> spec_parse_resolution(r@) is Some)
    &&& (o.fps matches Some(f) ==> 1 <= f <= 120)
    &&& (!o.no_audio ==> (p.audio_bitrate matches Some(b) ==> has_digit(b@)))
}

/// The opening of every encoder command: input, video codec, speed
/// preset (when named), progress reporting, and overwrite consent.
pub open spec fn seg_head(o: &VideoCompressionOptions, p: &VideoPresetConfig) -> Seq<Seq<char>> {
    seq!["-i"@, spec_quote_path(o.input@), "-c:v"@, p.codec.spec_name()] + (if p.preset@.len()
        > 0 {
        seq!["-preset"@, p.preset@]
    } else {
        Seq::<Seq<char>>::empty()
    }) + seq!["-progress"@, "pipe:1"@, "-y"@]
}

/// Rate control: an explicit bitrate wins over a constant rate factor.
pub open spec fn seg_rate(p: &VideoPresetConfig) -> Seq<Seq<char>> {
    match p.bitrate {
        Some(b) => seq!["-b:v"@, b@],
        None => match p.crf {
            Some(c) => seq!["-crf"@, spec_dec(c as nat)],
            None => Seq::<Seq<char>>::empty(),
        },
    }
}

/// The trim start, normalized to decimal seconds.
pub open spec fn seg_start(o: &VideoCompressionOptions) -> Seq<Seq<char>> {
    match o.start {
        Some(st) => seq!["-ss"@, spec_sec_str(spec_parse_time(st@)->Some_0)],
        None => Seq::<Seq<char>>::empty(),
    }
}

/// The trim duration: the span from the start (or zero) to the end.
pub open spec fn seg_trim(o: &VideoCompressionOptions) -> Seq<Seq<char>> {
    match o.end {
        Some(en) => seq![
            "-t"@,
            spec_sec_str(
                (spec_parse_time(en@)->Some_0 - (match o.start {
                    Some(st) => spec_parse_time(st@)->Some_0 as int,
                    None => 0,
                })) as u64,
            ),
        ],
        None => Seq::<Seq<char>>::empty(),
    }
}

/// The scale filter of an explicit resolution.
pub open spec fn seg_scale(o: &VideoCompressionOptions) -> Seq<Seq<char>> {
    match o.resolution {
        Some(re) => seq![
            "-vf"@,
            "scale="@ + spec_dec(spec_parse_resolution(re@)->Some_0.0 as nat) + seq![':']
                + spec_dec(spec_parse_resolution(re@)->Some_0.1 as nat),
        ],
        None => Seq::<Seq<char>>::empty(),
    }
}

/// The frame rate.
pub open spec fn seg_fps(o: &VideoCompressionOptions) -> Seq<Seq<char>> {
    match o.fps {
        Some(f) => seq!["-r"@, spec_dec(f as nat)],
        None => Seq::<Seq<char>>::empty(),
    }
}

/// Audio handling: the track is dropped, or encoded with the preset's
/// audio codec and bitrate.
pub open spec fn seg_audio(o: &VideoCompressionOptions, p: &VideoPresetConfig) -> Seq<Seq<char>> {
    if o.no_audio {
        seq!["-an"@]
    } else {
        seq!["-c:a"@, p.audio_codec.spec_name()] + (match p.audio_bitrate {
            Some(b) => seq!["-b:a"@, b@],
            None => Seq::<Seq<char>>::empty(),
        })
    }
}

/// The encoder argument vector of one pass over a video job, in the order
/// the engine emits it: the opening, rate control, trim, filters, frame
/// rate, audio, the preset's extra arguments, and the output path.
pub open spec fn spec_ffmpeg_args(
    o: &VideoCompressionOptions,
    p: &VideoPresetConfig,
    out: Seq<char>,
) -> Seq<Seq<char>>
    recommends
        spec_cmd_ok(o, p, out),
{
    seg_head(o, p) + seg_rate(p) + seg_start(o) + seg_trim(o) + seg_scale(o) + seg_fps(o)
        + seg_audio(o, p) + str_views(p.extra_args@) + seq![spec_quote_path(out)]
}

impl VideoCompressor {
    /// Makes a video compressor over the given configuration.
    pub fn new(config: Config, dry_run: bool, verbose: bool) -> (c: Self)
        ensures
            c.config == config,
            c.dry_run == dry_run,
            c.verbose == verbose,
    {
        VideoCompressor { config, dry_run, verbose }
    }

    /// Resolves the job's preset: the named preset from the configuration
    /// with the job's explicit overrides applied; an unknown preset is a
    /// configuration error.
    pub fn get_preset_config(&self, options: &VideoCompressionOptions) -> (r: Result<
        VideoPresetConfig,
        CompressError,
    >)
        ensures
            r matches Ok(merged) ==> self.config.video_map().contains_key(
                options.preset.spec_name(),
            ) && spec_merged_video_preset(
                self.config.video_map()[options.preset.spec_name()],
                options,
                merged,
            ),
            r matches Err(e) ==> ({
                &&& !self.config.video_map().contains_key(options.preset.spec_name())
                &&& e matches CompressError::Config { message: m } && m@ == "Unknown preset: "@
                    + options.preset.spec_name()
            }),
    {
        match self.config.get_video_preset(&options.preset) {
            Some(base) => {
                let codec = match options.codec {
                    Some(c) => c,
                    None => base.codec,
                };
                let crf = match options.crf {
                    Some(c) => Some(c),
                    None => base.crf,
                };
                let bitrate = match &options.bitrate {
                    Some(b) => Some(b.clone()),
                    None => match &base.bitrate {
                        Some(b) => Some(b.clone()),
                        None => None,
                    },
                };
                let audio_codec = match options.audio_codec {
                    Some(c) => c,
                    None => base.audio_codec,
                };
                let audio_bitrate = match &options.audio_bitrate {
                    Some(b) => Some(b.clone()),
                    None => match &base.audio_bitrate {
                        Some(b) => Some(b.clone()),
                        None => None,
                    },
                };
                let two_pass = options.two_pass || base.two_pass;
                Ok(
                    VideoPresetConfig {
                        codec,
                        crf,
                        bitrate,
                        audio_codec,
                        audio_bitrate,
                        preset: base.preset.clone(),
                        two_pass,
                        extra_args: clone_strings(&base.extra_args),
                    },
                )
            },
            None => {
                let mut message = "Unknown preset: ".to_owned();
                message.append(options.preset.name());
                Err(CompressError::Config { message })
            },
        }
    }

    /// The job's output path, exactly as `spec_video_output_path`
    /// describes; an explicit output path must be safe.
    pub fn generate_output_path(&self, options: &VideoCompressionOptions) -> (r: Result<
        String,
        CompressError,
    >)
        ensures
            r is Ok <==> spec_output_ok(options),
            r matches Ok(path) ==> path@ == spec_video_output_path(options),
            r matches Err(e) ==> e is InvalidParameter,
    {
        match &options.output {
            Some(out) => {
                match validate_safe_path(out.as_str()) {
                    Ok(()) => Ok(out.clone()),
                    Err(e) => Err(e),
                }
            },
            None => {
                let mut suffix = "_compressed_".to_owned();
                suffix.append(options.preset.name());
                let dir = match &options.output_dir {
                    Some(d) => Some(d.as_str()),
                    None => None,
                };
                let path = generate_output_path(
                    options.input.as_str(),
                    dir,
                    Some(suffix.as_str()),
                    Some("mp4"),
                );
                Ok(path)
            },
        }
    }

    /// Builds the encoder command of one pass, exactly as
    /// `spec_ffmpeg_args` describes; any value that cannot stand on the
    /// command line is rejected instead.
    #[verifier::rlimit(100)]
    #[verifier::spinoff_prover]
    pub fn build_ffmpeg_command(
        &self,
        options: &VideoCompressionOptions,
        preset_config: &VideoPresetConfig,
        output_path: &str,
    ) -> (r: Result<FFmpegCommandBuilder, CompressError>)
        ensures
            r is Ok <==> spec_cmd_ok(options, preset_config, output_path@),
            r matches Ok(b) ==> b.spec_args() == spec_ffmpeg_args(
                options,
                preset_config,
                output_path@,
            ),
            r matches Err(e) ==> e is InvalidParameter,
    {
        let with_input = match FFmpegCommandBuilder::new().input(options.input.as_str()) {
            Ok(b) => b,
            Err(e) => {
                return Err(e);
            },
        };
        let mut builder = with_input.video_codec(preset_config.codec).preset(
            preset_config.preset.as_str(),
        ).progress().overwrite();
        let ghost g_base: Seq<Seq<char>> = seg_head(options, preset_config);
        proof {
            assert(builder.spec_args() =~= g_base);
        }
        match &preset_config.bitrate {
            Some(b) => {
                builder = match builder.bitrate(b.as_str()) {
                    Ok(b2) => b2,
                    Err(e) => {
                        return Err(e);
                    },
                };
            },
            None => {
                match preset_config.crf {
                    Some(c) => {
                        builder = match builder.crf(c) {
                            Ok(b2) => b2,
                            Err(e) => {
                                return Err(e);
                            },
                        };
                    },
                    None => {},
                }
            },
        }
        let ghost g_rc: Seq<Seq<char>> = g_base + seg_rate(preset_config);
        proof {
            assert(builder.spec_args() =~= g_rc);
        }
        let start_millis: Option<u64> = match &options.start {
            Some(s) => {
                let v = match crate::parser::parse_time(s.as_str()) {
                    Ok(v) => v,
                    Err(e) => {
                        return Err(e);
                    },
                };
                builder = match builder.start_time(s.as_str()) {
                    Ok(b2) => b2,
                    Err(e) => {
                        return Err(e);
                    },
                };
                Some(v)
            },
            None => None,
        };
        let ghost g_ss: Seq<Seq<char>> = g_rc + seg_start(options);
        proof {
            assert(builder.spec_args() =~= g_ss);
        }
        match &options.end {
            Some(e) => {
                let end_millis = match crate::parser::parse_time(e.as_str()) {
                    Ok(v) => v,
                    Err(err) => {
                        return Err(err);
                    },
                };
                let from: u64 = match start_millis {
                    Some(v) => v,
                    None => 0,
                };
                if end_millis < from {
                    return Err(
                        CompressError::invalid_parameter("time", e.as_str()),
                    );
                }
                let span = end_millis - from;
                let text = crate::parser::ms_to_seconds_str(span);
                proof {
                    crate::parser::lemma_sec_str_round_trip(span);
                }
                builder = match builder.duration(text.as_str()) {
                    Ok(b2) => b2,
                    Err(err) => {
                        proof {
                            assert(false);
                        }
                        return Err(err);
                    },
                };
            },
            None => {},
        }
        let ghost g_t: Seq<Seq<char>> = g_ss + seg_trim(options);
        proof {
            assert(builder.spec_args() =~= g_t);
        }
        match &options.resolution {
            Some(r) => {
                builder = match builder.resolution(r.as_str()) {
                    Ok(b2) => b2,
                    Err(e) => {
                        return Err(e);
                    },
                };
            },
            None => {},
        }
        let ghost g_vf: Seq<Seq<char>> = g_t + seg_scale(options);
        proof {
            assert(builder.spec_args() =~= g_vf);
        }
        match options.fps {
            Some(f) => {
                builder = match builder.framerate(f) {
                    Ok(b2) => b2,
                    Err(e) => {
                        return Err(e);
                    },
                };
            },
            None => {},
        }
        let ghost g_r: Seq<Seq<char>> = g_vf + seg_fps(options);
        proof {
            assert(builder.spec_args() =~= g_r);
        }
        if options.no_audio {
            builder = builder.no_audio();
        } else {
            builder = builder.audio_codec(preset_config.audio_codec);
            match &preset_config.audio_bitrate {
                Some(b) => {
                    builder = match builder.audio_bitrate(b.as_str()) {
                        Ok(b2) => b2,
                        Err(e) => {
                            return Err(e);
                        },
                    };
                },
                None => {},
            }
        }
        let ghost g_aud: Seq<Seq<char>> = g_r + seg_audio(options, preset_config);
        proof {
            assert(builder.spec_args() =~= g_aud);
        }
        builder = builder.custom_args(&preset_config.extra_args);
        let ghost g_extra: Seq<Seq<char>> = g_aud + str_views(preset_config.extra_args@);
        proof {
            assert(builder.spec_args() =~= g_extra);
        }
        builder = match builder.output(output_path) {
            Ok(b2) => b2,
            Err(e) => {
                return Err(e);
            },
        };
        proof {
            assert(builder.spec_args() =~= g_extra + seq![spec_quote_path(output_path@)]);
        }
        Ok(builder)
    }

    /// The argument vector of a single-pass run.
    pub fn plan_single_pass(
        &self,
        options: &VideoCompressionOptions,
        preset_config: &VideoPresetConfig,
        output_path: &str,
    ) -> (r: Result<Vec<String>, CompressError>)
        ensures
            r is Ok <==> spec_cmd_ok(options, preset_config, output_path@),
            r matches Ok(args) ==> str_views(args@) =~= spec_ffmpeg_args(
                options,
                preset_config,
                output_path@,
            ),
    {
        let builder = self.build_ffmpeg_command(options, preset_config, output_path)?;
        Ok(builder.build())
    }

    /// Plans a two-pass run: the pass-1 command analyzes and discards its
    /// output into the null device, the pass-2 command writes the real
    /// output; both are the single-pass command with the pass marker
    /// appended, and nothing has run yet.
    pub fn plan_two_pass(
        &self,
        options: &VideoCompressionOptions,
        preset_config: &VideoPresetConfig,
        output_path: &str,
    ) -> (r: Result<TwoPassPipeline, CompressError>)
        ensures
            r is Ok <==> spec_cmd_ok(options, preset_config, output_path@),
            r matches Ok(p) ==> ({
                &&& p.wf()
                &&& p.state() == PassState::NotStarted
                &&& p.spec_pass1_args() =~= spec_ffmpeg_args(options, preset_config, output_path@)
                    + seq!["-pass"@, "1"@, "-f"@, "null"@, "/dev/null"@]
                &&& p.spec_pass2_args() =~= spec_ffmpeg_args(options, preset_config, output_path@)
                    + seq!["-pass"@, "2"@]
            }),
    {
        let first = self.build_ffmpeg_command(options, preset_config, output_path)?;
        let pass1_args = first.first_pass().build();
        let second = match self.build_ffmpeg_command(options, preset_config, output_path) {
            Ok(b) => b,
            Err(_) => {
                proof {
                    assert(false);
                }
                return Err(CompressError::invalid_parameter("pass", "2"));
            },
        };
        let pass2_args = second.second_pass().build();
        Ok(TwoPassPipeline::new(pass1_args, pass2_args))
    }

    /// The duration-probe command for one input.
    pub fn probe_args(&self, input: &str) -> (r: Result<Vec<String>, CompressError>)
        ensures
            r is Ok <==> spec_path_safe(input@),
            r matches Ok(args) ==> str_views(args@) =~= seq![
                spec_quote_path(input@),
                "-v"@,
                "quiet"@,
                "-show_entries"@,
                "format=duration"@,
                "-of"@,
                "csv=p=0"@,
            ],
    {
        let builder = FFprobeCommandBuilder::new().input(input)?.duration();
        Ok(builder.build())
    }

    /// Full validation of one video job before anything runs: the input
    /// must exist as a regular file under a safe path, the preset must
    /// resolve, the output path must be generatable, and an existing
    /// output is only overwritten when overwriting was requested. The
    /// surrounding environment reports whether the input and output exist.
    pub fn prepare(
        &self,
        options: &VideoCompressionOptions,
        input_exists: bool,
        input_is_file: bool,
        output_exists: bool,
    ) -> (r: Result<(VideoPresetConfig, String), CompressError>)
        ensures
            r matches Ok((merged, path)) ==> ({
                &&& input_exists && input_is_file
                &&& spec_path_safe(options.input@)
                &&& self.config.video_map().contains_key(options.preset.spec_name())
                &&& spec_merged_video_preset(
                    self.config.video_map()[options.preset.spec_name()],
                    options,
                    merged,
                )
                &&& path@ == spec_video_output_path(options)
                &&& (!output_exists || options.overwrite)
            }),
            r is Ok <==> (input_exists && input_is_file && spec_path_safe(options.input@)
                && self.config.video_map().contains_key(options.preset.spec_name())
                && spec_output_ok(options) && (!output_exists || options.overwrite)),
            !(input_exists && input_is_file) ==> (r matches Err(e)
                && e matches CompressError::InvalidInput { path } && path@ == options.input@),
            input_exists && input_is_file && !spec_path_safe(options.input@) ==> (r matches Err(
                e,
            ) && e is InvalidParameter),
            input_exists && input_is_file && spec_path_safe(options.input@)
                && !self.config.video_map().contains_key(options.preset.spec_name()) ==> (
            r matches Err(e) && e is Config),
            input_exists && input_is_file && spec_path_safe(options.input@)
                && self.config.video_map().contains_key(options.preset.spec_name())
                && !spec_output_ok(options) ==> (r matches Err(e) && e is InvalidParameter),
            input_exists && input_is_file && spec_path_safe(options.input@)
                && self.config.video_map().contains_key(options.preset.spec_name())
                && spec_output_ok(options) && output_exists && !options.overwrite ==> (
            r matches Err(e) && e matches CompressError::FileExists { path }
                && path@ == spec_video_output_path(options)),
    {
        if !input_exists || !input_is_file {
            return Err(CompressError::invalid_input(options.input.as_str()));
        }
        match validate_safe_path(options.input.as_str()) {
            Ok(()) => {},
            Err(e) => {
                return Err(e);
            },
        }
        let preset_config = match self.get_preset_config(options) {
            Ok(p) => p,
            Err(e) => {
                return Err(e);
            },
        };
        let output_path = match self.generate_output_path(options) {
            Ok(p) => p,
            Err(e) => {
                return Err(e);
            },
        };
        match check_output_overwrite(output_path.as_str(), output_exists, options.overwrite) {
            Ok(()) => {},
            Err(e) => {
                return Err(e);
            },
        }
        Ok((preset_config, output_path))
    }
}


} // verus!
