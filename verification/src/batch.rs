//! Batch orchestration data: the options of one batch invocation, the
//! selection of candidate files by pattern and category, the per-job
//! option snapshots, and the batch-level result summary. The bounded
//! scheduling itself lives in the scheduler module.

use vstd::prelude::*;

use crate::config::Config;
use crate::error::CompressError;
use crate::files::{is_image_file, is_video_file, spec_is_image_file, spec_is_video_file};
use crate::image::ImageCompressionOptions;
use crate::presets::VideoPreset;
use crate::text::str_views;
use crate::video::VideoCompressionOptions;

verus! {

#[verifier::external_type_specification]
#[verifier::external_body]
pub struct ExPattern(glob::Pattern);

/// What a compiled glob pattern answers for a name: a function of the
/// pattern text and the name alone.
pub uninterp spec fn glob_match(pattern: Seq<char>, name: Seq<char>) -> bool;

/// Whether a pattern text is a well-formed glob pattern: a function of
/// the text alone.
pub uninterp spec fn glob_compiles(pattern: Seq<char>) -> bool;

/// A file-selection pattern paired with the text it was compiled from.
pub struct FilePattern {
    source: String,
    compiled: glob::Pattern,
}

/// Relies on glob::Pattern::new: compiles the pattern text, or describes
/// why it is malformed. Whether a text compiles is deterministic in the
/// text, so success is exactly `glob_compiles`.
#[verifier::external_body]
fn compile_pattern(pattern: &str) -> (r: Result<glob::Pattern, String>)
    ensures
        r is Ok <==> glob_compiles(pattern@),
{
    match glob::Pattern::new(pattern) {
        Ok(p) => Ok(p),
        Err(e) => Err(e.to_string()),
    }
}

impl FilePattern {
    /// The pattern text this value was compiled from.
    pub closed spec fn spec_source(&self) -> Seq<char> {
        self.source@
    }

    /// Compiles a selection pattern: a well-formed pattern succeeds, and
    /// a malformed one is a fatal setup error that aborts the batch
    /// before any job is admitted.
    pub fn new(pattern: &str) -> (r: Result<FilePattern, CompressError>)
        ensures
            r is Ok <==> glob_compiles(pattern@),
            r matches Ok(p) ==> p.spec_source() == pattern@,
            r matches Err(e) ==> (e matches CompressError::InvalidParameter {
                parameter: p,
                value: v,
            } && p@ == "pattern"@),
    {
        match compile_pattern(pattern) {
            Ok(compiled) => Ok(FilePattern { source: pattern.to_owned(), compiled }),
            Err(message) => Err(CompressError::invalid_parameter("pattern", message.as_str())),
        }
    }

    /// Relies on glob::Pattern::matches: whether the name matches the
    /// pattern this value was compiled from. The compiled form is a pure
    /// function of the source text, so the answer depends on the two
    /// strings alone.
    #[verifier::external_body]
    pub(crate) fn is_match(&self, name: &str) -> (r: bool)
        ensures
            r == glob_match(self.spec_source(), name@),
    {
        self.compiled.matches(name)
    }
}

/// The options of one batch invocation.
#[derive(Debug)]
pub struct BatchOptions {
    pub directory: String,
    pub pattern: String,
    pub videos: bool,
    pub images: bool,
    pub recursive: bool,
    pub video_preset: VideoPreset,
    pub image_quality: u8,
    pub jobs: usize,
    pub output_dir: Option<String>,
    pub overwrite: bool,
}

/// Walks nothing itself: decides whether one scanned file becomes a job.
/// The file's name must match the selection pattern, and its path must be
/// of a selected category.
pub fn file_is_selected(
    pattern: &FilePattern,
    file_name: &str,
    path: &str,
    videos: bool,
    images: bool,
) -> (r: bool)
    ensures
        r == (glob_match(pattern.spec_source(), file_name@) && ((videos && spec_is_video_file(
            path@,
        )) || (images && spec_is_image_file(path@)))),
{
    if !pattern.is_match(file_name) {
        return false;
    }
    (videos && is_video_file(path)) || (images && is_image_file(path))
}

/// The video files of a scan, in order.
pub open spec fn spec_video_selection(files: Seq<Seq<char>>) -> Seq<Seq<char>>
    decreases files.len(),
{
    if files.len() == 0 {
        Seq::<Seq<char>>::empty()
    } else {
        let rest = spec_video_selection(files.drop_last());
        if spec_is_video_file(files.last()) {
            rest.push(files.last())
        } else {
            rest
        }
    }
}

/// The image files of a scan that are not video files, in order.
pub open spec fn spec_image_selection(files: Seq<Seq<char>>) -> Seq<Seq<char>>
    decreases files.len(),
{
    if files.len() == 0 {
        Seq::<Seq<char>>::empty()
    } else {
        let rest = spec_image_selection(files.drop_last());
        if !spec_is_video_file(files.last()) && spec_is_image_file(files.last()) {
            rest.push(files.last())
        } else {
            rest
        }
    }
}

/// Runs one batch: scans for candidate files, schedules them under the
/// concurrency bound, and aggregates the outcomes.
pub struct BatchProcessor {
    config: Config,
    dry_run: bool,
    verbose: bool,
}

impl BatchProcessor {
    pub closed spec fn spec_config(&self) -> Config {
        self.config
    }

    pub closed spec fn spec_dry_run(&self) -> bool {
        self.dry_run
    }

    pub closed spec fn spec_verbose(&self) -> bool {
        self.verbose
    }

    /// Makes a batch processor over the given configuration.
    pub fn new(config: Config, dry_run: bool, verbose: bool) -> (p: Self)
        ensures
            p.spec_config() == config,
            p.spec_dry_run() == dry_run,
            p.spec_verbose() == verbose,
    {
        BatchProcessor { config, dry_run, verbose }
    }

    /// Separates scanned files into the video and image categories, each
    /// in scan order; a file that is both counts as a video.
    pub fn separate_files(&self, files: &Vec<String>) -> (r: (Vec<String>, Vec<String>))
        ensures
            str_views(r.0@) =~= spec_video_selection(str_views(files@)),
            str_views(r.1@) =~= spec_image_selection(str_views(files@)),
    {
        let ghost views = str_views(files@);
        let mut video_files: Vec<String> = Vec::new();
        let mut image_files: Vec<String> = Vec::new();
        let n = files.len();
        let mut i: usize = 0;
        while i < n
            invariant
                0 <= i <= n,
                n == files@.len(),
                views == str_views(files@),
                str_views(video_files@) =~= spec_video_selection(views.take(i as int)),
                str_views(image_files@) =~= spec_image_selection(views.take(i as int)),
            decreases n - i,
        {
            let ghost prev_v = str_views(video_files@);
            let ghost prev_i = str_views(image_files@);
            let file = &files[i];
            if is_video_file(file.as_str()) {
                video_files.push(file.clone());
            } else if is_image_file(file.as_str()) {
                image_files.push(file.clone());
            }
            proof {
                assert(views.take(i + 1 as int).drop_last() =~= views.take(i as int));
                assert(views.take(i + 1 as int).last() == views[i as int]);
                if spec_is_video_file(views[i as int]) {
                    assert(str_views(video_files@) =~= prev_v.push(views[i as int]));
                } else if spec_is_image_file(views[i as int]) {
                    assert(str_views(image_files@) =~= prev_i.push(views[i as int]));
                }
            }
            i = i + 1;
        }
        proof {
            assert(views.take(n as int) =~= views);
        }
        (video_files, image_files)
    }
}

/// The per-job option snapshot of one video file in a batch: batch-wide
/// settings applied to that file, everything else left to the preset.
pub fn video_options_for_batch(file: &str, options: &BatchOptions) -> (o: VideoCompressionOptions)
    ensures
        o.input@ == file@,
        o.output is None,
        o.preset == options.video_preset,
        o.codec is None,
        o.crf is None,
        o.bitrate is None,
        o.resolution is None,
        o.fps is None,
        o.audio_codec is None,
        o.audio_bitrate is None,
        !o.no_audio,
        o.start is None,
        o.end is None,
        !o.two_pass,
        crate::config::opt_str_view(o.output_dir) == crate::config::opt_str_view(
            options.output_dir,
        ),
        o.overwrite == options.overwrite,
{
    VideoCompressionOptions {
        input: file.to_owned(),
        output: None,
        preset: options.video_preset,
        codec: None,
        crf: None,
        bitrate: None,
        resolution: None,
        fps: None,
        audio_codec: None,
        audio_bitrate: None,
        no_audio: false,
        start: None,
        end: None,
        two_pass: false,
        output_dir: match &options.output_dir {
            Some(d) => Some(d.clone()),
            None => None,
        },
        overwrite: options.overwrite,
    }
}

/// The per-job option snapshot of one image file in a batch.
pub fn image_options_for_batch(file: &str, options: &BatchOptions) -> (o: ImageCompressionOptions)
    ensures
        o.input@ == file@,
        o.output is None,
        o.quality == options.image_quality,
        o.format is None,
        o.resize is None,
        o.max_width is None,
        o.max_height is None,
        o.optimize,
        !o.progressive,
        !o.lossless,
        o.preset is None,
        crate::config::opt_str_view(o.output_dir) == crate::config::opt_str_view(
            options.output_dir,
        ),
        o.overwrite == options.overwrite,
{
    ImageCompressionOptions {
        input: file.to_owned(),
        output: None,
        quality: options.image_quality,
        format: None,
        resize: None,
        max_width: None,
        max_height: None,
        optimize: true,
        progressive: false,
        lossless: false,
        preset: None,
        output_dir: match &options.output_dir {
            Some(d) => Some(d.clone()),
            None => None,
        },
        overwrite: options.overwrite,
    }
}

/// The results of one batch: per-category lists of produced outputs and
/// failed inputs, in completion order.
#[derive(Debug)]
pub struct BatchResults {
    pub videos: Vec<String>,
    pub images: Vec<String>,
    pub failed_videos: Vec<String>,
    pub failed_images: Vec<String>,
}

impl Default for BatchResults {
    /// The empty batch result.
    fn default() -> (r: Self)
        ensures
            r.videos@.len() == 0,
            r.images@.len() == 0,
            r.failed_videos@.len() == 0,
            r.failed_images@.len() == 0,
    {
        BatchResults {
            videos: Vec::new(),
            images: Vec::new(),
            failed_videos: Vec::new(),
            failed_images: Vec::new(),
        }
    }
}

impl BatchResults {
    /// The number of files processed successfully, over both categories.
    pub fn total_files(&self) -> (n: usize)
        requires
            self.videos@.len() + self.images@.len() <= usize::MAX,
        ensures
            n == self.videos@.len() + self.images@.len(),
    {
        self.videos.len() + self.images.len()
    }
}

} // verus!
