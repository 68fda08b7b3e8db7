//! The parameter bundles of the user-facing commands and their
//! conversion into job options. Argument parsing itself happens outside;
//! these are the decisions taken once plain values have arrived.

use vstd::prelude::*;

use crate::batch::BatchOptions;
use crate::error::CompressError;
use crate::image::ImageCompressionOptions;
use crate::presets::{AudioCodec, ImageFormat, VideoCodec, VideoPreset};
use crate::video::VideoCompressionOptions;

verus! {

/// Parameters of the single-video command.
#[derive(Debug)]
pub struct VideoCommandParams {
    pub input: String,
    pub output: Option<String>,
    pub preset: VideoPreset,
    pub codec: Option<VideoCodec>,
    pub crf: Option<u8>,
    pub bitrate: Option<String>,
    pub resolution: Option<String>,
    pub fps: Option<u32>,
    pub audio_codec: Option<AudioCodec>,
    pub audio_bitrate: Option<String>,
    pub no_audio: bool,
    pub start: Option<String>,
    pub end: Option<String>,
    pub two_pass: bool,
    pub output_dir: Option<String>,
    pub overwrite: bool,
}

/// Parameters of the single-image command.
#[derive(Debug)]
pub struct ImageCommandParams {
    pub input: String,
    pub output: Option<String>,
    pub quality: u8,
    pub format: Option<ImageFormat>,
    pub resize: Option<String>,
    pub max_width: Option<u32>,
    pub max_height: Option<u32>,
    pub optimize: bool,
    pub progressive: bool,
    pub lossless: bool,
    pub preset: Option<String>,
    pub output_dir: Option<String>,
    pub overwrite: bool,
}

/// Parameters of the batch command.
#[derive(Debug)]
pub struct BatchCommandParams {
    pub directory: String,
    pub pattern: String,
    pub videos: bool,
    pub images: bool,
    pub recursive: bool,
    pub video_preset: VideoPreset,
    pub image_quality: u8,
    pub jobs: usize,
    pub output_dir: Option<String>,
    pub overwrite: bool,
}

/// Turns the video command's parameters into one job's options, field for
/// field.
pub fn video_options_from_params(params: VideoCommandParams) -> (o: VideoCompressionOptions)
    ensures
        o.input == params.input,
        o.output == params.output,
        o.preset == params.preset,
        o.codec == params.codec,
        o.crf == params.crf,
        o.bitrate == params.bitrate,
        o.resolution == params.resolution,
        o.fps == params.fps,
        o.audio_codec == params.audio_codec,
        o.audio_bitrate == params.audio_bitrate,
        o.no_audio == params.no_audio,
        o.start == params.start,
        o.end == params.end,
        o.two_pass == params.two_pass,
        o.output_dir == params.output_dir,
        o.overwrite == params.overwrite,
{
    VideoCompressionOptions {
        input: params.input,
        output: params.output,
        preset: params.preset,
        codec: params.codec,
        crf: params.crf,
        bitrate: params.bitrate,
        resolution: params.resolution,
        fps: params.fps,
        audio_codec: params.audio_codec,
        audio_bitrate: params.audio_bitrate,
        no_audio: params.no_audio,
        start: params.start,
        end: params.end,
        two_pass: params.two_pass,
        output_dir: params.output_dir,
        overwrite: params.overwrite,
    }
}

/// Turns the image command's parameters into one job's options, field for
/// field.
pub fn image_options_from_params(params: ImageCommandParams) -> (o: ImageCompressionOptions)
    ensures
        o.input == params.input,
        o.output == params.output,
        o.quality == params.quality,
        o.format == params.format,
        o.resize == params.resize,
        o.max_width == params.max_width,
        o.max_height == params.max_height,
        o.optimize == params.optimize,
        o.progressive == params.progressive,
        o.lossless == params.lossless,
        o.preset == params.preset,
        o.output_dir == params.output_dir,
        o.overwrite == params.overwrite,
{
    ImageCompressionOptions {
        input: params.input,
        output: params.output,
        quality: params.quality,
        format: params.format,
        resize: params.resize,
        max_width: params.max_width,
        max_height: params.max_height,
        optimize: params.optimize,
        progressive: params.progressive,
        lossless: params.lossless,
        preset: params.preset,
        output_dir: params.output_dir,
        overwrite: params.overwrite,
    }
}

/// Turns the batch command's parameters into batch options. Selecting no
/// category at all is a fatal setup error: the batch never starts.
pub fn batch_options_from_params(params: BatchCommandParams) -> (r: Result<
    BatchOptions,
    CompressError,
>)
    ensures
        !params.videos && !params.images ==> (r matches Err(e)
            && e matches CompressError::Config { message: m }
            && m@ == "Must specify --videos and/or --images for batch processing"@),
        params.videos || params.images ==> (r matches Ok(o) && ({
            &&& o.directory == params.directory
            &&& o.pattern == params.pattern
            &&& o.videos == params.videos
            &&& o.images == params.images
            &&& o.recursive == params.recursive
            &&& o.video_preset == params.video_preset
            &&& o.image_quality == params.image_quality
            &&& o.jobs == params.jobs
            &&& o.output_dir == params.output_dir
            &&& o.overwrite == params.overwrite
        })),
{
    if !params.videos && !params.images {
        return Err(
            CompressError::config("Must specify --videos and/or --images for batch processing"),
        );
    }
    Ok(
        BatchOptions {
            directory: params.directory,
            pattern: params.pattern,
            videos: params.videos,
            images: params.images,
            recursive: params.recursive,
            video_preset: params.video_preset,
            image_quality: params.image_quality,
            jobs: params.jobs,
            output_dir: params.output_dir,
            overwrite: params.overwrite,
        },
    )
}

} // verus!
