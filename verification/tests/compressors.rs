//! Tests of the video and image job pipelines and of batch selection.

use compresscli::batch::{
    image_options_for_batch, video_options_for_batch, BatchOptions, BatchProcessor, BatchResults,
    FilePattern,
};
use compresscli::cli::{batch_options_from_params, BatchCommandParams};
use compresscli::config::Config;
use compresscli::error::CompressError;
use compresscli::image::{ImageCompressionOptions, ImageCompressor};
use compresscli::presets::{ImageFormat, VideoCodec, VideoPreset};
use compresscli::video::{VideoCompressionOptions, VideoCompressor};

fn plain_video_options(input: &str) -> VideoCompressionOptions {
    VideoCompressionOptions {
        input: input.to_string(),
        output: None,
        preset: VideoPreset::Medium,
        codec: None,
        crf: None,
        bitrate: None,
        resolution: None,
        fps: None,
        audio_codec: None,
        audio_bitrate: None,
        no_audio: false,
        start: None,
        end: None,
        two_pass: false,
        output_dir: None,
        overwrite: false,
    }
}

fn plain_image_options(input: &str) -> ImageCompressionOptions {
    ImageCompressionOptions {
        input: input.to_string(),
        output: None,
        quality: 85,
        format: None,
        resize: None,
        max_width: None,
        max_height: None,
        optimize: false,
        progressive: false,
        lossless: false,
        preset: None,
        output_dir: None,
        overwrite: false,
    }
}

#[test]
fn test_generate_output_path() {
    let options = plain_video_options("/test/input.mp4");

    let config = Config::default();
    let compressor = VideoCompressor::new(config, false, false);
    let output = compressor.generate_output_path(&options).unwrap();

    assert!(output.contains("_compressed_medium"));
    assert!(output.ends_with(".mp4"));
}

#[test]
fn test_preset_config_override() {
    let config = Config::default();
    let compressor = VideoCompressor::new(config, false, false);

    let mut options = plain_video_options("test.mp4");
    options.codec = Some(VideoCodec::H265);
    options.crf = Some(20);

    let preset_config = compressor.get_preset_config(&options).unwrap();
    assert!(matches!(preset_config.codec, VideoCodec::H265));
    assert_eq!(preset_config.crf, Some(20));
}

#[test]
fn single_pass_plan_is_the_full_command_line() {
    let config = Config::default();
    let compressor = VideoCompressor::new(config, false, false);
    let options = plain_video_options("in.mp4");
    let preset_config = compressor.get_preset_config(&options).unwrap();
    let args = compressor
        .plan_single_pass(&options, &preset_config, "out.mp4")
        .unwrap();
    assert_eq!(
        args,
        vec![
            "-i", "in.mp4", "-c:v", "libx264", "-preset", "medium", "-progress", "pipe:1", "-y",
            "-crf", "23", "-c:a", "aac", "-b:a", "128k", "out.mp4"
        ]
    );
}

#[test]
fn two_pass_plan_discards_pass_one_output() {
    let config = Config::default();
    let compressor = VideoCompressor::new(config, false, false);
    let mut options = plain_video_options("in.mp4");
    options.preset = VideoPreset::Slow;
    options.bitrate = Some("1M".to_string());
    let preset_config = compressor.get_preset_config(&options).unwrap();
    assert!(preset_config.two_pass);
    let pipeline = compressor
        .plan_two_pass(&options, &preset_config, "out.mp4")
        .unwrap();
    let pass1 = pipeline.pass1_args().clone();
    let pass2 = pipeline.pass2_args().clone();
    assert!(pass1.ends_with(&[
        "-pass".to_string(),
        "1".to_string(),
        "-f".to_string(),
        "null".to_string(),
        "/dev/null".to_string()
    ]));
    assert!(pass2.ends_with(&["-pass".to_string(), "2".to_string()]));
    assert!(pass1.contains(&"-b:v".to_string()));
}

#[test]
fn unknown_video_preset_is_a_config_error() {
    let config = Config::default();
    let compressor = VideoCompressor::new(config, false, false);
    let mut options = plain_video_options("test.mp4");
    options.preset = VideoPreset::Custom;
    let e = compressor.get_preset_config(&options).unwrap_err();
    assert!(matches!(e, CompressError::Config { .. }));
}

#[test]
fn prepare_rejects_missing_input() {
    let config = Config::default();
    let compressor = VideoCompressor::new(config, false, false);
    let options = plain_video_options("gone.mp4");
    let e = compressor.prepare(&options, false, false, false).unwrap_err();
    assert!(matches!(e, CompressError::InvalidInput { path } if path == "gone.mp4"));
}

#[test]
fn prepare_respects_the_overwrite_flag() {
    let config = Config::default();
    let compressor = VideoCompressor::new(config, false, false);
    let options = plain_video_options("a.mp4");
    let e = compressor.prepare(&options, true, true, true).unwrap_err();
    assert!(matches!(e, CompressError::FileExists { .. }));

    let config2 = Config::default();
    let compressor2 = VideoCompressor::new(config2, false, false);
    let mut options2 = plain_video_options("a.mp4");
    options2.overwrite = true;
    assert!(compressor2.prepare(&options2, true, true, true).is_ok());
}

#[test]
fn test_parse_resize_dimensions() {
    let config = Config::default();
    let compressor = ImageCompressor::new(config, false, false);

    assert_eq!(
        compressor.parse_resize_dimensions("800x600").unwrap(),
        (800, 600)
    );
    assert_eq!(
        compressor.parse_resize_dimensions("1920x1080").unwrap(),
        (1920, 1080)
    );
    assert!(compressor.parse_resize_dimensions("invalid").is_err());
    assert!(compressor.parse_resize_dimensions("0x600").is_err());
    assert!(compressor.parse_resize_dimensions("800x0").is_err());
}

#[test]
fn test_determine_output_format() {
    let config = Config::default();
    let compressor = ImageCompressor::new(config, false, false);

    let options = plain_image_options("test.jpg");

    let format = compressor.determine_output_format(&options).unwrap();
    assert!(matches!(format, ImageFormat::Jpeg));

    // Test with PNG input
    let options_png = ImageCompressionOptions {
        input: "test.PNG".to_string(),
        ..options
    };
    let format_png = compressor.determine_output_format(&options_png).unwrap();
    assert!(matches!(format_png, ImageFormat::Png));
}

#[test]
fn test_preset_application() {
    let config = Config::default();
    let compressor = ImageCompressor::new(config, false, false);

    let mut options = plain_image_options("test.jpg");
    options.preset = Some("high".to_string());

    compressor.apply_preset_config(&mut options).unwrap();

    // Should have applied the "high" preset quality (95)
    assert_eq!(options.quality, 95);
    assert!(options.optimize); // Should be enabled by preset
}

#[test]
fn image_transformations_respect_constraints() {
    let config = Config::default();
    let compressor = ImageCompressor::new(config, false, false);

    // Max width scales both sides proportionally.
    let mut options = plain_image_options("big.jpg");
    options.max_width = Some(1000);
    assert_eq!(
        compressor.plan_transformations(2000, 1500, &options).unwrap(),
        (1000, 750)
    );

    // An explicit resize wins first; the height cap then applies.
    let mut options2 = plain_image_options("big.jpg");
    options2.resize = Some("800x600".to_string());
    options2.max_height = Some(500);
    assert_eq!(
        compressor.plan_transformations(2000, 1500, &options2).unwrap(),
        (800, 500)
    );
}

#[test]
fn avif_cannot_be_saved() {
    let config = Config::default();
    let compressor = ImageCompressor::new(config, false, false);
    let e = compressor.validate_save_format(&ImageFormat::Avif).unwrap_err();
    assert!(matches!(e, CompressError::UnsupportedFormat { .. }));
    assert!(compressor.validate_save_format(&ImageFormat::Webp).is_ok());
}

#[test]
fn test_separate_files() {
    let config = Config::default();
    let processor = BatchProcessor::new(config, false, false);

    let files = vec![
        "video.mp4".to_string(),
        "image.jpg".to_string(),
        "another_video.avi".to_string(),
        "another_image.png".to_string(),
    ];

    let (videos, images) = processor.separate_files(&files);

    assert_eq!(videos.len(), 2);
    assert_eq!(images.len(), 2);
}

#[test]
fn test_batch_results() {
    let mut results = BatchResults::default();
    results.videos.push("output1.mp4".to_string());
    results.images.push("output1.jpg".to_string());
    results.failed_videos.push("failed.mp4".to_string());

    assert_eq!(results.total_files(), 2);
    assert_eq!(results.failed_videos.len() + results.failed_images.len(), 1);
}

#[test]
fn glob_patterns_select_files() {
    let pattern = FilePattern::new("*.mp4").unwrap();

    // The name decides through the pattern, the path through its category.
    assert!(compresscli::batch::file_is_selected(
        &pattern, "movie.mp4", "/d/movie.mp4", true, false
    ));
    // Right category, but the name does not match the pattern.
    assert!(!compresscli::batch::file_is_selected(
        &pattern, "movie.jpg", "/d/movie.jpg", true, true
    ));
    // The name matches, but videos were not selected.
    assert!(!compresscli::batch::file_is_selected(
        &pattern, "movie.mp4", "/d/movie.mp4", false, true
    ));
    // A wildcard question mark is real pattern syntax, not a literal.
    let qm = FilePattern::new("clip?.mp4").unwrap();
    assert!(compresscli::batch::file_is_selected(
        &qm, "clip1.mp4", "/d/clip1.mp4", true, false
    ));
    assert!(!compresscli::batch::file_is_selected(
        &qm, "clip12.mp4", "/d/clip12.mp4", true, false
    ));
}

#[test]
fn malformed_patterns_abort_the_batch() {
    // A well-formed pattern compiles; only a malformed one is refused.
    assert!(FilePattern::new("*.mp4").is_ok());
    let r = FilePattern::new("a[");
    assert!(matches!(
        r,
        Err(CompressError::InvalidParameter { ref parameter, .. }) if parameter == "pattern"
    ));
}

#[test]
fn batch_needs_at_least_one_category() {
    let params = BatchCommandParams {
        directory: "/media".to_string(),
        pattern: "*".to_string(),
        videos: false,
        images: false,
        recursive: false,
        video_preset: VideoPreset::Medium,
        image_quality: 85,
        jobs: 4,
        output_dir: None,
        overwrite: false,
    };
    let e = batch_options_from_params(params).unwrap_err();
    assert!(matches!(e, CompressError::Config { .. }));
}

#[test]
fn batch_job_snapshots_carry_the_batch_settings() {
    let options = BatchOptions {
        directory: "/media".to_string(),
        pattern: "*".to_string(),
        videos: true,
        images: true,
        recursive: true,
        video_preset: VideoPreset::Fast,
        image_quality: 70,
        jobs: 2,
        output_dir: Some("/out".to_string()),
        overwrite: true,
    };
    let v = video_options_for_batch("clip.mp4", &options);
    assert_eq!(v.input, "clip.mp4");
    assert!(matches!(v.preset, VideoPreset::Fast));
    assert_eq!(v.output_dir.as_deref(), Some("/out"));
    assert!(v.overwrite);
    assert!(!v.two_pass);

    let i = image_options_for_batch("pic.jpg", &options);
    assert_eq!(i.input, "pic.jpg");
    assert_eq!(i.quality, 70);
    assert!(i.optimize);
    assert!(!i.lossless);
}
