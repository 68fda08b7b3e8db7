//! Tests of the encoder and probe command builders.

use compresscli::command::{FFmpegCommandBuilder, FFprobeCommandBuilder};
use compresscli::presets::{AudioCodec, VideoCodec};
use compresscli::text::u64_to_dec;

#[test]
fn test_ffmpeg_command_builder() {
    let cmd = FFmpegCommandBuilder::new()
        .input("input.mp4")
        .unwrap()
        .output("output.mp4")
        .unwrap()
        .video_codec(VideoCodec::H264)
        .audio_codec(AudioCodec::Aac)
        .crf(23)
        .unwrap()
        .preset("medium")
        .overwrite()
        .build();

    let cmd_str = cmd.join(" ");
    assert!(cmd_str.contains("input.mp4"));
    assert!(cmd_str.contains("output.mp4"));
    assert!(cmd_str.contains("-c:v"));
    assert!(cmd_str.contains("-c:a"));
    assert!(cmd_str.contains("-crf"));
    assert!(cmd_str.contains("23"));
}

#[test]
fn test_invalid_crf() {
    let result = FFmpegCommandBuilder::new().crf(52);
    assert!(result.is_err());
}

#[test]
fn test_invalid_fps() {
    let result = FFmpegCommandBuilder::new().framerate(0);
    assert!(result.is_err());

    let result = FFmpegCommandBuilder::new().framerate(200);
    assert!(result.is_err());
}

#[test]
fn test_ffprobe_builder() {
    let cmd = FFprobeCommandBuilder::new()
        .input("test.mp4")
        .unwrap()
        .duration()
        .build();

    let cmd_str = cmd.join(" ");
    assert!(cmd_str.contains("test.mp4"));
    assert!(cmd_str.contains("-show_entries"));
    assert!(cmd_str.contains("format=duration"));
}

#[test]
fn builder_appends_arguments_in_order() {
    let args = FFmpegCommandBuilder::new()
        .input("in.mp4")
        .unwrap()
        .video_codec(VideoCodec::H265)
        .resolution("720p")
        .unwrap()
        .no_audio()
        .second_pass()
        .output("out.mp4")
        .unwrap()
        .build();
    assert_eq!(
        args,
        vec![
            "-i", "in.mp4", "-c:v", "libx265", "-vf", "scale=1280:720", "-an", "-pass", "2",
            "out.mp4"
        ]
    );
}

#[test]
fn trim_times_are_normalized_to_decimal_seconds() {
    let args = FFmpegCommandBuilder::new()
        .start_time("1:30")
        .unwrap()
        .duration("0.5")
        .unwrap()
        .build();
    assert_eq!(args, vec!["-ss", "90", "-t", "0.5"]);
}

#[test]
fn first_pass_discards_into_the_null_device() {
    let args = FFmpegCommandBuilder::new().first_pass().build();
    assert_eq!(args, vec!["-pass", "1", "-f", "null", "/dev/null"]);
}

#[test]
fn bitrates_need_a_digit() {
    assert!(FFmpegCommandBuilder::new().bitrate("1M").is_ok());
    assert!(FFmpegCommandBuilder::new().bitrate("fast").is_err());
    assert!(FFmpegCommandBuilder::new().audio_bitrate("128k").is_ok());
    assert!(FFmpegCommandBuilder::new().audio_bitrate("low").is_err());
}

#[test]
fn command_string_joins_for_logging() {
    let b = FFmpegCommandBuilder::new().overwrite();
    assert_eq!(b.command_string(), "ffmpeg -y");
}

#[test]
fn decimal_rendering_round_trips() {
    assert_eq!(u64_to_dec(0), "0");
    assert_eq!(u64_to_dec(51), "51");
    assert_eq!(u64_to_dec(18446744073709551615), "18446744073709551615");
}
