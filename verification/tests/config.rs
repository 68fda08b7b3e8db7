//! Tests of the configuration and its preset stores.

use compresscli::config::{Config, ImagePresetConfig, VideoPresetConfig};
use compresscli::presets::{AudioCodec, VideoCodec, VideoPreset};

#[test]
fn test_config_loading() {
    let config = Config::default();
    assert!(!config.video_presets.is_empty());
    assert!(!config.image_presets.is_empty());
}

#[test]
fn default_config_has_the_builtin_presets() {
    let config = Config::default();
    assert_eq!(config.video_presets.len(), 5);
    assert_eq!(config.image_presets.len(), 3);
    assert!(config.default_settings.parallel_jobs >= 1);
    assert!(!config.default_settings.overwrite);

    let medium = config.get_video_preset(&VideoPreset::Medium).unwrap();
    assert!(matches!(medium.codec, VideoCodec::H264));
    assert_eq!(medium.crf, Some(23));
    assert_eq!(medium.audio_bitrate.as_deref(), Some("128k"));
    assert!(!medium.two_pass);

    let veryslow = config.get_video_preset(&VideoPreset::Veryslow).unwrap();
    assert!(matches!(veryslow.codec, VideoCodec::H265));
    assert_eq!(veryslow.crf, Some(18));
    assert!(veryslow.two_pass);

    let web = config.get_image_preset("web").unwrap();
    assert_eq!(web.quality, 85);
    assert!(web.progressive);

    let lossless = config.get_image_preset("lossless").unwrap();
    assert_eq!(lossless.quality, 100);
    assert!(lossless.lossless);
}

#[test]
fn unknown_presets_are_absent() {
    let config = Config::default();
    assert!(config.get_video_preset(&VideoPreset::Custom).is_none());
    assert!(config.get_image_preset("nope").is_none());
}

#[test]
fn presets_can_be_added_and_removed() {
    let mut config = Config::default();
    config.add_image_preset(
        "tiny".to_string(),
        ImagePresetConfig {
            quality: 10,
            optimize: true,
            progressive: false,
            lossless: false,
        },
    );
    assert_eq!(config.get_image_preset("tiny").unwrap().quality, 10);

    // Adding under the same name replaces.
    config.add_image_preset(
        "tiny".to_string(),
        ImagePresetConfig {
            quality: 20,
            optimize: false,
            progressive: false,
            lossless: false,
        },
    );
    assert_eq!(config.get_image_preset("tiny").unwrap().quality, 20);

    assert!(config.remove_image_preset("tiny"));
    assert!(config.get_image_preset("tiny").is_none());
    assert!(!config.remove_image_preset("tiny"));

    config.add_video_preset(
        "archive".to_string(),
        VideoPresetConfig {
            codec: VideoCodec::Av1,
            crf: Some(30),
            bitrate: None,
            audio_codec: AudioCodec::Opus,
            audio_bitrate: None,
            preset: "slow".to_string(),
            two_pass: true,
            extra_args: Vec::new(),
        },
    );
    assert!(config.remove_video_preset("archive"));
    assert!(!config.remove_video_preset("archive"));
}

#[test]
fn config_path_follows_the_directory_answer() {
    assert_eq!(
        Config::config_file_path(Some("/home/u/.config".to_string())).unwrap(),
        "/home/u/.config/compresscli/config.yaml"
    );
    assert!(matches!(
        Config::config_file_path(None),
        Err(compresscli::error::CompressError::Config { .. })
    ));
}

#[test]
fn codec_names_are_the_encoder_names() {
    assert_eq!(VideoCodec::H264.name(), "libx264");
    assert_eq!(VideoCodec::Vp9.name(), "libvpx-vp9");
    assert_eq!(AudioCodec::Mp3.name(), "libmp3lame");
    assert_eq!(AudioCodec::Copy.name(), "copy");
    assert_eq!(VideoPreset::Veryslow.name(), "veryslow");
}
