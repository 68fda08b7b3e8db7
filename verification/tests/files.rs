//! Tests of the path and file-name utilities.

use compresscli::files::{
    check_output_overwrite, generate_output_path, get_extension_lowercase, get_image_extensions,
    get_video_extensions, is_image_file, is_video_file, quote_path, validate_safe_path,
};

#[test]
fn test_quote_path() {
    // Test path without spaces
    assert_eq!(quote_path("/simple/path"), "/simple/path");

    // Test path with spaces
    let path_with_spaces = "/path with spaces/file.txt";
    let quoted = quote_path(path_with_spaces);
    assert!(quoted.starts_with('\'') || quoted.starts_with('"'));
}

#[test]
fn quote_path_escapes_single_quotes() {
    let quoted = quote_path("/a dir/it's.mp4");
    assert_eq!(quoted, "'/a dir/it'\\''s.mp4'");
}

#[test]
fn test_validate_safe_path() {
    // Valid paths
    assert!(validate_safe_path("/valid/path").is_ok());
    assert!(validate_safe_path("relative/path").is_ok());

    // Invalid paths
    assert!(validate_safe_path("../dangerous").is_err());
    assert!(validate_safe_path("path\0null").is_err());
}

#[test]
fn test_get_extension_lowercase() {
    assert_eq!(get_extension_lowercase("file.TXT"), Some("txt".to_string()));
    assert_eq!(get_extension_lowercase("file.MP4"), Some("mp4".to_string()));
    assert_eq!(get_extension_lowercase("no_extension"), None);
}

#[test]
fn test_file_type_detection() {
    assert!(is_video_file("test.mp4"));
    assert!(is_video_file("test.MP4"));
    assert!(is_image_file("test.jpg"));
    assert!(is_image_file("test.PNG"));
    assert!(!is_video_file("test.txt"));
    assert!(!is_image_file("test.txt"));
}

#[test]
fn extension_lists_carry_both_cases() {
    let videos = get_video_extensions();
    assert_eq!(videos.len(), 20);
    assert!(videos.contains(&"mp4"));
    assert!(videos.contains(&"MP4"));
    let images = get_image_extensions();
    assert_eq!(images.len(), 16);
    assert!(images.contains(&"jpeg"));
    assert!(images.contains(&"GIF"));
}

#[test]
fn output_paths_are_built_from_their_parts() {
    assert_eq!(
        generate_output_path("/test/input.mp4", None, Some("_small"), Some("mkv")),
        "/test/input_small.mkv"
    );
    assert_eq!(
        generate_output_path("/test/input.mp4", Some("/out"), None, None),
        "/out/input.mp4"
    );
    assert_eq!(
        generate_output_path("clip.mov", None, Some("_x"), None),
        "clip_x.mov"
    );
}

#[test]
fn overwrite_is_refused_without_consent() {
    assert!(check_output_overwrite("out.mp4", false, false).is_ok());
    assert!(check_output_overwrite("out.mp4", true, true).is_ok());
    assert!(check_output_overwrite("out.mp4", true, false).is_err());
}
