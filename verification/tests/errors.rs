//! Tests of the error constructors and the dependency check.

use compresscli::error::CompressError;
use compresscli::sys::{check_command_available, check_ffmpeg_dependency, require_ffmpeg};

#[test]
fn constructors_build_their_variants() {
    assert!(matches!(
        CompressError::invalid_input("a.mp4"),
        CompressError::InvalidInput { path } if path == "a.mp4"
    ));
    assert!(matches!(
        CompressError::file_exists("out.mp4"),
        CompressError::FileExists { path } if path == "out.mp4"
    ));
    assert!(matches!(
        CompressError::invalid_parameter("crf", "99"),
        CompressError::InvalidParameter { parameter, value } if parameter == "crf" && value == "99"
    ));
    assert!(matches!(
        CompressError::missing_dependency("ffmpeg"),
        CompressError::MissingDependency { dependency } if dependency == "ffmpeg"
    ));
    assert!(matches!(
        CompressError::unsupported_format("avif"),
        CompressError::UnsupportedFormat { format } if format == "avif"
    ));
    assert!(matches!(
        CompressError::config("broken"),
        CompressError::Config { message } if message == "broken"
    ));
    assert!(matches!(
        CompressError::process_failed("join"),
        CompressError::ProcessFailed { command } if command == "join"
    ));
}

#[test]
fn availability_decides_the_dependency_result() {
    assert!(require_ffmpeg(true).is_ok());
    assert!(matches!(
        require_ffmpeg(false),
        Err(CompressError::MissingDependency { dependency }) if dependency == "ffmpeg"
    ));
}

#[test]
fn dependency_check_reports_the_missing_tool() {
    // Whether the encoder is installed depends on the machine; the check
    // either passes or names exactly the missing dependency.
    match check_ffmpeg_dependency() {
        Ok(()) => assert!(check_command_available("ffmpeg")),
        Err(e) => assert!(matches!(
            e,
            CompressError::MissingDependency { dependency } if dependency == "ffmpeg"
        )),
    }
}
