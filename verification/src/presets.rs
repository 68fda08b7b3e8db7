//! The preset, codec and format vocabulary of the engine, with the
//! command-line names each value stands for.

use vstd::prelude::*;

verus! {

/// Built-in quality/speed trade-off presets for video encoding.
#[derive(Debug, Clone, Copy, PartialEq, Eq, Structural)]
pub enum VideoPreset {
    Fast,
    Medium,
    Slow,
    Ultrafast,
    Veryslow,
    Custom,
}

impl VideoPreset {
    /// The preset's lower-case name.
    pub open spec fn spec_name(&self) -> Seq<char> {
        match self {
            VideoPreset::Fast => "fast"@,
            VideoPreset::Medium => "medium"@,
            VideoPreset::Slow => "slow"@,
            VideoPreset::Ultrafast => "ultrafast"@,
            VideoPreset::Veryslow => "veryslow"@,
            VideoPreset::Custom => "custom"@,
        }
    }

    /// The preset's lower-case name.
    pub fn name(&self) -> (r: &'static str)
        ensures
            r@ == self.spec_name(),
    {
        match self {
            VideoPreset::Fast => "fast",
            VideoPreset::Medium => "medium",
            VideoPreset::Slow => "slow",
            VideoPreset::Ultrafast => "ultrafast",
            VideoPreset::Veryslow => "veryslow",
            VideoPreset::Custom => "custom",
        }
    }
}

/// Video codecs the engine can ask the external encoder for.
#[derive(Debug, Clone, Copy, PartialEq, Eq, Structural)]
pub enum VideoCodec {
    H264,
    H265,
    Vp9,
    Av1,
}

impl VideoCodec {
    /// The encoder library name passed on the command line.
    pub open spec fn spec_name(&self) -> Seq<char> {
        match self {
            VideoCodec::H264 => "libx264"@,
            VideoCodec::H265 => "libx265"@,
            VideoCodec::Vp9 => "libvpx-vp9"@,
            VideoCodec::Av1 => "libaom-av1"@,
        }
    }

    /// The encoder library name passed on the command line.
    pub fn name(&self) -> (r: &'static str)
        ensures
            r@ == self.spec_name(),
    {
        match self {
            VideoCodec::H264 => "libx264",
            VideoCodec::H265 => "libx265",
            VideoCodec::Vp9 => "libvpx-vp9",
            VideoCodec::Av1 => "libaom-av1",
        }
    }
}

/// Audio codecs the engine can ask the external encoder for.
#[derive(Debug, Clone, Copy, PartialEq, Eq, Structural)]
pub enum AudioCodec {
    Aac,
    Mp3,
    Opus,
    Copy,
}

impl AudioCodec {
    /// The encoder library name passed on the command line.
    pub open spec fn spec_name(&self) -> Seq<char> {
        match self {
            AudioCodec::Aac => "aac"@,
            AudioCodec::Mp3 => "libmp3lame"@,
            AudioCodec::Opus => "libopus"@,
            AudioCodec::Copy => "copy"@,
        }
    }

    /// The encoder library name passed on the command line.
    pub fn name(&self) -> (r: &'static str)
        ensures
            r@ == self.spec_name(),
    {
        match self {
            AudioCodec::Aac => "aac",
            AudioCodec::Mp3 => "libmp3lame",
            AudioCodec::Opus => "libopus",
            AudioCodec::Copy => "copy",
        }
    }
}

/// Image output formats.
#[derive(Debug, Clone, Copy, PartialEq, Eq, Structural)]
pub enum ImageFormat {
    Jpeg,
    Png,
    Webp,
    Avif,
}

impl ImageFormat {
    /// The format's file extension.
    pub open spec fn spec_name(&self) -> Seq<char> {
        match self {
            ImageFormat::Jpeg => "jpg"@,
            ImageFormat::Png => "png"@,
            ImageFormat::Webp => "webp"@,
            ImageFormat::Avif => "avif"@,
        }
    }

    /// The format's file extension.
    pub fn name(&self) -> (r: &'static str)
        ensures
            r@ == self.spec_name(),
    {
        match self {
            ImageFormat::Jpeg => "jpg",
            ImageFormat::Png => "png",
            ImageFormat::Webp => "webp",
            ImageFormat::Avif => "avif",
        }
    }
}

/// One preset-management request: list them, show one, create one from a
/// configuration file, or delete one.
#[derive(Debug)]
pub enum PresetAction {
    List,
    Show { name: String },
    Create { name: String, config: String },
    Delete { name: String },
}

} // verus!
