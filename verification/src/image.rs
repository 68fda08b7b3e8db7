//! The image job pipeline: applying a named preset, choosing the output
//! format and path, and planning resize and constraint transformations.
//! The pixel work itself is done by an external library; everything the
//! engine decides is here.

use vstd::prelude::*;

use crate::config::{opt_str_view, Config, DEFAULT_IMAGE_QUALITY};
use crate::error::CompressError;
use crate::files::{
    generate_output_path, lower_seq_of_extension, spec_generate_output_path, validate_safe_path,
};
use crate::command::spec_path_safe;
use crate::parser::{spec_split_dimensions, split_dimensions};
use crate::presets::ImageFormat;
use crate::text::str_eq;

verus! {

/// One image job's resolved options: an immutable snapshot taken when the
/// job is admitted.
#[derive(Debug)]
pub struct ImageCompressionOptions {
    pub input: String,
    pub output: Option<String>,
    pub quality: u8,
    pub format: Option<ImageFormat>,
    pub resize: Option<String>,
    pub max_width: Option<u32>,
    pub max_height: Option<u32>,
    pub optimize: bool,
    pub progressive: bool,
    pub lossless: bool,
    pub preset: Option<String>,
    pub output_dir: Option<String>,
    pub overwrite: bool,
}

/// Compresses image files by planning the transformations and the output
/// of each job.
pub struct ImageCompressor {
    pub config: Config,
    pub dry_run: bool,
    pub verbose: bool,
}

/// The output format implied by a file extension: known image extensions
/// map to their format, everything else falls back to JPEG.
pub open spec fn spec_format_for_extension(ext: Option<Seq<char>>) -> ImageFormat {
    match ext {
        Some(e) => if e == "jpg"@ || e == "jpeg"@ {
            ImageFormat::Jpeg
        } else if e == "png"@ {
            ImageFormat::Png
        } else if e == "webp"@ {
            ImageFormat::Webp
        } else if e == "avif"@ {
            ImageFormat::Avif
        } else {
            ImageFormat::Jpeg
        },
        None => ImageFormat::Jpeg,
    }
}

/// The output format of an image job: the explicitly requested format, or
/// else the one implied by the input's lower-cased extension.
pub open spec fn spec_output_format(o: &ImageCompressionOptions) -> ImageFormat {
    match o.format {
        Some(f) => f,
        None => spec_format_for_extension(lower_seq_of_extension(o.input@)),
    }
}

/// What parsing a `<width>x<height>` resize request yields: both numbers,
/// which must be positive; anything else is invalid.
pub open spec fn spec_parse_resize(s: Seq<char>) -> Option<(u32, u32)> {
    match spec_split_dimensions(s) {
        Some((w, h)) => if w > 0 && h > 0 {
            Some((w, h))
        } else {
            None
        },
        None => None,
    }
}

/// The dimensions an image ends up with: an explicit resize first, then
/// the maximum-width constraint scales both sides down proportionally,
/// then the maximum-height constraint caps the height.
pub open spec fn spec_target_dimensions(
    w: u32,
    h: u32,
    resized: Option<(u32, u32)>,
    max_width: Option<u32>,
    max_height: Option<u32>,
) -> (u32, u32) {
    let (w1, h1): (u32, u32) = match resized {
        Some(d) => d,
        None => (w, h),
    };
    let (w2, h2): (u32, u32) = match max_width {
        Some(mw) => if w1 > mw {
            (mw, ((h1 as int * mw as int) / (w1 as int)) as u32)
        } else {
            (w1, h1)
        },
        None => (w1, h1),
    };
    match max_height {
        Some(mh) => if h2 > mh {
            (w2, mh)
        } else {
            (w2, h2)
        },
        None => (w2, h2),
    }
}

impl ImageCompressor {
    /// Makes an image compressor over the given configuration.
    pub fn new(config: Config, dry_run: bool, verbose: bool) -> (c: Self)
        ensures
            c.config == config,
            c.dry_run == dry_run,
            c.verbose == verbose,
    {
        ImageCompressor { config, dry_run, verbose }
    }

    /// Applies the named preset, when one was requested, to the options:
    /// the preset's quality replaces a still-default quality, and each of
    /// the three flags is turned on when the preset turns it on. An
    /// unknown preset name is a configuration error and changes nothing.
    pub fn apply_preset_config(&self, options: &mut ImageCompressionOptions) -> (r: Result<
        (),
        CompressError,
    >)
        ensures
            final(options).input == old(options).input,
            final(options).output == old(options).output,
            final(options).format == old(options).format,
            final(options).resize == old(options).resize,
            final(options).max_width == old(options).max_width,
            final(options).max_height == old(options).max_height,
            final(options).preset == old(options).preset,
            final(options).output_dir == old(options).output_dir,
            final(options).overwrite == old(options).overwrite,
            old(options).preset is None ==> r is Ok && *final(options) == *old(options),
            old(options).preset matches Some(name) ==> ({
                if self.config.image_map().contains_key(name@) {
                    let p = self.config.image_map()[name@];
                    &&& r is Ok
                    &&& final(options).quality == (if old(options).quality
                        == DEFAULT_IMAGE_QUALITY {
                        p.quality
                    } else {
                        old(options).quality
                    })
                    &&& final(options).optimize == (old(options).optimize || p.optimize)
                    &&& final(options).progressive == (old(options).progressive
                        || p.progressive)
                    &&& final(options).lossless == (old(options).lossless || p.lossless)
                } else {
                    &&& r matches Err(e) && e is Config
                    &&& *final(options) == *old(options)
                }
            }),
    {
        let preset_name = match &options.preset {
            Some(name) => Some(name.clone()),
            None => None,
        };
        match preset_name {
            Some(name) => {
                match self.config.get_image_preset(name.as_str()) {
                    Some(preset) => {
                        let p = *preset;
                        if options.quality == DEFAULT_IMAGE_QUALITY {
                            options.quality = p.quality;
                        }
                        if !options.optimize {
                            options.optimize = p.optimize;
                        }
                        if !options.progressive {
                            options.progressive = p.progressive;
                        }
                        if !options.lossless {
                            options.lossless = p.lossless;
                        }
                        Ok(())
                    },
                    None => {
                        let mut message = "Image preset '".to_owned();
                        message.append(name.as_str());
                        message.append("' not found");
                        Err(CompressError::Config { message })
                    },
                }
            },
            None => Ok(()),
        }
    }

    /// The output format of the job, exactly as `spec_output_format`
    /// describes.
    pub fn determine_output_format(&self, options: &ImageCompressionOptions) -> (r: Result<
        ImageFormat,
        CompressError,
    >)
        ensures
            r matches Ok(f) && f == spec_output_format(options),
    {
        match options.format {
            Some(f) => Ok(f),
            None => {
                match crate::files::get_extension_lowercase(options.input.as_str()) {
                    Some(ext) => {
                        let e = ext.as_str();
                        if str_eq(e, "jpg") || str_eq(e, "jpeg") {
                            Ok(ImageFormat::Jpeg)
                        } else if str_eq(e, "png") {
                            Ok(ImageFormat::Png)
                        } else if str_eq(e, "webp") {
                            Ok(ImageFormat::Webp)
                        } else if str_eq(e, "avif") {
                            Ok(ImageFormat::Avif)
                        } else {
                            Ok(ImageFormat::Jpeg)
                        }
                    },
                    None => Ok(ImageFormat::Jpeg),
                }
            },
        }
    }

    /// The job's output path: the explicit output when one was given (it
    /// must be safe), otherwise the input's name with a `_compressed`
    /// suffix and the format's extension, in the chosen directory.
    pub fn generate_output_path(
        &self,
        options: &ImageCompressionOptions,
        format: &ImageFormat,
    ) -> (r: Result<String, CompressError>)
        ensures
            r is Ok <==> (match options.output {
                Some(out) => spec_path_safe(out@),
                None => true,
            }),
            r matches Ok(path) ==> path@ == (match options.output {
                Some(out) => out@,
                None => spec_generate_output_path(
                    options.input@,
                    opt_str_view(options.output_dir),
                    Some("_compressed"@),
                    Some(format.spec_name()),
                ),
            }),
            r matches Err(e) ==> e is InvalidParameter,
    {
        match &options.output {
            Some(out) => {
                match validate_safe_path(out.as_str()) {
                    Ok(()) => Ok(out.clone()),
                    Err(e) => Err(e),
                }
            },
            None => {
                let dir = match &options.output_dir {
                    Some(d) => Some(d.as_str()),
                    None => None,
                };
                let path = generate_output_path(
                    options.input.as_str(),
                    dir,
                    Some("_compressed"),
                    Some(format.name()),
                );
                Ok(path)
            },
        }
    }

    /// Parses a `<width>x<height>` resize request, exactly as
    /// `spec_parse_resize` describes; an unparsable or zero dimension is
    /// an invalid `resize` parameter.
    pub fn parse_resize_dimensions(&self, resize_str: &str) -> (r: Result<
        (u32, u32),
        CompressError,
    >)
        ensures
            r matches Ok(wh) ==> spec_parse_resize(resize_str@) == Some(wh),
            r matches Err(e) ==> spec_parse_resize(resize_str@) is None && e is InvalidParameter,
    {
        match split_dimensions(resize_str) {
            Some((w, h)) => {
                if w == 0 || h == 0 {
                    return Err(
                        CompressError::invalid_parameter(
                            "resize",
                            "Width and height must be greater than 0",
                        ),
                    );
                }
                Ok((w, h))
            },
            None => Err(CompressError::invalid_parameter("resize", resize_str)),
        }
    }

    /// Plans the job's transformations: the dimensions the image will be
    /// encoded at, exactly as `spec_target_dimensions` describes, from
    /// the current dimensions, the resize request, and the constraints.
    pub fn plan_transformations(
        &self,
        current_width: u32,
        current_height: u32,
        options: &ImageCompressionOptions,
    ) -> (r: Result<(u32, u32), CompressError>)
        ensures
            r matches Ok(wh) ==> ({
                &&& (options.resize matches Some(s) ==> spec_parse_resize(s@) is Some)
                &&& wh == spec_target_dimensions(
                    current_width,
                    current_height,
                    match options.resize {
                        Some(s) => spec_parse_resize(s@),
                        None => None,
                    },
                    options.max_width,
                    options.max_height,
                )
            }),
            r matches Err(e) ==> ({
                &&& options.resize matches Some(s) && spec_parse_resize(s@) is None
                &&& e is InvalidParameter
            }),
    {
        let resized: Option<(u32, u32)> = match &options.resize {
            Some(s) => {
                match self.parse_resize_dimensions(s.as_str()) {
                    Ok(d) => Some(d),
                    Err(e) => {
                        return Err(e);
                    },
                }
            },
            None => None,
        };
        let (w1, h1): (u32, u32) = match resized {
            Some(d) => d,
            None => (current_width, current_height),
        };
        let (w2, h2): (u32, u32) = match options.max_width {
            Some(mw) => {
                if w1 > mw {
                    proof {
                        assert(w1 > 0);
                        assert((h1 as int) * (mw as int) <= (u32::MAX as int) * (u32::MAX
                            as int)) by (nonlinear_arith)
                            requires
                                h1 <= u32::MAX,
                                mw <= u32::MAX,
                        ;
                    }
                    let scaled: u64 = (h1 as u64) * (mw as u64) / (w1 as u64);
                    proof {
                        lemma_scaled_fits(h1, mw, w1);
                    }
                    (mw, scaled as u32)
                } else {
                    (w1, h1)
                }
            },
            None => (w1, h1),
        };
        let out: (u32, u32) = match options.max_height {
            Some(mh) => {
                if h2 > mh {
                    (w2, mh)
                } else {
                    (w2, h2)
                }
            },
            None => (w2, h2),
        };
        Ok(out)
    }

    /// Checks that the engine can encode the chosen format: every format
    /// but AVIF can be saved.
    pub fn validate_save_format(&self, format: &ImageFormat) -> (r: Result<(), CompressError>)
        ensures
            r is Ok <==> *format != ImageFormat::Avif,
            r matches Err(e) ==> e is UnsupportedFormat,
    {
        match format {
            ImageFormat::Avif => Err(
                CompressError::unsupported_format(
                    "AVIF encoding not yet supported by the image library",
                ),
            ),
            _ => Ok(()),
        }
    }
}

/// Scaling a height by `mw / w1` with `mw < w1` cannot overflow a `u32`.
proof fn lemma_scaled_fits(h1: u32, mw: u32, w1: u32)
    requires
        w1 > mw,
    ensures
        (h1 as int) * (mw as int) / (w1 as int) <= u32::MAX,
        (h1 as int) * (mw as int) / (w1 as int) >= 0,
{
    assert((h1 as int) * (mw as int) / (w1 as int) <= h1) by (nonlinear_arith)
        requires
            w1 > mw,
            h1 >= 0,
            mw >= 0,
    ;
    assert((h1 as int) * (mw as int) >= 0) by (nonlinear_arith)
        requires
            h1 >= 0,
            mw >= 0,
    ;
}

} // verus!
