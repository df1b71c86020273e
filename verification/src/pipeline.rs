//! The per-image transform pipeline: decode, crop to the target aspect
//! ratio, bounded resize, then encode — in that order. Crop precedes resize,
//! so framing is decided against source pixels, never against already
//! downscaled ones.
//!
//! Every fallible step returns a typed result; the batch layer converts a
//! failure into a skipped outcome for that one file.

use vstd::prelude::*;
use crate::codec::{
    resolve_format, spec_format_extension, spec_png_tier, spec_resolve_format, png_tier,
    OutputFormat,
};
use crate::error::PipelineError;
use crate::geometry::{crop_rect_for, resize_dims, spec_crop, spec_resize, Dims};
use crate::imgops::{
    clone_image, crop_image_raw, cropped_image, decoded_image, encode_jpeg, encode_png,
    image_height, image_width, jpeg_encoding, load_image_from_vec, png_encoding, resize_image_raw,
    resized_image, spec_dims_of, spec_jpeg_encodable, height_of, width_of,
};
use crate::ratio::Ratio;
use vstd::string::*;

verus! {

/// The immutable per-run configuration, shared read-only by every worker.
#[derive(Debug)]
pub struct Config {
    /// Target crop ratio (width over height).
    pub aspect_ratio: Ratio,
    /// Number of files per scheduling batch.
    pub batch_size: usize,
    /// File extensions accepted as input.
    pub decode_extensions: Vec<String>,
    /// Output format label; `"original"` preserves each file's extension.
    pub encode_extension: String,
    /// Upper bound on output pixel width; never used to enlarge.
    pub max_width: u32,
    /// Quality in `[0, 100]`: lossy factor for JPEG, effort tier for PNG.
    pub quality: u8,
    /// Directory the source files come from.
    pub input_dir: String,
    /// Directory the transformed files are written to.
    pub output_dir: String,
}

impl Config {
    /// A usable configuration: positive ratio, positive batch size and
    /// width bound, quality within the scale.
    pub open spec fn valid(self) -> bool {
        self.aspect_ratio.valid() && self.batch_size >= 1 && self.max_width >= 1 && self.quality
            <= 100
    }

    /// Checks the configuration at startup; a configuration error is fatal
    /// before any scheduling begins.
    pub fn validate(&self) -> (r: bool)
        ensures
            r == self.valid(),
    {
        self.aspect_ratio.num >= 1 && self.aspect_ratio.den >= 1 && self.batch_size >= 1
            && self.max_width >= 1 && self.quality <= 100
    }
}

/// The in-memory result of one transformed image: the encoded bytes, the
/// transformed pixel dimensions, and the extension the output carries.
#[derive(Debug, PartialEq)]
pub struct EncodedOutput {
    pub bytes: Vec<u8>,
    pub width: u32,
    pub height: u32,
    pub extension: String,
}

/// What `crop_image` returns: the image itself when its ratio already
/// equals the target exactly (a behavioural no-op), otherwise the centered
/// cut-out whose rectangle the geometry module computes.
pub open spec fn spec_crop_image(img: image::DynamicImage, target: Ratio) -> Result<
    image::DynamicImage,
    PipelineError,
> {
    let d = spec_dims_of(img);
    if target.spec_eq_ratio(d.spec_ratio()) {
        Ok(img)
    } else {
        match spec_crop(d, target) {
            Ok(rect) => Ok(cropped_image(img, rect.x, rect.y, rect.width, rect.height)),
            Err(e) => Err(e),
        }
    }
}

/// Center-crops `img` to the target aspect ratio. `current` is the image's
/// exact current ratio, `width / height` as a rational.
pub fn crop_image(img: &image::DynamicImage, current: Ratio, target: Ratio) -> (r: Result<
    image::DynamicImage,
    PipelineError,
>)
    requires
        current == spec_dims_of(*img).spec_ratio(),
        spec_dims_of(*img).valid(),
        target.valid(),
    ensures
        r == spec_crop_image(*img, target),
        // A crop never enlarges and keeps at least one axis whole.
        r matches Ok(c) ==> width_of(c) <= width_of(*img) && height_of(c) <= height_of(*img),
        // An exactly matching ratio is a no-op: the image comes back unchanged.
        target.spec_eq_ratio(current) ==> r == Ok::<image::DynamicImage, PipelineError>(*img),
{
    let w = image_width(img);
    let h = image_height(img);
    let d = Dims { width: w, height: h };
    if target.eq_ratio(&current) {
        Ok(clone_image(img))
    } else {
        match crop_rect_for(d, current, target) {
            Ok(rect) => Ok(crop_image_raw(img, rect.x, rect.y, rect.width, rect.height)),
            Err(e) => Err(e),
        }
    }
}

/// What `resize_image` returns: the image itself when it is within the
/// width bound (never upscale), otherwise the exact-size resample at the
/// dimensions the geometry module computes.
pub open spec fn spec_resize_image(img: image::DynamicImage, max_width: u32) -> Result<
    image::DynamicImage,
    PipelineError,
> {
    let d = spec_dims_of(img);
    if d.width <= max_width {
        Ok(img)
    } else {
        match spec_resize(d, max_width) {
            Ok(nd) => Ok(resized_image(img, nd.width, nd.height)),
            Err(e) => Err(e),
        }
    }
}

/// Downscales `img` to at most `max_width` pixels of width, keeping the
/// (already cropped) aspect ratio; an image within the bound is returned
/// unchanged.
pub fn resize_image(img: &image::DynamicImage, max_width: u32) -> (r: Result<
    image::DynamicImage,
    PipelineError,
>)
    requires
        max_width >= 1,
    ensures
        r == spec_resize_image(*img, max_width),
        // No upscaling: a narrow enough image is returned unchanged.
        width_of(*img) <= max_width ==> r == Ok::<image::DynamicImage, PipelineError>(*img),
        r matches Ok(out) ==> width_of(out) <= max_width || width_of(out) == width_of(*img),
{
    let w = image_width(img);
    let h = image_height(img);
    if w <= max_width {
        Ok(clone_image(img))
    } else {
        match resize_dims(Dims { width: w, height: h }, max_width) {
            Ok(nd) => Ok(resize_image_raw(img, nd.width, nd.height)),
            Err(e) => Err(e),
        }
    }
}

/// The geometric part of the pipeline: crop to the target ratio, then
/// bounded resize, in that order. An image with an empty dimension is
/// refused as invalid geometry.
pub open spec fn spec_transform_image(img: image::DynamicImage, target: Ratio, max_width: u32) -> Result<
    image::DynamicImage,
    PipelineError,
> {
    if !spec_dims_of(img).valid() {
        Err(PipelineError::InvalidGeometry)
    } else {
        match spec_crop_image(img, target) {
            Ok(c) => spec_resize_image(c, max_width),
            Err(e) => Err(e),
        }
    }
}

/// Everything the pipeline promises of the outcome `r` for one file whose
/// decoded form is `img` and whose existing extension is `ext`.
///
/// The encoded bytes are pinned exactly, through the named results of the
/// decoder, the geometric operations and the encoders; for PNG the encoder
/// itself may still refuse a raster, which surfaces as `EncodeFailure`.
pub open spec fn spec_outcome_matches(
    img: Option<image::DynamicImage>,
    cfg: Config,
    ext: Seq<char>,
    r: Result<EncodedOutput, PipelineError>,
) -> bool {
    match img {
        None => r == Err::<EncodedOutput, PipelineError>(PipelineError::DecodeFailure),
        Some(im) => {
            let transformed = spec_transform_image(im, cfg.aspect_ratio, cfg.max_width);
            let format = spec_resolve_format(cfg.encode_extension@, ext);
            match transformed {
                Err(e) => r == Err::<EncodedOutput, PipelineError>(e),
                Ok(t) => match format {
                    Err(e) => r == Err::<EncodedOutput, PipelineError>(e),
                    Ok(f) => match r {
                        Ok(out) => {
                            &&& out.width == width_of(t)
                            &&& out.height == height_of(t)
                            &&& out.extension@ == spec_format_extension(f)
                            &&& match f {
                                OutputFormat::Png => out.bytes@ == png_encoding(
                                    t,
                                    spec_png_tier(cfg.quality),
                                ),
                                _ => spec_jpeg_encodable(t) && out.bytes@ == jpeg_encoding(
                                    t,
                                    cfg.quality,
                                ),
                            }
                        },
                        Err(e) => {
                            &&& e == PipelineError::EncodeFailure
                            &&& (f is Jpg || f is Jpeg) ==> !spec_jpeg_encodable(t)
                        },
                    },
                },
            }
        },
    }
}

/// Transforms one already decoded image end to end: crop, bounded resize,
/// codec dispatch, encode.
pub fn process_decoded(img: &image::DynamicImage, cfg: &Config, existing_extension: &str) -> (r:
    Result<EncodedOutput, PipelineError>)
    requires
        cfg.valid(),
    ensures
        spec_outcome_matches(Some(*img), *cfg, existing_extension@, r),
{
    let w = image_width(img);
    let h = image_height(img);
    if w < 1 || h < 1 {
        return Err(PipelineError::InvalidGeometry);
    }
    let current = Ratio { num: w, den: h };
    let cropped = match crop_image(img, current, cfg.aspect_ratio) {
        Ok(c) => c,
        Err(e) => {
            return Err(e);
        },
    };
    let transformed = match resize_image(&cropped, cfg.max_width) {
        Ok(t) => t,
        Err(e) => {
            return Err(e);
        },
    };
    let format = match resolve_format(cfg.encode_extension.as_str(), existing_extension) {
        Ok(f) => f,
        Err(e) => {
            return Err(e);
        },
    };
    let out_width = image_width(&transformed);
    let out_height = image_height(&transformed);
    let encoded = match format {
        OutputFormat::Png => encode_png(&transformed, png_tier(cfg.quality)),
        _ => encode_jpeg(&transformed, cfg.quality),
    };
    match encoded {
        Some(bytes) => Ok(
            EncodedOutput {
                bytes,
                width: out_width,
                height: out_height,
                extension: String::from_str(format.extension()),
            },
        ),
        None => Err(PipelineError::EncodeFailure),
    }
}

/// Transforms one possibly-decoded image in memory and returns the encoded
/// bytes with the transformed dimensions; a missing image (a failed decode)
/// is reported as a decode failure.
pub fn process_image_in_memory(image: &Option<image::DynamicImage>, cfg: &Config, existing_extension: &str) -> (r: Result<EncodedOutput, PipelineError>)
    requires
        cfg.valid(),
    ensures
        spec_outcome_matches(*image, *cfg, existing_extension@, r),
{
    match image {
        Some(img) => process_decoded(img, cfg, existing_extension),
        None => Err(PipelineError::DecodeFailure),
    }
}

/// Decodes one file's bytes and transforms the image end to end: the whole
/// per-file pipeline in memory.
pub fn process_file(bytes: &Vec<u8>, cfg: &Config, existing_extension: &str) -> (r: Result<
    EncodedOutput,
    PipelineError,
>)
    requires
        cfg.valid(),
    ensures
        spec_outcome_matches(decoded_image(bytes@), *cfg, existing_extension@, r),
{
    let img = load_image_from_vec(bytes);
    process_image_in_memory(&img, cfg, existing_extension)
}

} // verus!
