//! Trusted boundary around the `image` crate.
//!
//! The raster type is opaque to the rest of the library: its dimensions and
//! the values its operations return are given names here, and every wrapper
//! states over those names what the crate's own source shows. Everything
//! else in the library is verified against these contracts.

use vstd::prelude::*;
use crate::codec::PngCompressionTier;
use crate::geometry::Dims;

verus! {

#[verifier::external_type_specification]
#[verifier::external_body]
pub struct ExDynamicImage(image::DynamicImage);

/// The pixel width of a raster.
pub uninterp spec fn width_of(img: image::DynamicImage) -> u32;

/// The pixel height of a raster.
pub uninterp spec fn height_of(img: image::DynamicImage) -> u32;

/// The dimensions of a raster, as the geometry module speaks of them.
pub open spec fn spec_dims_of(img: image::DynamicImage) -> Dims {
    Dims { width: width_of(img), height: height_of(img) }
}

/// Relies on `image::DynamicImage::width`.
#[verifier::external_body]
pub fn image_width(img: &image::DynamicImage) -> (w: u32)
    ensures
        w == width_of(*img),
{
    img.width()
}

/// Relies on `image::DynamicImage::height`.
#[verifier::external_body]
pub fn image_height(img: &image::DynamicImage) -> (h: u32)
    ensures
        h == height_of(*img),
{
    img.height()
}

/// Relies on `image::DynamicImage::clone`: a value copy of the raster.
#[verifier::external_body]
pub fn clone_image(img: &image::DynamicImage) -> (r: image::DynamicImage)
    ensures
        r == *img,
{
    img.clone()
}

/// What `image::load_from_memory` decodes from these bytes; `None` stands
/// for its error. Decoding sniffs the container format from the bytes, so
/// the result is a function of the bytes alone.
pub uninterp spec fn decoded_image(bytes: Seq<u8>) -> Option<image::DynamicImage>;

/// Relies on `image::load_from_memory`: a pure, format-sniffing decode of
/// an in-memory byte buffer.
#[verifier::external_body]
pub fn load_image_from_vec(vec: &Vec<u8>) -> (r: Option<image::DynamicImage>)
    ensures
        r == decoded_image(vec@),
{
    match image::load_from_memory(vec) {
        Ok(dynamic_image) => Some(dynamic_image),
        Err(_) => None,
    }
}

/// What `DynamicImage::crop_imm` returns for this image and rectangle: a
/// function of the image value and the rectangle alone.
pub uninterp spec fn cropped_image(
    img: image::DynamicImage,
    x: u32,
    y: u32,
    w: u32,
    h: u32,
) -> image::DynamicImage;

/// Relies on `image::DynamicImage::crop_imm`: a rectangle that lies inside
/// the image is cut out at exactly its own size.
#[verifier::external_body]
pub fn crop_image_raw(img: &image::DynamicImage, x: u32, y: u32, w: u32, h: u32) -> (r:
    image::DynamicImage)
    requires
        x + w <= width_of(*img),
        y + h <= height_of(*img),
    ensures
        r == cropped_image(*img, x, y, w, h),
        width_of(r) == w,
        height_of(r) == h,
{
    img.crop_imm(x, y, w, h)
}

/// What `DynamicImage::resize_exact` returns for this image and target size
/// under the Catmull-Rom filter: a function of the image value and the
/// target size alone.
pub uninterp spec fn resized_image(img: image::DynamicImage, w: u32, h: u32) -> image::DynamicImage;

/// Relies on `image::DynamicImage::resize_exact` with the Catmull-Rom
/// (smooth, non-nearest-neighbor) filter: the result has exactly the
/// requested dimensions. This resize is downscale-only, so the result
/// buffer never outgrows the source.
#[verifier::external_body]
pub fn resize_image_raw(img: &image::DynamicImage, w: u32, h: u32) -> (r: image::DynamicImage)
    requires
        w <= width_of(*img),
        h <= height_of(*img),
    ensures
        r == resized_image(*img, w, h),
        width_of(r) == w,
        height_of(r) == h,
{
    img.resize_exact(w, h, image::imageops::FilterType::CatmullRom)
}

/// What the JPEG encoder writes for this image at this quality: a function
/// of the image value and the quality alone.
pub uninterp spec fn jpeg_encoding(img: image::DynamicImage, quality: u8) -> Seq<u8>;

/// Can the JPEG encoder accept this raster? Its frame header limits both
/// dimensions to 16 bits.
pub open spec fn spec_jpeg_encodable(img: image::DynamicImage) -> bool {
    1 <= width_of(img) <= 65535 && 1 <= height_of(img) <= 65535
}

/// Relies on `image::codecs::jpeg::JpegEncoder` through
/// `DynamicImage::write_with_encoder`: the image is first converted to a
/// JPEG-compatible color type, writing into a byte buffer cannot fail, and
/// encoding succeeds exactly when both dimensions lie in `[1, 65535]`.
#[verifier::external_body]
pub fn encode_jpeg(img: &image::DynamicImage, quality: u8) -> (r: Option<Vec<u8>>)
    ensures
        r matches Some(bytes) ==> bytes@ == jpeg_encoding(*img, quality),
        r is Some == spec_jpeg_encodable(*img),
{
    let mut out: Vec<u8> = Vec::new();
    let encoder = image::codecs::jpeg::JpegEncoder::new_with_quality(&mut out, quality);
    match img.write_with_encoder(encoder) {
        Ok(()) => Some(out),
        Err(_) => None,
    }
}

/// What the PNG encoder writes for this image at this compression-effort
/// tier, under the adaptive per-scanline filter: a function of the image
/// value and the tier alone.
pub uninterp spec fn png_encoding(img: image::DynamicImage, tier: PngCompressionTier) -> Seq<u8>;

/// Relies on `image::codecs::png::PngEncoder` through
/// `DynamicImage::write_with_encoder`, with the adaptive per-scanline
/// filter. The encoder can refuse a raster (an empty or unsupported one),
/// so success is not promised here.
#[verifier::external_body]
pub fn encode_png(img: &image::DynamicImage, tier: PngCompressionTier) -> (r: Option<Vec<u8>>)
    ensures
        r matches Some(bytes) ==> bytes@ == png_encoding(*img, tier),
{
    let compression = match tier {
        PngCompressionTier::Fast => image::codecs::png::CompressionType::Fast,
        PngCompressionTier::Best => image::codecs::png::CompressionType::Best,
        PngCompressionTier::Default => image::codecs::png::CompressionType::Default,
    };
    let mut out: Vec<u8> = Vec::new();
    let encoder = image::codecs::png::PngEncoder::new_with_quality(
        &mut out,
        compression,
        image::codecs::png::FilterType::Adaptive,
    );
    match img.write_with_encoder(encoder) {
        Ok(()) => Some(out),
        Err(_) => None,
    }
}

} // verus!
