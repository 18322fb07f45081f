//! The codecs. Decoding, resampling and encoding are done by the `image` and
//! `oxipng` crates; this module is where they are called, and it states what
//! the rest of the library relies on. Nothing here is proved: each contract is
//! taken from the crate's source.

use crate::format::{sniffed_format, ImageFormat};
use image::DynamicImage;
use oxipng::{Interlacing, Options, RowFilter, StripChunks};
use vstd::prelude::*;

verus! {

#[verifier::external_type_specification]
#[verifier::external_body]
pub struct ExDynamicImage(image::DynamicImage);

/// How the samples of a pixel are laid out: the variants of `DynamicImage`.
#[derive(Clone, Copy, Debug, PartialEq, Eq, Structural)]
pub enum PixelLayout {
    Luma8,
    LumaA8,
    Rgb8,
    Rgba8,
    Luma16,
    LumaA16,
    Rgb16,
    Rgba16,
    Rgb32F,
    Rgba32F,
}

/// What a decoded image holds, as plain values.
pub struct Raster {
    pub layout: PixelLayout,
    pub width: u32,
    pub height: u32,
    pub samples: Seq<u8>,
}

/// The resampling filters of `image::imageops`.
#[derive(Clone, Copy, Debug, PartialEq, Eq, Structural)]
pub enum ResampleFilter {
    Nearest,
    Triangle,
    CatmullRom,
    Gaussian,
    Lanczos3,
}

/// The row filters that the PNG optimiser may try.
#[derive(Clone, Copy, Debug, PartialEq, Eq, Structural)]
pub enum PngFilter {
    Unfiltered,
    Sub,
    Up,
    Average,
    Paeth,
}

/// Which ancillary chunks the PNG optimiser drops.
#[derive(Clone, Copy, Debug, PartialEq, Eq, Structural)]
pub enum Strip {
    /// Keep every chunk.
    Nothing,
    /// Drop the chunks that do not change how the image is shown.
    Safe,
}

/// What the PNG optimiser does about interlacing.
#[derive(Clone, Copy, Debug, PartialEq, Eq, Structural)]
pub enum Interlace {
    /// Leave the image as it is.
    Keep,
    /// Write the image without interlacing.
    Remove,
}

/// The settings of one PNG optimisation: one of the optimiser's presets, 0
/// the quickest and 6 the strongest, and what is set on top of it.
#[derive(Clone, Copy, Debug)]
pub struct PngPolicy {
    pub preset: u8,
    pub filters: [PngFilter; 5],
    pub optimize_alpha: bool,
    pub strip: Strip,
    pub interlace: Interlace,
    pub bit_depth_reduction: bool,
    pub color_type_reduction: bool,
    pub palette_reduction: bool,
    pub grayscale_reduction: bool,
}

/// The width of an image in pixels.
pub uninterp spec fn image_width(img: &DynamicImage) -> u32;

/// The height of an image in pixels.
pub uninterp spec fn image_height(img: &DynamicImage) -> u32;

/// The pixel layout of an image.
pub uninterp spec fn image_layout(img: &DynamicImage) -> PixelLayout;

/// The samples of an image, row by row, as bytes.
pub uninterp spec fn image_samples(img: &DynamicImage) -> Seq<u8>;

/// What `img` holds.
pub open spec fn raster_of(img: &DynamicImage) -> Raster {
    Raster {
        layout: image_layout(img),
        width: image_width(img),
        height: image_height(img),
        samples: image_samples(img),
    }
}

/// The image that `image::load_from_memory` reads from `data`, or the text
/// of the error it reports.
pub uninterp spec fn decoded(data: Seq<u8>) -> Result<Raster, Seq<char>>;

/// The samples that `DynamicImage::resize_exact` computes for `src` at the
/// given size and filter.
pub uninterp spec fn resampled(src: Raster, width: u32, height: u32, filter: ResampleFilter) -> Seq<
    u8,
>;

/// The bytes that `image`'s JPEG encoder writes for `src` at `quality`, or
/// the text of the error it reports.
pub uninterp spec fn jpeg_encoding(src: Raster, quality: u8) -> Result<Seq<u8>, Seq<char>>;

/// The bytes that `DynamicImage::write_to` writes for `src` in the format
/// that `image` knows the extension `ext` for. Where the encoder reports an
/// error, the text of that error; where `image` knows no format for `ext`, an
/// error without text.
pub uninterp spec fn encoding_for_extension(src: Raster, ext: Seq<char>) -> Result<
    Seq<u8>,
    Option<Seq<char>>,
>;

/// The bytes that `oxipng::optimize_from_memory` returns for the PNG file
/// `data` under `policy`, or the text of the error it reports.
pub uninterp spec fn optimized_png(data: Seq<u8>, policy: PngPolicy) -> Result<Seq<u8>, Seq<char>>;

/// Whether `DynamicImage::resize_exact` can run on an image of `src_w` by
/// `src_h` for a target of `width` by `height`: the source is not empty, and
/// neither the intermediate buffer (source width by target height) nor the
/// result, at 16 bytes a pixel, is more than one allocation holds.
pub open spec fn can_resample(src_w: u32, src_h: u32, width: u32, height: u32) -> bool {
    &&& src_w > 0
    &&& src_h > 0
    &&& 16 * src_w * height <= isize::MAX
    &&& 16 * width * height <= isize::MAX
}

/// `image::guess_format`. The crate compares the bytes with its table of
/// signatures, first match first; the PNG, JPEG and RIFF signatures are the
/// only entries that give PNG, JPEG and WebP, and no other entry begins like
/// one of them. Every other answer, and no answer, is `Unsupported`.
#[verifier::external_body]
pub(crate) fn sniff(header: &[u8]) -> (format: ImageFormat)
    ensures
        format == sniffed_format(header@),
{
    match image::guess_format(header) {
        Ok(image::ImageFormat::Png) => ImageFormat::Png,
        Ok(image::ImageFormat::Jpeg) => ImageFormat::Jpeg,
        Ok(image::ImageFormat::WebP) => ImageFormat::WebP,
        _ => ImageFormat::Unsupported,
    }
}

/// `image::load_from_memory`. Its result, the text of an error included,
/// depends on the bytes alone.
#[verifier::external_body]
pub(crate) fn decode(data: &[u8]) -> (res: Result<DynamicImage, String>)
    ensures
        match res {
            Ok(img) => decoded(data@) == Ok::<Raster, Seq<char>>(raster_of(&img)),
            Err(text) => decoded(data@) == Err::<Raster, Seq<char>>(text@),
        },
{
    match image::load_from_memory(data) {
        Ok(img) => Ok(img),
        Err(e) => Err(format!("{}", e)),
    }
}

/// `DynamicImage::width`.
#[verifier::external_body]
pub(crate) fn width_of(img: &DynamicImage) -> (w: u32)
    ensures
        w == image_width(img),
{
    img.width()
}

/// `DynamicImage::height`.
#[verifier::external_body]
pub(crate) fn height_of(img: &DynamicImage) -> (h: u32)
    ensures
        h == image_height(img),
{
    img.height()
}

/// `DynamicImage::clone`. The copy holds what `img` holds.
#[verifier::external_body]
pub(crate) fn clone_image(img: &DynamicImage) -> (copy: DynamicImage)
    ensures
        raster_of(&copy) == raster_of(img),
{
    img.clone()
}

/// `DynamicImage::resize_exact`. The result has the size asked for and the
/// layout of the source. The crate panics on an empty source and on buffers
/// beyond what an allocation holds; `can_resample` leaves those out.
#[verifier::external_body]
pub(crate) fn resample(img: &DynamicImage, width: u32, height: u32, filter: ResampleFilter) -> (out:
    DynamicImage)
    requires
        can_resample(image_width(img), image_height(img), width, height),
    ensures
        image_layout(&out) == image_layout(img),
        image_width(&out) == width,
        image_height(&out) == height,
        image_samples(&out) == resampled(raster_of(img), width, height, filter),
{
    let filter = match filter {
        ResampleFilter::Nearest => image::imageops::FilterType::Nearest,
        ResampleFilter::Triangle => image::imageops::FilterType::Triangle,
        ResampleFilter::CatmullRom => image::imageops::FilterType::CatmullRom,
        ResampleFilter::Gaussian => image::imageops::FilterType::Gaussian,
        ResampleFilter::Lanczos3 => image::imageops::FilterType::Lanczos3,
    };
    img.resize_exact(width, height, filter)
}

/// `JpegEncoder::new_with_quality` and `encode_image`, writing to memory.
/// The encoder takes every quality; an image too large for the format is an
/// error.
#[verifier::external_body]
pub(crate) fn encode_jpeg(img: &DynamicImage, quality: u8) -> (res: Result<Vec<u8>, String>)
    ensures
        match res {
            Ok(bytes) => jpeg_encoding(raster_of(img), quality) == Ok::<Seq<u8>, Seq<char>>(bytes@),
            Err(text) => jpeg_encoding(raster_of(img), quality) == Err::<Seq<u8>, Seq<char>>(text@),
        },
{
    let mut out = Vec::new();
    let mut encoder = image::codecs::jpeg::JpegEncoder::new_with_quality(&mut out, quality);
    match encoder.encode_image(img) {
        Ok(()) => Ok(out),
        Err(e) => Err(format!("{}", e)),
    }
}

/// `ImageFormat::from_extension` and `DynamicImage::write_to`, writing to
/// memory: the image in the format that goes with a file extension. An error
/// without text says that `image` knows no format for the extension.
#[verifier::external_body]
pub(crate) fn encode_for_extension(img: &DynamicImage, ext: &str) -> (res: Result<
    Vec<u8>,
    Option<String>,
>)
    ensures
        match res {
            Ok(bytes) => encoding_for_extension(raster_of(img), ext@) == Ok::<
                Seq<u8>,
                Option<Seq<char>>,
            >(bytes@),
            Err(Some(text)) => encoding_for_extension(raster_of(img), ext@) == Err::<
                Seq<u8>,
                Option<Seq<char>>,
            >(Some(text@)),
            Err(None) => encoding_for_extension(raster_of(img), ext@) == Err::<
                Seq<u8>,
                Option<Seq<char>>,
            >(None),
        },
{
    let format = match image::ImageFormat::from_extension(ext) {
        Some(format) => format,
        None => return Err(None),
    };
    let mut out = std::io::Cursor::new(Vec::new());
    match img.write_to(&mut out, format) {
        Ok(()) => Ok(out.into_inner()),
        Err(e) => Err(Some(format!("{}", e))),
    }
}

/// `oxipng::optimize_from_memory`, with the options of
/// `oxipng::Options::from_preset` and the fields of `policy` set in them.
/// Presets above 6 are the same as 6. The crate hands back the input itself
/// unless what it found is smaller, so the result is never longer than the
/// input.
#[verifier::external_body]
pub(crate) fn optimize_png(data: &[u8], policy: &PngPolicy) -> (res: Result<Vec<u8>, String>)
    ensures
        match res {
            Ok(bytes) => optimized_png(data@, *policy) == Ok::<Seq<u8>, Seq<char>>(bytes@) && (
            bytes@.len() < data@.len() || bytes@ == data@),
            Err(text) => optimized_png(data@, *policy) == Err::<Seq<u8>, Seq<char>>(text@),
        },
{
    let mut o = Options::from_preset(policy.preset);
    o.filter = policy.filters.iter().map(|f| match f {
        PngFilter::Unfiltered => RowFilter::None, PngFilter::Sub => RowFilter::Sub,
        PngFilter::Up => RowFilter::Up, PngFilter::Average => RowFilter::Average,
        PngFilter::Paeth => RowFilter::Paeth,
    }).collect();
    o.strip = match policy.strip { Strip::Nothing => StripChunks::None, Strip::Safe => StripChunks::Safe };
    o.interlace = match policy.interlace { Interlace::Keep => None, Interlace::Remove => Some(Interlacing::None) };
    o.optimize_alpha = policy.optimize_alpha;
    o.bit_depth_reduction = policy.bit_depth_reduction;
    o.color_type_reduction = policy.color_type_reduction;
    o.palette_reduction = policy.palette_reduction;
    o.grayscale_reduction = policy.grayscale_reduction;
    oxipng::optimize_from_memory(data, &o).map_err(|e| format!("{}", e))
}

} // verus!
