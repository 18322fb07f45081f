//! Compression in the same format: JPEG at a quality, PNG by lossless
//! optimisation. Both work in memory, from an image or a file's bytes to the
//! bytes of the new file, and report the sizes before and after.

use crate::codec::{
    encode_jpeg, jpeg_encoding, optimize_png, optimized_png, raster_of, Interlace, PngFilter,
    PngPolicy, Raster, Strip,
};
use crate::error::{ErrorKind, ErrorView, PipelineError};
use crate::quality::{DEFAULT_JPEG_QUALITY, MAX_JPEG_QUALITY};
use image::DynamicImage;
use vstd::prelude::*;

verus! {

/// The size of a file before and after.
#[derive(Clone, Copy, Debug, PartialEq, Eq, Structural)]
pub struct CompressionStats {
    pub input_size: u64,
    pub output_size: u64,
}

/// The compression ratio `1 - output / input` in millionths, the fraction of
/// a millionth dropped towards the smaller number. It is negative where the
/// output is longer than the input.
pub open spec fn ratio_ppm(input: nat, output: nat) -> int
    recommends
        input > 0,
{
    ((input - output) * 1_000_000) / (input as int)
}

/// The millionths are those of `1 - output / input`: multiplied back by the
/// input size they fall short of `(input - output) * 1_000_000` by less than
/// one input size.
pub proof fn lemma_ratio_is_one_minus_quotient(input: nat, output: nat)
    requires
        input > 0,
    ensures
        ratio_ppm(input, output) * input <= (input - output) * 1_000_000,
        (input - output) * 1_000_000 < (ratio_ppm(input, output) + 1) * input,
{
    let n = (input - output) * 1_000_000;
    let d = input as int;
    assert(n == d * (n / d) + n % d && 0 <= n % d < d) by (nonlinear_arith)
        requires
            d > 0,
    ;
    assert((n / d) * d == d * (n / d)) by (nonlinear_arith);
    assert((n / d + 1) * d == d * (n / d) + d) by (nonlinear_arith);
}

/// An output no longer than the input has a ratio from 0 to one million.
pub proof fn lemma_ratio_of_smaller_output(input: nat, output: nat)
    requires
        input > 0,
        output <= input,
    ensures
        0 <= ratio_ppm(input, output) <= 1_000_000,
{
    let n = (input - output) * 1_000_000;
    let d = input as int;
    assert(0 <= n <= d * 1_000_000) by (nonlinear_arith)
        requires
            n == (input - output) * 1_000_000,
            d == input,
            0 <= output <= input,
    ;
    assert(0 <= n / d <= 1_000_000) by (nonlinear_arith)
        requires
            0 <= n <= d * 1_000_000,
            d > 0,
    ;
}

impl CompressionStats {
    /// The compression ratio in millionths; none for an empty input, of
    /// which no ratio can be taken.
    pub fn compression_ratio_ppm(&self) -> (ratio: Option<i128>)
        ensures
            self.input_size == 0 <==> ratio is None,
            ratio matches Some(r) ==> r == ratio_ppm(self.input_size as nat, self.output_size as nat),
    {
        if self.input_size == 0 {
            return None;
        }
        let input: u128 = self.input_size as u128;
        let output: u128 = self.output_size as u128;
        if output <= input {
            let saved: u128 = (input - output) * 1_000_000;
            Some((saved / input) as i128)
        } else {
            let grown: u128 = (output - input) * 1_000_000;
            let whole: u128 = grown / input;
            let rest: u128 = grown % input;
            proof {
                let n = (input - output) * 1_000_000;
                let d = input as int;
                assert(n == -(grown as int)) by (nonlinear_arith)
                    requires
                        n == (input - output) * 1_000_000,
                        grown == (output - input) * 1_000_000,
                ;
                assert(grown == d * whole + rest && 0 <= rest < d) by (nonlinear_arith)
                    requires
                        whole == grown / input,
                        rest == grown % input,
                        d == input,
                        d > 0,
                ;
                if rest == 0 {
                    assert(n / d == -(whole as int)) by (nonlinear_arith)
                        requires
                            n == -(d * whole),
                            d > 0,
                    ;
                } else {
                    assert(n / d == -(whole as int) - 1) by (nonlinear_arith)
                        requires
                            n == -(d * whole + rest),
                            0 < rest < d,
                            d > 0,
                    ;
                }
            }
            if rest == 0 {
                Some(-(whole as i128))
            } else {
                Some(-(whole as i128) - 1)
            }
        }
    }
}

/// The bytes of a new file, and the sizes before and after.
#[derive(Debug)]
pub struct Compressed {
    pub bytes: Vec<u8>,
    pub stats: CompressionStats,
}

/// The quality the JPEG encoder is run with: the one given where it is at
/// most 100, the default where it is not.
pub open spec fn effective_quality(quality: u8) -> u8 {
    if quality <= MAX_JPEG_QUALITY {
        quality
    } else {
        DEFAULT_JPEG_QUALITY
    }
}

/// The strongest preset of the PNG optimiser.
pub const STRONGEST_PRESET: u8 = 6;

/// The settings of the PNG optimisation: the strongest preset, the five
/// standard row filters, transparent pixels free to change, chunks that do
/// not show dropped, interlacing removed, and every reduction of bit depth,
/// colour type, palette and grey scale tried.
pub open spec fn png_policy() -> PngPolicy {
    PngPolicy {
        preset: STRONGEST_PRESET,
        filters: [
            PngFilter::Unfiltered,
            PngFilter::Sub,
            PngFilter::Up,
            PngFilter::Average,
            PngFilter::Paeth,
        ],
        optimize_alpha: true,
        strip: Strip::Safe,
        interlace: Interlace::Remove,
        bit_depth_reduction: true,
        color_type_reduction: true,
        palette_reduction: true,
        grayscale_reduction: true,
    }
}

/// The settings of the PNG optimisation.
pub fn max_compression_policy() -> (policy: PngPolicy)
    ensures
        policy == png_policy(),
{
    PngPolicy {
        preset: STRONGEST_PRESET,
        filters: [
            PngFilter::Unfiltered,
            PngFilter::Sub,
            PngFilter::Up,
            PngFilter::Average,
            PngFilter::Paeth,
        ],
        optimize_alpha: true,
        strip: Strip::Safe,
        interlace: Interlace::Remove,
        bit_depth_reduction: true,
        color_type_reduction: true,
        palette_reduction: true,
        grayscale_reduction: true,
    }
}

/// What compressing an image as JPEG gives: the encoder's bytes at the
/// effective quality, with the size of the source file before and the
/// length of those bytes after; a codec failure with the encoder's words
/// where the encoder fails.
pub open spec fn jpeg_compressed(src: Raster, input_size: u64, quality: u8) -> Result<
    (Seq<u8>, CompressionStats),
    ErrorView,
> {
    match jpeg_encoding(src, effective_quality(quality)) {
        Ok(bytes) => Ok((bytes, CompressionStats { input_size, output_size: bytes.len() as u64 })),
        Err(text) => Err(ErrorView { kind: ErrorKind::Codec, reason: text }),
    }
}

/// What optimising a PNG file gives: the optimiser's bytes, with the length
/// of the file before and of those bytes after; a codec failure with the
/// optimiser's words where the optimiser fails.
pub open spec fn png_compressed(data: Seq<u8>) -> Result<(Seq<u8>, CompressionStats), ErrorView> {
    match optimized_png(data, png_policy()) {
        Ok(bytes) => Ok(
            (
                bytes,
                CompressionStats { input_size: data.len() as u64, output_size: bytes.len() as u64 },
            ),
        ),
        Err(text) => Err(ErrorView { kind: ErrorKind::Codec, reason: text }),
    }
}

/// Encodes `img` as JPEG. `input_size` is the size of the file the image
/// came from. A quality above 100 stands for the default. Fails with a
/// codec error, in the encoder's words, exactly where the encoder does.
pub fn compress_jpeg(img: &DynamicImage, input_size: u64, quality: u8) -> (res: Result<
    Compressed,
    PipelineError,
>)
    ensures
        match jpeg_compressed(raster_of(img), input_size, quality) {
            Ok((bytes, stats)) => res matches Ok(c) && c.bytes@ == bytes && c.stats == stats,
            Err(error) => res matches Err(e) && e@ == error,
        },
        res matches Ok(c) ==> c.stats.input_size == input_size && c.stats.output_size
            == c.bytes@.len(),
{
    let quality = if quality <= MAX_JPEG_QUALITY {
        quality
    } else {
        DEFAULT_JPEG_QUALITY
    };
    match encode_jpeg(img, quality) {
        Ok(bytes) => {
            let stats = CompressionStats { input_size, output_size: bytes.len() as u64 };
            Ok(Compressed { bytes, stats })
        },
        Err(reason) => Err(PipelineError { kind: ErrorKind::Codec, reason }),
    }
}

/// Optimises the PNG file `data` without changing its pixels. The result is
/// never longer than `data`. Fails with a codec error, in the optimiser's
/// words, exactly where the optimiser does.
pub fn compress_png(data: &[u8]) -> (res: Result<Compressed, PipelineError>)
    ensures
        match png_compressed(data@) {
            Ok((bytes, stats)) => res matches Ok(c) && c.bytes@ == bytes && c.stats == stats,
            Err(error) => res matches Err(e) && e@ == error,
        },
        res matches Ok(c) ==> c.stats.input_size == data@.len() && c.stats.output_size
            == c.bytes@.len() && c.stats.output_size <= c.stats.input_size,
{
    let policy = max_compression_policy();
    match optimize_png(data, &policy) {
        Ok(bytes) => {
            let stats = CompressionStats {
                input_size: data.len() as u64,
                output_size: bytes.len() as u64,
            };
            Ok(Compressed { bytes, stats })
        },
        Err(reason) => Err(PipelineError { kind: ErrorKind::Codec, reason }),
    }
}

} // verus!
