//! Image container formats, recognised from the leading bytes of a file.

use crate::codec::sniff;
use vstd::prelude::*;

verus! {

/// The formats the pipeline tells apart. Everything that is neither JPEG,
/// PNG nor WebP is `Unsupported`.
#[derive(Clone, Copy, Debug, PartialEq, Eq, Structural)]
pub enum ImageFormat {
    Jpeg,
    Png,
    WebP,
    Unsupported,
}

/// The eight bytes every PNG file begins with.
pub open spec fn png_signature() -> Seq<u8> {
    seq![0x89u8, 0x50u8, 0x4Eu8, 0x47u8, 0x0Du8, 0x0Au8, 0x1Au8, 0x0Au8]
}

/// The three bytes every JPEG file begins with.
pub open spec fn jpeg_signature() -> Seq<u8> {
    seq![0xFFu8, 0xD8u8, 0xFFu8]
}

/// The four bytes every RIFF container, and so every WebP file, begins with.
pub open spec fn riff_signature() -> Seq<u8> {
    seq![0x52u8, 0x49u8, 0x46u8, 0x46u8]
}

/// Whether `data` begins with `signature`.
pub open spec fn starts_with(data: Seq<u8>, signature: Seq<u8>) -> bool {
    data.len() >= signature.len() && data.subrange(0, signature.len() as int) == signature
}

/// The format that the leading bytes of a file show.
pub open spec fn sniffed_format(header: Seq<u8>) -> ImageFormat {
    if starts_with(header, png_signature()) {
        ImageFormat::Png
    } else if starts_with(header, jpeg_signature()) {
        ImageFormat::Jpeg
    } else if starts_with(header, riff_signature()) {
        ImageFormat::WebP
    } else {
        ImageFormat::Unsupported
    }
}

/// The format of a file, by its leading bytes and nothing else: PNG for the
/// PNG signature, JPEG for `FF D8 FF`, WebP for a RIFF container, and
/// `Unsupported` for everything else, the empty file included.
pub fn guess_image_format(header: &[u8]) -> (format: ImageFormat)
    ensures
        format == sniffed_format(header@),
{
    sniff(header)
}

} // verus!
