//! The size of a resized image: a missing dimension follows from the given
//! one and the aspect ratio of the source.

use crate::codec::{
    can_resample, clone_image, height_of, raster_of, resample, resampled, width_of, Raster,
    ResampleFilter,
};
use image::DynamicImage;
use vstd::prelude::*;

verus! {

/// `given * other / base`, the fraction dropped: the dimension that goes
/// with `given` where the source measures `base` along the given axis and
/// `other` along the missing one.
pub open spec fn scaled_dimension(given: nat, other: nat, base: nat) -> nat
    recommends
        base > 0,
{
    given * other / base
}

/// `given * other / base` rounded to the nearest whole number, a half going
/// up.
pub open spec fn rounded_dimension(given: nat, other: nat, base: nat) -> nat
    recommends
        base > 0,
{
    (2 * given * other + base) / (2 * base)
}

/// The size asked for of an image of `orig_w` by `orig_h`: the size it has
/// where nothing is asked, the two numbers where both are given, and where
/// one is given, that one and the other scaled to keep the aspect ratio.
pub open spec fn target_dimensions(
    orig_w: nat,
    orig_h: nat,
    width: Option<u32>,
    height: Option<u32>,
) -> (nat, nat) {
    match (width, height) {
        (None, None) => (orig_w, orig_h),
        (Some(w), None) => (w as nat, scaled_dimension(w as nat, orig_h, orig_w)),
        (None, Some(h)) => (scaled_dimension(h as nat, orig_w, orig_h), h as nat),
        (Some(w), Some(h)) => (w as nat, h as nat),
    }
}

/// Whether the asked size can be computed and held: where one dimension is
/// missing, the source must not be empty along the given axis, and the
/// scaled dimension must fit in 32 bits.
pub open spec fn has_target(orig_w: nat, orig_h: nat, width: Option<u32>, height: Option<u32>) -> bool {
    match (width, height) {
        (Some(w), None) => orig_w > 0 && scaled_dimension(w as nat, orig_h, orig_w) <= u32::MAX,
        (None, Some(h)) => orig_h > 0 && scaled_dimension(h as nat, orig_w, orig_h) <= u32::MAX,
        _ => true,
    }
}

/// Whether a resize request is one to act on: no dimension is asked to be 0.
pub open spec fn valid_request(width: Option<u32>, height: Option<u32>) -> bool {
    width != Some(0u32) && height != Some(0u32)
}

/// Whether a resize request asks for anything.
pub open spec fn wants_resize(width: Option<u32>, height: Option<u32>) -> bool {
    width is Some || height is Some
}

/// With nothing asked, the size stays what it is.
pub proof fn lemma_no_request_keeps_size(orig_w: nat, orig_h: nat)
    ensures
        target_dimensions(orig_w, orig_h, None, None) == (orig_w, orig_h),
        has_target(orig_w, orig_h, None, None),
{
}

/// With both dimensions asked, they are taken as they are, whatever the
/// aspect ratio of the source.
pub proof fn lemma_both_given_are_exact(orig_w: nat, orig_h: nat, w: u32, h: u32)
    ensures
        target_dimensions(orig_w, orig_h, Some(w), Some(h)) == (w as nat, h as nat),
        has_target(orig_w, orig_h, Some(w), Some(h)),
{
}

/// The scaled dimension keeps the aspect ratio to within one pixel: scaled
/// back by the extent of the source it falls short of `given * other` by less
/// than that extent.
pub proof fn lemma_aspect_ratio_kept(given: nat, other: nat, base: nat)
    requires
        base > 0,
    ensures
        scaled_dimension(given, other, base) * base <= given * other,
        given * other < (scaled_dimension(given, other, base) + 1) * base,
{
    let n = given * other;
    assert(n == base * (n / base) + n % base) by (nonlinear_arith)
        requires
            base > 0,
    ;
    assert(0 <= n % base < base) by (nonlinear_arith)
        requires
            base > 0,
    ;
    assert((n / base) * base == base * (n / base)) by (nonlinear_arith);
    assert((n / base + 1) * base == base * (n / base) + base) by (nonlinear_arith);
}

/// Dropping the fraction is at most one below rounding, and never above it.
pub proof fn lemma_truncation_near_rounding(given: nat, other: nat, base: nat)
    requires
        base > 0,
    ensures
        scaled_dimension(given, other, base) <= rounded_dimension(given, other, base),
        rounded_dimension(given, other, base) <= scaled_dimension(given, other, base) + 1,
{
    let n = given * other;
    let q = n / base;
    lemma_aspect_ratio_kept(given, other, base);
    assert(2 * given * other == 2 * n) by (nonlinear_arith)
        requires
            n == given * other,
    ;
    let m = 2 * n + base;
    let d = 2 * base;
    // q * d <= m < (q + 2) * d
    assert(q * d == 2 * (q * base)) by (nonlinear_arith)
        requires
            d == 2 * base,
    ;
    assert((q + 2) * d == 2 * ((q + 1) * base) + 2 * base) by (nonlinear_arith)
        requires
            d == 2 * base,
    ;
    assert(m / d >= q) by (nonlinear_arith)
        requires
            q * d <= m,
            d > 0,
            q >= 0,
    ;
    assert(m / d < q + 2) by (nonlinear_arith)
        requires
            m < (q + 2) * d,
            d > 0,
            m >= 0,
    ;
}

/// Whether a resize request is one to act on.
pub fn is_valid_request(width: Option<u32>, height: Option<u32>) -> (valid: bool)
    ensures
        valid == valid_request(width, height),
{
    let w_zero = match width {
        Some(w) => w == 0,
        None => false,
    };
    let h_zero = match height {
        Some(h) => h == 0,
        None => false,
    };
    !w_zero && !h_zero
}

/// `given * other / base` where `base` is not 0 and the result fits in 32
/// bits.
pub fn scale_dimension(given: u32, other: u32, base: u32) -> (scaled: Option<u32>)
    ensures
        match scaled {
            Some(s) => base > 0 && s == scaled_dimension(given as nat, other as nat, base as nat),
            None => base == 0 || scaled_dimension(given as nat, other as nat, base as nat)
                > u32::MAX,
        },
{
    if base == 0 {
        return None;
    }
    assert(given * other <= u32::MAX * u32::MAX) by (nonlinear_arith)
        requires
            given <= u32::MAX,
            other <= u32::MAX,
    ;
    let product: u64 = (given as u64) * (other as u64);
    let quotient: u64 = product / (base as u64);
    if quotient > u32::MAX as u64 {
        None
    } else {
        Some(quotient as u32)
    }
}

/// The size asked for of an image of `orig_w` by `orig_h`, or `None` where
/// it cannot be computed or held.
pub fn resize_dimensions(orig_w: u32, orig_h: u32, width: Option<u32>, height: Option<u32>) -> (target:
    Option<(u32, u32)>)
    ensures
        target is Some <==> has_target(orig_w as nat, orig_h as nat, width, height),
        target matches Some((w, h)) ==> (w as nat, h as nat) == target_dimensions(
            orig_w as nat,
            orig_h as nat,
            width,
            height,
        ),
{
    match (width, height) {
        (None, None) => Some((orig_w, orig_h)),
        (Some(w), None) => match scale_dimension(w, orig_h, orig_w) {
            Some(h) => Some((w, h)),
            None => None,
        },
        (None, Some(h)) => match scale_dimension(h, orig_w, orig_h) {
            Some(w) => Some((w, h)),
            None => None,
        },
        (Some(w), Some(h)) => Some((w, h)),
    }
}

/// The image that a resize request makes of `src`: `src` itself where nothing
/// is asked, else an image of the asked size, resampled with the Lanczos
/// filter, in the layout of `src`.
pub open spec fn resized(src: Raster, width: Option<u32>, height: Option<u32>) -> Raster {
    if wants_resize(width, height) {
        let target = target_dimensions(src.width as nat, src.height as nat, width, height);
        Raster {
            layout: src.layout,
            width: target.0 as u32,
            height: target.1 as u32,
            samples: resampled(src, target.0 as u32, target.1 as u32, ResampleFilter::Lanczos3),
        }
    } else {
        src
    }
}

/// Whether a resize request can be carried out on `src`: it asks nothing, or
/// the asked size can be computed and the resampler can run for it.
pub open spec fn resizable(src: Raster, width: Option<u32>, height: Option<u32>) -> bool {
    wants_resize(width, height) ==> {
        let target = target_dimensions(src.width as nat, src.height as nat, width, height);
        &&& has_target(src.width as nat, src.height as nat, width, height)
        &&& can_resample(src.width, src.height, target.0 as u32, target.1 as u32)
    }
}

/// A request that asks nothing leaves every image as it is, and can always
/// be carried out.
pub proof fn lemma_resize_identity(src: Raster)
    ensures
        resizable(src, None, None),
        resized(src, None, None) == src,
{
}

/// Whether the resampler's buffers for a source `src_w` wide and a target of
/// `width` by `height` are within what one allocation holds.
fn buffers_fit(src_w: u32, width: u32, height: u32) -> (fit: bool)
    ensures
        fit == (16 * src_w * height <= isize::MAX && 16 * width * height <= isize::MAX),
{
    let limit: u128 = isize::MAX as u128;
    let h: u128 = height as u128;
    assert(16 * src_w * height <= 16 * u32::MAX * u32::MAX) by (nonlinear_arith)
        requires
            src_w <= u32::MAX,
            height <= u32::MAX,
    ;
    assert(16 * width * height <= 16 * u32::MAX * u32::MAX) by (nonlinear_arith)
        requires
            width <= u32::MAX,
            height <= u32::MAX,
    ;
    16 * (src_w as u128) * h <= limit && 16 * (width as u128) * h <= limit
}

/// Resizes `img` as asked. With neither dimension given the result holds
/// what `img` holds; with one, the other keeps the aspect ratio; with both,
/// they are taken as they are.
pub fn resize_image(img: &DynamicImage, width: Option<u32>, height: Option<u32>) -> (out:
    DynamicImage)
    requires
        resizable(raster_of(img), width, height),
    ensures
        raster_of(&out) == resized(raster_of(img), width, height),
        width is None && height is None ==> raster_of(&out) == raster_of(img),
{
    let asked = match (width, height) {
        (None, None) => false,
        _ => true,
    };
    if !asked {
        return clone_image(img);
    }
    let src_w = width_of(img);
    let src_h = height_of(img);
    match resize_dimensions(src_w, src_h, width, height) {
        Some((w, h)) => resample(img, w, h, ResampleFilter::Lanczos3),
        // Not reached: a request that can be carried out has a size.
        None => clone_image(img),
    }
}

/// Resizes `img` as asked where that can be done, and says so where not.
pub fn try_resize_image(img: &DynamicImage, width: Option<u32>, height: Option<u32>) -> (out:
    Option<DynamicImage>)
    ensures
        out is Some <==> resizable(raster_of(img), width, height),
        out matches Some(o) ==> raster_of(&o) == resized(raster_of(img), width, height),
{
    let asked = match (width, height) {
        (None, None) => false,
        _ => true,
    };
    if !asked {
        return Some(resize_image(img, width, height));
    }
    let src_w = width_of(img);
    let src_h = height_of(img);
    match resize_dimensions(src_w, src_h, width, height) {
        Some((w, h)) => {
            if src_w > 0 && src_h > 0 && buffers_fit(src_w, w, h) {
                Some(resize_image(img, width, height))
            } else {
                None
            }
        },
        None => None,
    }
}

} // verus!
