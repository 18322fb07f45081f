use image::{DynamicImage, GenericImageView, Rgb, RgbImage};
use image_compressor::resize::{
    is_valid_request, resize_dimensions, resize_image, scale_dimension, try_resize_image,
};

fn gradient(width: u32, height: u32) -> DynamicImage {
    DynamicImage::ImageRgb8(RgbImage::from_fn(width, height, |x, y| {
        Rgb([(x * 7 % 256) as u8, (y * 13 % 256) as u8, ((x + y) % 256) as u8])
    }))
}

#[test]
fn no_request_keeps_the_size() {
    assert_eq!(resize_dimensions(640, 480, None, None), Some((640, 480)));
    assert_eq!(resize_dimensions(0, 0, None, None), Some((0, 0)));
}

#[test]
fn both_dimensions_are_taken_as_given() {
    assert_eq!(resize_dimensions(640, 480, Some(100), Some(100)), Some((100, 100)));
    assert_eq!(resize_dimensions(640, 480, Some(1), Some(9999)), Some((1, 9999)));
    assert_eq!(resize_dimensions(0, 0, Some(5), Some(6)), Some((5, 6)));
}

#[test]
fn missing_height_keeps_the_aspect_ratio() {
    assert_eq!(resize_dimensions(640, 480, Some(320), None), Some((320, 240)));
    assert_eq!(resize_dimensions(640, 480, Some(100), None), Some((100, 75)));
    // 333 * 480 / 640 = 249.75, the fraction is dropped
    assert_eq!(resize_dimensions(640, 480, Some(333), None), Some((333, 249)));
    assert_eq!(resize_dimensions(1000, 1, Some(1), None), Some((1, 0)));
}

#[test]
fn missing_width_keeps_the_aspect_ratio() {
    assert_eq!(resize_dimensions(640, 480, None, Some(240)), Some((320, 240)));
    // 100 * 640 / 480 = 133.33
    assert_eq!(resize_dimensions(640, 480, None, Some(100)), Some((133, 100)));
    assert_eq!(resize_dimensions(3, 2, None, Some(1)), Some((1, 1)));
}

#[test]
fn scaled_dimension_is_within_one_of_the_rounded_one() {
    for (given, other, base) in [(333u32, 480u32, 640u32), (100, 640, 480), (7, 3, 5), (1, 1, 2), (999, 1000, 7)] {
        let scaled = scale_dimension(given, other, base).unwrap() as f64;
        let exact = given as f64 * other as f64 / base as f64;
        assert!((scaled - exact.round()).abs() <= 1.0);
        assert!(scaled <= exact && exact < scaled + 1.0);
    }
}

#[test]
fn dimensions_that_cannot_be_computed_give_nothing() {
    assert_eq!(resize_dimensions(0, 480, Some(100), None), None);
    assert_eq!(resize_dimensions(640, 0, None, Some(100)), None);
    assert_eq!(resize_dimensions(1, 1000, Some(u32::MAX), None), None);
    assert_eq!(scale_dimension(5, 5, 0), None);
    assert_eq!(scale_dimension(u32::MAX, u32::MAX, 1), None);
    assert_eq!(scale_dimension(u32::MAX, 1, 1), Some(u32::MAX));
    assert_eq!(scale_dimension(u32::MAX, u32::MAX, u32::MAX), Some(u32::MAX));
}

#[test]
fn a_request_for_zero_is_not_valid() {
    assert!(is_valid_request(None, None));
    assert!(is_valid_request(Some(1), None));
    assert!(is_valid_request(Some(10), Some(20)));
    assert!(!is_valid_request(Some(0), None));
    assert!(!is_valid_request(None, Some(0)));
    assert!(!is_valid_request(Some(0), Some(0)));
    assert!(!is_valid_request(Some(5), Some(0)));
}

#[test]
fn resize_without_a_request_is_the_identity() {
    let img = gradient(17, 9);
    let same = resize_image(&img, None, None);
    assert_eq!(same, img);
    assert_eq!(try_resize_image(&img, None, None), Some(img));
    let empty = DynamicImage::new_rgba8(0, 0);
    assert_eq!(try_resize_image(&empty, None, None), Some(empty));
}

#[test]
fn resize_by_width_scales_the_height() {
    let img = gradient(64, 48);
    let out = resize_image(&img, Some(32), None);
    assert_eq!(out.dimensions(), (32, 24));
    assert_eq!(out.color(), img.color());
    let out = try_resize_image(&img, Some(33), None).unwrap();
    assert_eq!(out.dimensions(), (33, 24));
}

#[test]
fn resize_by_height_scales_the_width() {
    let img = gradient(64, 48);
    let out = resize_image(&img, None, Some(12));
    assert_eq!(out.dimensions(), (16, 12));
}

#[test]
fn resize_to_both_dimensions_stretches() {
    let img = gradient(64, 48);
    let out = resize_image(&img, Some(10), Some(40));
    assert_eq!(out.dimensions(), (10, 40));
    let out = resize_image(&img, Some(128), Some(8));
    assert_eq!(out.dimensions(), (128, 8));
}

#[test]
fn resize_uses_the_lanczos_filter() {
    let img = gradient(64, 48);
    let out = resize_image(&img, Some(20), Some(10));
    let expected = img.resize_exact(20, 10, image::imageops::FilterType::Lanczos3);
    assert_eq!(out, expected);
    let nearest = img.resize_exact(20, 10, image::imageops::FilterType::Nearest);
    assert_ne!(out, nearest);
}

#[test]
fn resize_keeps_the_pixel_layout() {
    let img = DynamicImage::new_luma16(8, 8);
    let out = resize_image(&img, Some(4), None);
    assert_eq!(out.color(), image::ColorType::L16);
    assert_eq!(out.dimensions(), (4, 4));
}

#[test]
fn resize_to_an_empty_image_is_accepted() {
    let img = gradient(8, 8);
    let out = try_resize_image(&img, Some(4), Some(0)).unwrap();
    assert_eq!(out.dimensions(), (4, 0));
    let out = try_resize_image(&gradient(1000, 1), Some(1), None).unwrap();
    assert_eq!(out.dimensions(), (1, 0));
}

#[test]
fn what_cannot_be_resized_is_refused() {
    let empty = DynamicImage::new_rgb8(0, 5);
    assert_eq!(try_resize_image(&empty, Some(10), None), None);
    assert_eq!(try_resize_image(&empty, Some(10), Some(10)), None);
    let flat = DynamicImage::new_rgb8(5, 0);
    assert_eq!(try_resize_image(&flat, None, Some(10)), None);
    let img = gradient(1, 1000);
    assert_eq!(try_resize_image(&img, Some(u32::MAX), None), None);
    assert_eq!(try_resize_image(&gradient(2, 2), Some(u32::MAX), Some(u32::MAX)), None);
}
