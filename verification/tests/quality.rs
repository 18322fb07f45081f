use image_compressor::quality::{resolve_jpeg_quality, DEFAULT_JPEG_QUALITY, MAX_JPEG_QUALITY};

#[test]
fn empty_text_gives_the_default() {
    assert_eq!(DEFAULT_JPEG_QUALITY, 75);
    assert_eq!(MAX_JPEG_QUALITY, 100);
    assert_eq!(resolve_jpeg_quality(""), 75);
    assert_eq!(resolve_jpeg_quality("\n"), 75);
    assert_eq!(resolve_jpeg_quality("   \t "), 75);
}

#[test]
fn numbers_in_range_are_taken() {
    assert_eq!(resolve_jpeg_quality("0"), 0);
    assert_eq!(resolve_jpeg_quality("1"), 1);
    assert_eq!(resolve_jpeg_quality("80"), 80);
    assert_eq!(resolve_jpeg_quality("100"), 100);
    assert_eq!(resolve_jpeg_quality("+7"), 7);
    assert_eq!(resolve_jpeg_quality("007"), 7);
    assert_eq!(resolve_jpeg_quality("0000000000000000000000100"), 100);
}

#[test]
fn white_space_around_the_number_is_ignored() {
    assert_eq!(resolve_jpeg_quality(" 42\n"), 42);
    assert_eq!(resolve_jpeg_quality("\t90\r\n"), 90);
    assert_eq!(resolve_jpeg_quality("\u{a0}55\u{3000}"), 55);
}

#[test]
fn quality_out_of_range_falls_back_to_default() {
    assert_eq!(resolve_jpeg_quality("150"), 75);
    assert_eq!(resolve_jpeg_quality("101"), 75);
    assert_eq!(resolve_jpeg_quality("255"), 75);
    assert_eq!(resolve_jpeg_quality("256"), 75);
    assert_eq!(resolve_jpeg_quality("1000"), 75);
    assert_eq!(resolve_jpeg_quality("99999999999999999999999999"), 75);
}

#[test]
fn malformed_text_falls_back_to_default() {
    assert_eq!(resolve_jpeg_quality("abc"), 75);
    assert_eq!(resolve_jpeg_quality("-1"), 75);
    assert_eq!(resolve_jpeg_quality("-0"), 75);
    assert_eq!(resolve_jpeg_quality("+"), 75);
    assert_eq!(resolve_jpeg_quality("++5"), 75);
    assert_eq!(resolve_jpeg_quality("5 0"), 75);
    assert_eq!(resolve_jpeg_quality("50%"), 75);
    assert_eq!(resolve_jpeg_quality("80.5"), 75);
    assert_eq!(resolve_jpeg_quality("٥٠"), 75);
}

#[test]
fn quality_agrees_with_the_standard_parser() {
    let texts = [
        "", " ", "0", "5", "75", "100", "101", "200", "255", "256", "300", "+1", "+100", "+101",
        "-5", "1e1", "0x10", " 12 ", "12 3", "00", "010", "+-1", "٣", "\u{2003}33\u{2003}", "9_9",
    ];
    for text in texts {
        let trimmed = text.trim();
        let expected = if trimmed.is_empty() {
            75
        } else {
            match trimmed.parse::<u8>() {
                Ok(q) if q <= 100 => q,
                _ => 75,
            }
        };
        assert_eq!(resolve_jpeg_quality(text), expected, "for {:?}", text);
    }
}

#[test]
fn every_quality_is_at_most_100() {
    for n in 0u32..400 {
        let q = resolve_jpeg_quality(&format!("{}", n));
        assert!(q <= 100);
        if n <= 100 {
            assert_eq!(q as u32, n);
        } else {
            assert_eq!(q, 75);
        }
    }
}
