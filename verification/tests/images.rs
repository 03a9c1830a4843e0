use image::{DynamicImage, GenericImageView, ImageFormat, Rgb, RgbImage};
use sherlock_desktop::llm::budget::estimate_image_tokens;
use sherlock_desktop::llm::image_prep::{
    extract_orientation, prepare_decoded, prepare_image_bytes, prepare_oriented, sent_unchanged,
};
use std::io::Cursor;

fn file_of(img: RgbImage, format: ImageFormat) -> Vec<u8> {
    let mut bytes = Cursor::new(Vec::new());
    img.write_to(&mut bytes, format).unwrap();
    bytes.into_inner()
}

#[test]
fn prepare_image_bytes_downscales_large_image() {
    let big = RgbImage::from_pixel(4000, 3000, Rgb([120, 60, 30]));
    let bytes = prepare_image_bytes(file_of(big, ImageFormat::Png), 1000);
    let out = image::load_from_memory(&bytes).unwrap();
    assert!(estimate_image_tokens(out.width(), out.height()) <= 1000);
    assert!(out.width() > out.height());
    assert_eq!((out.width(), out.height()), (1009, 756));
}

#[test]
fn prepare_image_bytes_keeps_small_image_untouched() {
    let small = RgbImage::from_pixel(640, 480, Rgb([1, 2, 3]));
    let original = file_of(small, ImageFormat::Png);
    let bytes = prepare_image_bytes(original.clone(), 1000);
    assert_eq!(bytes, original);
}

#[test]
fn prepare_image_bytes_passes_through_undecodable_files() {
    let bytes = prepare_image_bytes(b"definitely not an image".to_vec(), 1000);
    assert_eq!(bytes, b"definitely not an image");
}

#[test]
fn a_truncated_file_is_sent_as_it_is() {
    let mut original = file_of(
        RgbImage::from_pixel(300, 200, Rgb([9, 8, 7])),
        ImageFormat::Png,
    );
    original.truncate(60);
    assert_eq!(prepare_image_bytes(original.clone(), 10), original);
}

/// White but for a black top left corner.
fn marked() -> RgbImage {
    let mut img = RgbImage::from_pixel(64, 32, Rgb([255, 255, 255]));
    for x in 0..16 {
        for y in 0..16 {
            img.put_pixel(x, y, Rgb([0, 0, 0]));
        }
    }
    img
}

#[test]
fn orientations_are_applied() {
    let original = file_of(marked(), ImageFormat::Bmp);
    for (orientation, size, corner) in [
        (2, (64, 32), (60, 4)),
        (3, (64, 32), (60, 28)),
        (4, (64, 32), (4, 28)),
        (5, (32, 64), (4, 4)),
        (6, (32, 64), (28, 4)),
        (7, (32, 64), (28, 60)),
        (8, (32, 64), (4, 60)),
        (9, (64, 32), (4, 4)),
    ] {
        let bytes = prepare_oriented(original.clone(), orientation, 1000);
        assert_eq!(image::guess_format(&bytes).unwrap(), ImageFormat::Jpeg);
        let out = image::load_from_memory(&bytes).unwrap();
        assert_eq!(out.dimensions(), size, "orientation {orientation}");
        let (x, y) = corner;
        assert!(out.get_pixel(x, y).0[0] < 40, "orientation {orientation}");
    }
    assert_eq!(prepare_oriented(original.clone(), 0, 1000), original);
    assert_eq!(prepare_oriented(original.clone(), 1, 1000), original);
}

/// A JPEG file with an EXIF orientation.
fn oriented_file(exif: u8) -> Vec<u8> {
    let plain = file_of(marked(), ImageFormat::Jpeg);
    let mut bytes = plain[..2].to_vec();
    bytes.extend([0xff, 0xe1, 0, 34]);
    bytes.extend(b"Exif\0\0II*\0\x08\0\0\0\x01\0\x12\x01\x03\0\x01\0\0\0");
    bytes.extend([exif, 0, 0, 0, 0, 0, 0, 0]);
    bytes.extend(&plain[2..]);
    bytes
}

#[test]
fn the_orientation_is_read_from_the_file() {
    for exif in 1..=8 {
        assert_eq!(extract_orientation(&oriented_file(exif)), exif);
    }
    assert_eq!(extract_orientation(&oriented_file(0)), 1);
    assert_eq!(extract_orientation(&oriented_file(9)), 1);
    assert_eq!(extract_orientation(&file_of(marked(), ImageFormat::Png)), 1);
    assert_eq!(extract_orientation(b"definitely not an image"), 1);
    let turned = oriented_file(6);
    let bytes = prepare_image_bytes(turned.clone(), 1000);
    assert_eq!(bytes, prepare_oriented(turned, 6, 1000));
    let out = image::load_from_memory(&bytes).unwrap();
    assert_eq!(out.dimensions(), (32, 64));
    assert!(out.get_pixel(28, 4).0[0] < 40);
    let upright = oriented_file(1);
    assert_eq!(prepare_image_bytes(upright.clone(), 1000), upright);
}

#[test]
fn a_square_that_is_turned_is_encoded_again() {
    let square = RgbImage::from_pixel(40, 40, Rgb([10, 200, 30]));
    let original = file_of(square, ImageFormat::Png);
    let bytes = prepare_oriented(original, 3, 1000);
    assert_eq!(image::guess_format(&bytes).unwrap(), ImageFormat::Jpeg);
}

#[test]
fn a_long_line_that_jpeg_cannot_express_is_sent_as_it_is() {
    let line = DynamicImage::ImageRgb8(RgbImage::from_pixel(3_000_000, 1, Rgb([5, 5, 5])));
    let bytes = prepare_decoded(b"the original".to_vec(), line, 1, 49_000);
    assert_eq!(bytes, b"the original");
}

#[test]
fn a_thin_image_is_scaled_within_its_budget() {
    let thin = RgbImage::from_pixel(3136, 1, Rgb([90, 90, 90]));
    let bytes = prepare_image_bytes(file_of(thin, ImageFormat::Png), 9);
    let out = image::load_from_memory(&bytes).unwrap();
    assert_eq!(out.dimensions(), (252, 1));
}

#[test]
fn a_radiance_file_is_sent_as_it_is() {
    let mut original = b"#?RADIANCE\nFORMAT=32-bit_rle_rgbe\n\n-Y 1 +X 64\n".to_vec();
    original.extend([9, 9, 9, 9]);
    original.extend([1, 1, 1, 0].repeat(9));
    assert_eq!(prepare_image_bytes(original.clone(), 1), original);
    assert_eq!(prepare_oriented(original.clone(), 6, 1), original);
}

#[test]
fn turning_and_fitting_commute() {
    let original = file_of(
        RgbImage::from_pixel(400, 200, Rgb([10, 20, 30])),
        ImageFormat::Bmp,
    );
    let upright = image::load_from_memory(&prepare_oriented(original.clone(), 1, 20)).unwrap();
    let turned = image::load_from_memory(&prepare_oriented(original, 6, 20)).unwrap();
    assert_eq!(upright.dimensions(), (turned.height(), turned.width()));
    assert!(estimate_image_tokens(turned.width(), turned.height()) <= 20);
}

#[test]
fn the_header_decides_what_is_sent_unchanged() {
    assert!(sent_unchanged(None, 6, 1));
    assert!(sent_unchanged(Some((640, 480)), 0, 1000));
    assert!(sent_unchanged(Some((640, 480)), 1, 1000));
    assert!(!sent_unchanged(Some((640, 480)), 2, 1000));
    assert!(!sent_unchanged(Some((4000, 3000)), 1, 1000));
}

#[test]
fn a_size_that_jpeg_cannot_express_is_sent_as_it_is() {
    let thin = DynamicImage::ImageRgb8(RgbImage::from_pixel(70_000, 1, Rgb([5, 5, 5])));
    let bytes = prepare_decoded(b"the original".to_vec(), thin, 3, 100_000);
    assert_eq!(bytes, b"the original");
}

#[test]
fn the_quality_is_high() {
    let img = DynamicImage::ImageRgb8(marked());
    let mut expected = Cursor::new(Vec::new());
    let encoder = image::codecs::jpeg::JpegEncoder::new_with_quality(&mut expected, 90);
    img.write_with_encoder(encoder).unwrap();
    let bytes = prepare_decoded(Vec::new(), img, 1, 1000);
    assert_eq!(bytes, expected.into_inner());
}
