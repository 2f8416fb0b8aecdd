use emoji_resizer::sniff::Classification;
use emoji_resizer::transform::{
    encode_outcome, transform, transform_static, TransformError, BOX_SIDE,
};
use image::{DynamicImage, ImageFormat, Rgb, RgbImage, Rgba, RgbaImage};
use std::io::Cursor;

fn png(width: u32, height: u32) -> Vec<u8> {
    let mut picture = RgbaImage::new(width, height);
    for (x, y, pixel) in picture.enumerate_pixels_mut() {
        *pixel = Rgba([(x % 256) as u8, (y % 256) as u8, ((x + y) % 256) as u8, 255]);
    }
    let mut out: Vec<u8> = Vec::new();
    DynamicImage::ImageRgba8(picture)
        .write_to(&mut Cursor::new(&mut out), ImageFormat::Png)
        .unwrap();
    out
}

fn jpeg(width: u32, height: u32) -> Vec<u8> {
    let mut picture = RgbImage::new(width, height);
    for (x, y, pixel) in picture.enumerate_pixels_mut() {
        *pixel = Rgb([(x % 256) as u8, (y % 256) as u8, 128]);
    }
    let mut out: Vec<u8> = Vec::new();
    DynamicImage::ImageRgb8(picture)
        .write_to(&mut Cursor::new(&mut out), ImageFormat::Jpeg)
        .unwrap();
    out
}

fn size_of(encoded: &[u8]) -> (u32, u32) {
    let picture = image::load_from_memory(encoded).unwrap();
    (picture.width(), picture.height())
}

#[test]
fn box_side_is_160() {
    assert_eq!(BOX_SIDE, 160);
}

#[test]
fn animated_assets_pass_through() {
    let bytes = b"RIFF\x12\x00\x00\x00WEBPANIM\x06\x00\x00\x00\x00\x00\x00\x00\x00\x00".to_vec();
    assert_eq!(transform(&bytes, Classification::Animated), Ok(bytes.clone()));
}

#[test]
fn animated_assets_are_not_decoded() {
    let junk = vec![1u8, 2, 3, 4, 5];
    assert_eq!(transform(&junk, Classification::Animated), Ok(junk.clone()));
    assert_eq!(transform(&[], Classification::Animated), Ok(Vec::new()));
}

#[test]
fn wide_png_is_fitted_into_the_box() {
    let out = transform(&png(500, 100), Classification::Static).unwrap();
    assert_ne!(out, png(500, 100));
    assert_eq!(image::guess_format(&out).unwrap(), ImageFormat::WebP);
    assert_eq!(size_of(&out), (160, 32));
}

#[test]
fn tall_png_is_fitted_into_the_box() {
    let out = transform(&png(100, 500), Classification::Static).unwrap();
    assert_eq!(size_of(&out), (32, 160));
}

#[test]
fn square_picture_fills_the_box() {
    let out = transform(&png(300, 300), Classification::Static).unwrap();
    assert_eq!(size_of(&out), (160, 160));
}

#[test]
fn picture_of_box_size_keeps_its_size() {
    let out = transform(&png(160, 160), Classification::Static).unwrap();
    assert_eq!(size_of(&out), (160, 160));
}

#[test]
fn small_picture_is_scaled_up_to_the_box() {
    let still = transform_static(&png(10, 20)).unwrap();
    assert_eq!(still.source_size, (10, 20));
    assert_eq!(still.size, (80, 160));
    assert_eq!(size_of(&still.bytes), (80, 160));
}

#[test]
fn shorter_side_is_rounded_to_a_whole_pixel() {
    let still = transform_static(&png(300, 100)).unwrap();
    assert_eq!(still.source_size, (300, 100));
    assert_eq!(still.size, (160, 53));
    let still = transform_static(&png(100, 301)).unwrap();
    assert_eq!(still.size, (53, 160));
}

#[test]
fn shorter_side_never_falls_below_one_pixel() {
    let still = transform_static(&png(1000, 1)).unwrap();
    assert_eq!(still.size, (160, 1));
    assert_eq!(size_of(&still.bytes), (160, 1));
}

#[test]
fn jpeg_sources_are_transformed_too() {
    let still = transform_static(&jpeg(320, 240)).unwrap();
    assert_eq!(still.source_size, (320, 240));
    assert_eq!(still.size, (160, 120));
    assert_eq!(image::guess_format(&still.bytes).unwrap(), ImageFormat::WebP);
}

#[test]
fn undecodable_bytes_are_a_decode_error() {
    assert_eq!(transform(b"not an image", Classification::Static), Err(TransformError::Decode));
    assert_eq!(transform(&[], Classification::Static), Err(TransformError::Decode));
    assert!(matches!(transform_static(b"not an image"), Err(TransformError::Decode)));
}

#[test]
fn truncated_png_is_a_decode_error() {
    let mut bytes = png(50, 50);
    bytes.truncate(40);
    assert_eq!(transform(&bytes, Classification::Static), Err(TransformError::Decode));
}

#[test]
fn encoder_failure_is_an_encode_error() {
    let failure = image::load_from_memory(&[]).unwrap_err();
    assert_eq!(encode_outcome(Err(failure)), Err(TransformError::Encode));
}

#[test]
fn encoder_success_is_passed_on() {
    assert_eq!(encode_outcome(Ok(vec![1u8, 2, 3])), Ok(vec![1u8, 2, 3]));
}

#[test]
fn tie_goes_to_a_nearest_pixel() {
    let still = transform_static(&png(192, 3)).unwrap();
    assert_eq!(still.size.0, 160);
    assert!(still.size.1 == 2 || still.size.1 == 3);
    assert_eq!(size_of(&still.bytes), still.size);
}

#[test]
fn sixteen_bit_sources_are_encoded() {
    let picture = image::ImageBuffer::<image::Rgb<u16>, Vec<u16>>::new(30, 60);
    let mut bytes: Vec<u8> = Vec::new();
    DynamicImage::ImageRgb16(picture)
        .write_to(&mut Cursor::new(&mut bytes), ImageFormat::Png)
        .unwrap();
    let still = transform_static(&bytes).unwrap();
    assert_eq!(still.source_size, (30, 60));
    assert_eq!(still.size, (80, 160));
    assert_eq!(size_of(&still.bytes), (80, 160));
}

#[test]
fn grey_sources_are_encoded() {
    let picture = image::GrayImage::new(64, 16);
    let mut bytes: Vec<u8> = Vec::new();
    DynamicImage::ImageLuma8(picture)
        .write_to(&mut Cursor::new(&mut bytes), ImageFormat::Png)
        .unwrap();
    let still = transform_static(&bytes).unwrap();
    assert_eq!(still.size, (160, 40));
}
