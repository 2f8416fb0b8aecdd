use emoji_resizer::transform::transform_static;
use image::{DynamicImage, ImageFormat, Rgba, RgbaImage};
use std::io::Cursor;

#[test]
fn format_hooks_of_the_process_do_not_change_decoding() {
    let mut picture = RgbaImage::new(40, 20);
    for (x, y, pixel) in picture.enumerate_pixels_mut() {
        *pixel = Rgba([(x % 256) as u8, (y % 256) as u8, 3, 255]);
    }
    let mut bytes: Vec<u8> = Vec::new();
    DynamicImage::ImageRgba8(picture)
        .write_to(&mut Cursor::new(&mut bytes), ImageFormat::Png)
        .unwrap();

    image::hooks::register_format_detection_hook("hooked".into(), b"\x89PNG", None);
    assert!(image::load_from_memory(&bytes).is_err());

    let still = transform_static(&bytes).unwrap();
    assert_eq!(still.source_size, (40, 20));
    assert_eq!(still.size, (160, 80));
}
