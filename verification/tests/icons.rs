use blackforge::icons::{shrink, IconError, SIDE};
use std::io::Cursor;

fn red_png(side: u32) -> Vec<u8> {
    let img = image::RgbaImage::from_pixel(side, side, image::Rgba([255, 0, 0, 255]));
    let mut bytes = Cursor::new(Vec::new());
    image::DynamicImage::ImageRgba8(img).write_to(&mut bytes, image::ImageFormat::Png).unwrap();
    bytes.into_inner()
}

#[test]
fn icons_become_square_textures() {
    let pixels = shrink(&red_png(256)).unwrap();
    assert_eq!(pixels.side, SIDE);
    assert_eq!(SIDE, 128);
    assert_eq!(pixels.rgba.len(), 128 * 128 * 4);
    assert_eq!(&pixels.rgba[0..4], &[255, 0, 0, 255]);
    assert_eq!(&pixels.rgba[pixels.rgba.len() - 4..], &[255, 0, 0, 255]);
}

#[test]
fn small_icons_grow_to_the_side() {
    let pixels = shrink(&red_png(4)).unwrap();
    assert_eq!(pixels.rgba.len(), 65536);
}

#[test]
fn other_bytes_are_no_icon() {
    assert_eq!(shrink(b"not a png").unwrap_err(), IconError::NotPng);
    assert_eq!(shrink(&[]).unwrap_err(), IconError::NotPng);
}
