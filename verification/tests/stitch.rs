use std::io::Cursor;

use image::{ImageFormat, Rgba, RgbaImage};

use md2image::render::capture_plan;
use md2image::stitch::{blank_canvas, decode_png_rgba, encode_png, stitch_png_slice};
use md2image::AppError;

fn png_of(width: u32, height: u32, color: [u8; 4]) -> Vec<u8> {
    let image = RgbaImage::from_pixel(width, height, Rgba(color));
    let mut out = Cursor::new(Vec::new());
    image.write_to(&mut out, ImageFormat::Png).unwrap();
    out.into_inner()
}

fn decode(bytes: &[u8]) -> RgbaImage {
    image::load_from_memory_with_format(bytes, ImageFormat::Png)
        .unwrap()
        .into_rgba8()
}

#[test]
fn slices_are_stacked_into_one_image() {
    let width = 8;
    let plan = capture_plan(25, 10);
    assert_eq!(plan.len(), 3);
    let colors = [[255, 0, 0, 255], [0, 255, 0, 255], [0, 0, 255, 255]];
    let mut canvas = blank_canvas(width, 25);
    for (slice, color) in plan.iter().zip(colors) {
        let png = png_of(width, slice.height, color);
        let outcome = stitch_png_slice(&mut canvas, &png, width, slice.height, slice.offset, slice.offset);
        outcome.expect("slice fits in memory").expect("slice fits the image");
    }
    let stitched = decode(&encode_png(&canvas).unwrap());
    assert_eq!(stitched.dimensions(), (8, 25));
    for y in 0..25 {
        let expected = colors[(y / 10) as usize];
        for x in 0..8 {
            assert_eq!(stitched.get_pixel(x, y).0, expected);
        }
    }
}

#[test]
fn slices_of_another_size_are_resized() {
    let mut canvas = blank_canvas(10, 20);
    let png = png_of(5, 4, [9, 9, 9, 255]);
    stitch_png_slice(&mut canvas, &png, 10, 8, 12, 6).unwrap().unwrap();
    let stitched = decode(&encode_png(&canvas).unwrap());
    assert_eq!(stitched.get_pixel(0, 11).0, [0, 0, 0, 0]);
    assert_eq!(stitched.get_pixel(9, 12).0, [9, 9, 9, 255]);
    assert_eq!(stitched.get_pixel(3, 19).0, [9, 9, 9, 255]);
}

#[test]
fn a_slice_below_the_image_is_refused() {
    let mut canvas = blank_canvas(4, 4);
    let png = png_of(4, 3, [1, 2, 3, 4]);
    match stitch_png_slice(&mut canvas, &png, 4, 3, 2, 77) {
        Some(Err(AppError::Render(m))) => {
            assert!(m.starts_with("failed to stitch screenshot slice at y=77: "))
        }
        _ => panic!("expected a stitching error"),
    }
    let unchanged = decode(&encode_png(&canvas).unwrap());
    assert!(unchanged.pixels().all(|p| p.0 == [0, 0, 0, 0]));
}

#[test]
fn bytes_that_are_not_png_are_refused() {
    match decode_png_rgba(b"not a png") {
        Err(AppError::Render(m)) => assert!(m.starts_with("failed to decode screenshot PNG: ")),
        _ => panic!("expected a decode error"),
    }
    let mut canvas = blank_canvas(2, 2);
    assert!(matches!(
        stitch_png_slice(&mut canvas, b"junk", 2, 2, 0, 0),
        Some(Err(AppError::Render(_)))
    ));
}

#[test]
fn decoded_png_keeps_its_size() {
    let image = decode_png_rgba(&png_of(3, 7, [5, 6, 7, 8])).unwrap();
    let again = decode(&encode_png(&image).unwrap());
    assert_eq!(again.dimensions(), (3, 7));
    assert_eq!(again.get_pixel(2, 6).0, [5, 6, 7, 8]);
}

#[test]
fn blank_canvas_encodes_as_png() {
    let bytes = encode_png(&blank_canvas(2, 3)).unwrap();
    assert!(bytes.starts_with(&[0x89, b'P', b'N', b'G']));
    assert_eq!(decode(&bytes).dimensions(), (2, 3));
}

#[test]
fn encoded_png_decodes_to_the_same_image() {
    let mut canvas = blank_canvas(6, 5);
    let top = png_of(6, 2, [10, 20, 30, 40]);
    stitch_png_slice(&mut canvas, &top, 6, 2, 0, 0).unwrap().unwrap();
    let bytes = encode_png(&canvas).unwrap();
    let decoded = decode_png_rgba(&bytes).unwrap();
    assert_eq!(encode_png(&decoded).unwrap(), bytes);
    let image = decode(&bytes);
    assert_eq!(image.dimensions(), (6, 5));
    assert_eq!(image.get_pixel(5, 1).0, [10, 20, 30, 40]);
    assert_eq!(image.get_pixel(5, 2).0, [0, 0, 0, 0]);
}
