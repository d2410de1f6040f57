use raytracer::color::{channel_byte, Rgb8, CHANNEL_MAX};
use raytracer::image::{AspectRatio, ImageSize};
use raytracer::ppm::{encode, header, pixel_line, push_decimal, push_pixel, TAG_DIGIT, TAG_LETTER};

/// The format tag followed by `rest`.
fn tagged(rest: &[u8]) -> Vec<u8> {
    let mut v = vec![TAG_LETTER, TAG_DIGIT];
    v.extend_from_slice(rest);
    v
}

fn wide() -> AspectRatio {
    AspectRatio { horizontal: 16, vertical: 9 }
}

#[test]
fn height_of_400_wide_image_at_16_by_9() {
    let size = ImageSize::from_aspect(400, wide()).unwrap();
    assert_eq!(size, ImageSize { width: 400, height: 225 });
    assert_eq!(size.pixel_count(), 90000);
}

#[test]
fn height_rounds_to_nearest() {
    // 10 * 9 / 16 = 5.625
    assert_eq!(ImageSize::from_aspect(10, wide()).unwrap().height, 6);
    // 8 * 9 / 16 = 4.5, halves round up
    assert_eq!(ImageSize::from_aspect(8, wide()).unwrap().height, 5);
    // 20 * 9 / 16 = 11.25
    assert_eq!(ImageSize::from_aspect(20, wide()).unwrap().height, 11);
}

#[test]
fn height_is_at_least_one_row() {
    assert_eq!(ImageSize::from_aspect(0, wide()).unwrap().height, 1);
    let flat = AspectRatio { horizontal: 1000, vertical: 1 };
    assert_eq!(ImageSize::from_aspect(3, flat).unwrap().height, 1);
}

#[test]
fn height_that_does_not_fit_is_refused() {
    let tall = AspectRatio { horizontal: 1, vertical: 2 };
    assert_eq!(ImageSize::from_aspect(u32::MAX, tall), None);
    let square = AspectRatio { horizontal: 1, vertical: 1 };
    assert_eq!(
        ImageSize::from_aspect(u32::MAX, square),
        Some(ImageSize { width: u32::MAX, height: u32::MAX })
    );
}

#[test]
fn pixels_are_visited_row_by_row() {
    let size = ImageSize { width: 400, height: 225 };
    assert_eq!(size.pixel_at(0), (0, 0));
    assert_eq!(size.pixel_at(1), (1, 0));
    assert_eq!(size.pixel_at(399), (399, 0));
    assert_eq!(size.pixel_at(400), (0, 1));
    assert_eq!(size.pixel_at(89999), (399, 224));
}

#[test]
fn every_pixel_is_visited_once() {
    let size = ImageSize { width: 7, height: 3 };
    let mut seen = vec![false; 21];
    for i in 0..size.pixel_count() {
        let (col, row) = size.pixel_at(i);
        let k = (row * 7 + col) as usize;
        assert!(!seen[k]);
        seen[k] = true;
    }
    assert!(seen.iter().all(|s| *s));
}

#[test]
fn channel_above_maximum_is_clamped() {
    assert_eq!(channel_byte(256), 255);
    assert_eq!(channel_byte(300), 255);
    assert_eq!(channel_byte(1_000_000), 255);
    assert_eq!(channel_byte(i64::MAX), 255);
    assert_eq!(CHANNEL_MAX, 255);
}

#[test]
fn channel_in_range_is_kept() {
    assert_eq!(channel_byte(0), 0);
    assert_eq!(channel_byte(1), 1);
    assert_eq!(channel_byte(127), 127);
    assert_eq!(channel_byte(255), 255);
}

#[test]
fn channel_below_zero_is_zero() {
    assert_eq!(channel_byte(-1), 0);
    assert_eq!(channel_byte(i64::MIN), 0);
}

#[test]
fn channels_scaled_from_unit_colour_values() {
    let scale = 255.999f64;
    let full = (1.0f64 * scale) as i64;
    let half = (0.5f64 * scale) as i64;
    let over = (1.5f64 * scale) as i64;
    assert_eq!(Rgb8::from_scaled(full, half, 0), Rgb8 { r: 255, g: 127, b: 0 });
    assert_eq!(Rgb8::from_scaled(over, -3, 255), Rgb8 { r: 255, g: 0, b: 255 });
}

#[test]
fn red_pixel_is_written_as_255_0_0() {
    let scale = 255.999f64;
    let red = Rgb8::from_scaled((1.0f64 * scale) as i64, 0, 0);
    assert_eq!(pixel_line(red), b"255 0 0\n".to_vec());
}

#[test]
fn pixel_lines() {
    assert_eq!(pixel_line(Rgb8::new(0, 0, 0)), b"0 0 0\n".to_vec());
    assert_eq!(pixel_line(Rgb8::new(127, 178, 255)), b"127 178 255\n".to_vec());
    assert_eq!(pixel_line(Rgb8::new(9, 10, 100)), b"9 10 100\n".to_vec());
}

#[test]
fn decimal_digits() {
    let mut out = b"x".to_vec();
    push_decimal(&mut out, 0);
    assert_eq!(out, b"x0".to_vec());
    let mut out = Vec::new();
    push_decimal(&mut out, 4294967295);
    assert_eq!(out, b"4294967295".to_vec());
    let mut out = Vec::new();
    push_decimal(&mut out, 1000);
    assert_eq!(out, b"1000".to_vec());
}

#[test]
fn push_pixel_appends() {
    let mut out = tagged(b"\n");
    push_pixel(&mut out, Rgb8::new(1, 22, 133));
    assert_eq!(out, tagged(b"\n1 22 133\n"));
}

#[test]
fn header_of_400_by_225() {
    let size = ImageSize::from_aspect(400, wide()).unwrap();
    assert_eq!(header(size), tagged(b"\n400 225\n255\n"));
}

#[test]
fn small_document() {
    let size = ImageSize { width: 2, height: 1 };
    let pixels = vec![Rgb8::new(1, 2, 3), Rgb8::new(255, 255, 255)];
    assert_eq!(encode(size, &pixels), tagged(b"\n2 1\n255\n1 2 3\n255 255 255\n"));
}

#[test]
fn document_of_400_wide_image() {
    let size = ImageSize::from_aspect(400, wide()).unwrap();
    let n = size.pixel_count() as usize;
    let pixels = vec![Rgb8::new(0, 0, 0); n];
    let doc = encode(size, &pixels);
    let text = String::from_utf8(doc).unwrap();
    let lines: Vec<&str> = text.lines().collect();
    assert_eq!(lines[0].as_bytes(), tagged(b"").as_slice());
    assert_eq!(lines[1], "400 225");
    assert_eq!(lines[2], "255");
    assert_eq!(lines.len() - 3, 90000);
    assert_eq!(text.bytes().filter(|b| *b == b'\n').count(), 90003);
}

#[test]
fn format_tag_is_plain_text_colour() {
    assert_eq!(TAG_LETTER, b'P');
    assert_eq!(TAG_DIGIT, b'3');
}
