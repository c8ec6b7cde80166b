use embedded_graphics::prelude::{Point, Size};
use epd_waveshare::color::TriColor;
use esp_weather::icons::{
    convert_rgb565_to_binary, convert_rgb565_to_binary_with_threshold, DEFAULT_LUMINANCE_THRESHOLD,
};
use esp_weather::image_tri_color::{icon_image, ContiguousPixelsTriColor, ImageTriColor};

fn pixels(values: &[u16]) -> Vec<u8> {
    let mut out = Vec::new();
    for v in values {
        out.push((v >> 8) as u8);
        out.push((v & 0xFF) as u8);
    }
    out
}

fn image(data: Vec<u8>, width: u32, ink: TriColor, paper: TriColor) -> ImageTriColor {
    ImageTriColor { data, width, color: ink, background: paper, point: Point::new(0, 0) }
}

#[test]
fn eight_dark_pixels_decode_to_eight_ink_pixels() {
    let rgb = pixels(&[0x0000; 8]);
    let packed = convert_rgb565_to_binary(&rgb);
    assert_eq!(packed, vec![0x00]);
    let decoded = image(packed, 8, TriColor::Black, TriColor::White).pixels();
    assert_eq!(decoded, vec![TriColor::Black; 8]);
}

#[test]
fn light_pixel_sets_its_bit_in_the_group_byte() {
    // white: r = 31, g = 63, b = 31, luminance 49
    let rgb = pixels(&[0xFFFF, 0, 0, 0, 0, 0, 0, 0]);
    assert_eq!(convert_rgb565_to_binary(&rgb), vec![0x01]);
    let rgb = pixels(&[0, 0, 0, 0, 0, 0, 0, 0xFFFF]);
    assert_eq!(convert_rgb565_to_binary(&rgb), vec![0x80]);
}

#[test]
fn group_bytes_come_out_in_reverse_order() {
    let mut values = vec![0xFFFFu16; 8];
    values.extend_from_slice(&[0x0000; 8]);
    values.extend_from_slice(&[0xFFFF, 0, 0, 0, 0, 0, 0, 0]);
    let packed = convert_rgb565_to_binary(&pixels(&values));
    assert_eq!(packed, vec![0x01, 0x00, 0xFF]);
}

#[test]
fn short_last_group_leaves_missing_bits_clear() {
    let packed = convert_rgb565_to_binary(&pixels(&[0xFFFF; 11]));
    assert_eq!(packed, vec![0x07, 0xFF]);
}

#[test]
fn empty_bitmap_packs_to_nothing() {
    assert_eq!(convert_rgb565_to_binary(&[]), Vec::<u8>::new());
}

#[test]
fn threshold_is_configurable() {
    // mid grey: r = 16, g = 32, b = 16, luminance 25
    let rgb = pixels(&[0x8410; 8]);
    assert_eq!(convert_rgb565_to_binary_with_threshold(&rgb, 20), vec![0xFF]);
    assert_eq!(convert_rgb565_to_binary_with_threshold(&rgb, 25), vec![0x00]);
    assert_eq!(convert_rgb565_to_binary(&rgb), vec![0x00]);
    assert_eq!(DEFAULT_LUMINANCE_THRESHOLD, 40);
}

#[test]
fn channels_are_weighted_on_their_native_scales() {
    // pure green: g = 63, luminance 37; pure red: r = 31, luminance 9;
    // pure blue: b = 31, luminance 3
    let rgb = pixels(&[0x07E0, 0xF800, 0x001F, 0x07E0, 0, 0, 0, 0]);
    assert_eq!(convert_rgb565_to_binary_with_threshold(&rgb, 36), vec![0x09]);
    assert_eq!(convert_rgb565_to_binary_with_threshold(&rgb, 8), vec![0x0B]);
    assert_eq!(convert_rgb565_to_binary_with_threshold(&rgb, 2), vec![0x0F]);
}

#[test]
fn round_trip_keeps_the_pixel_count_and_turns_the_image_around() {
    let mut values = vec![0u16; 16];
    values[0] = 0xFFFF;
    values[9] = 0xFFFF;
    let packed = convert_rgb565_to_binary(&pixels(&values));
    assert_eq!(packed.len(), 2);
    let decoded = image(packed, 4, TriColor::Black, TriColor::White).pixels();
    assert_eq!(decoded.len(), 16);
    for (p, c) in decoded.iter().enumerate() {
        let expected = if values[15 - p] == 0xFFFF { TriColor::White } else { TriColor::Black };
        assert_eq!(*c, expected, "pixel {}", p);
    }
}

#[test]
fn decoder_reads_most_significant_bit_first() {
    let img = image(vec![0b1010_0000, 0b0000_0001], 4, TriColor::Black, TriColor::Chromatic);
    let decoded = img.pixels();
    assert_eq!(decoded.len(), 16);
    assert_eq!(decoded[0], TriColor::Chromatic);
    assert_eq!(decoded[1], TriColor::Black);
    assert_eq!(decoded[2], TriColor::Chromatic);
    assert_eq!(decoded[3], TriColor::Black);
    assert_eq!(decoded[14], TriColor::Black);
    assert_eq!(decoded[15], TriColor::Chromatic);
}

#[test]
fn stream_ends_when_bytes_run_out() {
    let img = image(vec![0xFF], 8, TriColor::Black, TriColor::White);
    let mut stream = ContiguousPixelsTriColor::new(&img);
    for _ in 0..8 {
        assert_eq!(stream.next(), Some(TriColor::White));
    }
    assert_eq!(stream.next(), None);
    assert_eq!(stream.next(), None);
    let empty = image(Vec::new(), 8, TriColor::Black, TriColor::White);
    assert_eq!(ContiguousPixelsTriColor::new(&empty).next(), None);
}

#[test]
fn swapping_ink_and_paper_complements_every_pixel() {
    let data = vec![0xA5, 0x3C, 0x00, 0xFF];
    let plain = image(data.clone(), 8, TriColor::Black, TriColor::White).pixels();
    let swapped = image(data, 8, TriColor::White, TriColor::Black).pixels();
    assert_eq!(plain.len(), swapped.len());
    for (a, b) in plain.iter().zip(swapped.iter()) {
        let complement = if *a == TriColor::Black { TriColor::White } else { TriColor::Black };
        assert_eq!(*b, complement);
    }
}

#[test]
fn size_derives_height_from_width() {
    let img = image(vec![0; 128], 32, TriColor::Black, TriColor::White);
    assert_eq!(img.size(), Size::new(32, 32));
    let img = image(vec![0; 3], 12, TriColor::Black, TriColor::White);
    assert_eq!(img.size(), Size::new(12, 2));
}

#[test]
fn icon_image_is_black_on_white_left_of_its_anchor() {
    let mut rgb = vec![0u8; 2048];
    rgb[0] = 0xFF;
    rgb[1] = 0xFF;
    let img = icon_image(&rgb, 32, 100, 445);
    assert_eq!(img.point, Point::new(84, 445));
    assert_eq!(img.width, 32);
    assert_eq!(img.color, TriColor::Black);
    assert_eq!(img.background, TriColor::White);
    assert_eq!(img.data.len(), 128);
    assert_eq!(img.data[127], 0x01);
    assert!(img.data[..127].iter().all(|b| *b == 0));
}
