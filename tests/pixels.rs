use sleek::geometry::Rect;
use sleek::pixels::{extract_channel, word_from_bytes, words_from_image, ScreenData};

fn bgrx_screen() -> ScreenData {
    ScreenData::new(1920, 1080, 0x00ff_0000, 0x0000_ff00, 0x0000_00ff)
}

#[test]
fn channel_round_trip_on_common_layout() {
    let (r, g, b) = (0x12u32, 0xabu32, 0xfeu32);
    let word = (r << 16) | (g << 8) | b;
    assert_eq!(bgrx_screen().decode_pixel(word), (0x12, 0xab, 0xfe));
}

#[test]
fn channel_round_trip_on_reversed_layout() {
    let screen = ScreenData::new(10, 10, 0x0000_00ff, 0x0000_ff00, 0xff00_0000);
    let word = 0x7700_3301u32;
    assert_eq!(screen.decode_pixel(word), (0x01, 0x33, 0x77));
}

#[test]
fn channel_of_narrow_and_empty_masks() {
    assert_eq!(extract_channel(0xffff_ffff, 0x0000_f800), 0x1f);
    assert_eq!(extract_channel(0x1234_5678, 0), 0);
    assert_eq!(extract_channel(0xdead_beef, 0xff00_0000), 0xde);
}

#[test]
fn rgb_bytes_are_interleaved_row_major() {
    let words = vec![0x00_102030u32, 0x00_405060, 0x00_708090];
    let bytes = bgrx_screen().rgb_bytes(&words);
    assert_eq!(bytes, vec![0x10, 0x20, 0x30, 0x40, 0x50, 0x60, 0x70, 0x80, 0x90]);
}

#[test]
fn capture_rgb_checks_word_count() {
    let region = Rect { x: 0, y: 0, width: 2, height: 1 };
    let screen = bgrx_screen();
    assert_eq!(screen.capture_rgb(region, &vec![0x00_010203]), None);
    assert_eq!(
        screen.capture_rgb(region, &vec![0x00_010203, 0x00_040506]),
        Some(vec![1, 2, 3, 4, 5, 6])
    );
}

#[test]
fn full_rect_covers_the_screen() {
    assert_eq!(bgrx_screen().full_rect(), Rect { x: 0, y: 0, width: 1920, height: 1080 });
}

#[test]
fn words_follow_the_byte_order() {
    assert_eq!(word_from_bytes(0x01, 0x02, 0x03, 0x04, true), 0x0403_0201);
    assert_eq!(word_from_bytes(0x01, 0x02, 0x03, 0x04, false), 0x0102_0304);
}

#[test]
fn image_rows_skip_their_padding() {
    // Two rows of two pixels, each row padded to twelve bytes.
    let data: Vec<u8> = vec![
        1, 0, 0, 0, 2, 0, 0, 0, 0xee, 0xee, 0xee, 0xee, //
        3, 0, 0, 0, 4, 0, 0, 0xff, 0xee, 0xee, 0xee, 0xee,
    ];
    assert_eq!(words_from_image(&data, 2, 2, 12, 4, true), Some(vec![1, 2, 3, 0xff00_0004]));
    assert_eq!(words_from_image(&data[..20].to_vec(), 2, 2, 12, 4, true), Some(vec![1, 2, 3, 0xff00_0004]));
}

#[test]
fn image_that_does_not_fit_is_refused() {
    let data = vec![0u8; 16];
    assert_eq!(words_from_image(&data, 2, 2, 8, 3, true), None);
    assert_eq!(words_from_image(&data, 3, 1, 8, 4, true), None);
    assert_eq!(words_from_image(&data, 2, 3, 8, 4, true), None);
    assert_eq!(words_from_image(&data, 2, 2, 8, 4, true), Some(vec![0, 0, 0, 0]));
    assert_eq!(words_from_image(&data, 0, 5, 8, 4, true), Some(vec![]));
}
