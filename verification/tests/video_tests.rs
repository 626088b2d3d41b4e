use rustroarch::video::{
    compute_padding, compute_scale, pack_xrgb8888, render_frame, VideoFrame, SENTINEL_COLOR,
};

#[test]
fn scale_example_is_exact() {
    // A 256x144 frame on a 1024x576 surface magnifies 4x and needs no
    // centering on either axis.
    let scale = compute_scale(256, 144, 1024, 576);
    assert_eq!(scale, 4);
    assert_eq!(compute_padding(1024, 256 * scale), 0);
    assert_eq!(compute_padding(576, 144 * scale), 0);
}

#[test]
fn scale_takes_the_tighter_axis() {
    // 320x200 on 1280x600: 4x fits horizontally but only 3x vertically.
    assert_eq!(compute_scale(320, 200, 1280, 600), 3);
}

#[test]
fn scale_is_clamped_to_one_for_oversized_frames() {
    assert_eq!(compute_scale(640, 480, 320, 240), 1);
    assert_eq!(compute_scale(640, 480, 1000, 240), 1);
}

#[test]
fn padding_centers_with_integer_slack() {
    assert_eq!(compute_padding(1024, 1000), 12);
    assert_eq!(compute_padding(7, 4), 1);
    // A target wider than the surface gets no offset.
    assert_eq!(compute_padding(320, 640), 0);
}

#[test]
fn pack_reassembles_little_endian_words() {
    let packed = pack_xrgb8888(&[0x11, 0x22, 0x33, 0x44, 0xEF, 0xCD, 0xAB, 0x00]);
    assert_eq!(packed, vec![0x44332211, 0x00ABCDEF]);
}

fn frame(buffer: Vec<u32>, width: u32, height: u32, pitch: u32) -> VideoFrame {
    VideoFrame { frame_buffer: buffer, width, height, pitch }
}

#[test]
fn render_replicates_one_pixel_over_the_whole_surface() {
    // A 1x1 frame on a 2x2 surface scales 2x: four copies of the pixel.
    let surface = render_frame(&frame(vec![0xABCDEF], 1, 1, 4), 4, 2, 2);
    assert_eq!(surface, vec![0xABCDEF; 4]);
}

#[test]
fn render_leaves_uncovered_border_black() {
    // A 1x1 frame on a 3x2 surface scales 2x; the rightmost column is
    // outside the target rectangle and stays black.
    let surface = render_frame(&frame(vec![0x123456], 1, 1, 4), 4, 3, 2);
    assert_eq!(
        surface,
        vec![0x123456, 0x123456, 0, 0x123456, 0x123456, 0]
    );
}

#[test]
fn render_centers_the_scaled_frame() {
    // A 1x1 frame on a 4x1 surface: target width 1 (the vertical axis
    // limits the scale to 1), so one pixel of slack on each side rounds
    // down to an offset of 1.
    let surface = render_frame(&frame(vec![0x777777], 1, 1, 4), 4, 4, 1);
    assert_eq!(surface, vec![0, 0x777777, 0, 0]);
}

#[test]
fn render_skips_row_padding_via_pitch() {
    // Rows are 8 bytes (two 32-bit pixels) wide but only the first pixel
    // of each row is real; the second is core-side padding.
    let source = vec![0xAA, 0x01, 0xBB, 0x02];
    let surface = render_frame(&frame(source, 1, 2, 8), 4, 1, 2);
    assert_eq!(surface, vec![0xAA, 0xBB]);
}

#[test]
fn render_pads_short_buffer_with_sentinel() {
    // The frame advertises 2x2 pixels but carries only three: the missing
    // pixel comes out as the sentinel color, not an out-of-bounds read.
    let surface = render_frame(&frame(vec![1, 2, 3], 2, 2, 8), 4, 2, 2);
    assert_eq!(surface, vec![1, 2, 3, SENTINEL_COLOR]);
}

#[test]
fn render_of_empty_buffer_is_all_sentinel() {
    let surface = render_frame(&frame(vec![], 2, 1, 8), 4, 2, 1);
    assert_eq!(surface, vec![SENTINEL_COLOR, SENTINEL_COLOR]);
}
