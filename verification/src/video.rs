//! Video frames and the aspect-correct presenter.
//!
//! A frame is scaled by the largest integer factor that still fits the
//! display surface (never below 1), centered, and blitted pixel by pixel.
//! A frame buffer shorter than its advertised dimensions is padded with a
//! sentinel color instead of being read out of bounds.

use vstd::prelude::*;

verus! {

/// The fill color substituted for missing pixel data: opaque blue, visually
/// distinct so a malformed frame is noticed rather than crashing playback.
pub const SENTINEL_COLOR: u32 = 0x0000FF;

/// A decoded video frame: 32-bit 0xXXRRGGBB pixels in row-major order.
/// `pitch` is the byte length of one row in the core's original buffer,
/// which may exceed `width * bytes_per_pixel` by core-side padding.
/// Immutable after construction; consumed by value.
pub struct VideoFrame {
    pub frame_buffer: Vec<u32>,
    pub width: u32,
    pub height: u32,
    pub pitch: u32,
}

/// A 32-bit pixel assembled from four bytes, least significant first.
pub open spec fn xrgb8888_word(b0: u8, b1: u8, b2: u8, b3: u8) -> u32 {
    (b0 as u32) | ((b1 as u32) << 8) | ((b2 as u32) << 16) | ((b3 as u32) << 24)
}

/// A byte buffer reinterpreted as 32-bit pixels, four bytes per pixel.
pub open spec fn pack_8888_seq(bytes: Seq<u8>) -> Seq<u32> {
    Seq::new(
        (bytes.len() / 4) as nat,
        |i: int|
            xrgb8888_word(bytes[4 * i], bytes[4 * i + 1], bytes[4 * i + 2], bytes[4 * i + 3]),
    )
}

/// Reassembles a byte buffer that already carries 32-bit pixels into owned
/// 32-bit values, one per four input bytes, least significant byte first.
pub fn pack_xrgb8888(bytes: &[u8]) -> (result: Vec<u32>)
    requires
        bytes@.len() % 4 == 0,
    ensures
        result@ == pack_8888_seq(bytes@),
        result@.len() == bytes@.len() / 4,
{
    let num_pixels = bytes.len() / 4;
    let mut result: Vec<u32> = Vec::new();
    let mut i: usize = 0;
    while i < num_pixels
        invariant
            num_pixels == bytes@.len() / 4,
            bytes@.len() % 4 == 0,
            bytes@.len() <= usize::MAX,
            i <= num_pixels,
            result@.len() == i,
            forall|j: int|
                0 <= j < i ==> result@[j] == xrgb8888_word(
                    bytes@[4 * j],
                    bytes@[4 * j + 1],
                    bytes@[4 * j + 2],
                    bytes@[4 * j + 3],
                ),
        decreases num_pixels - i,
    {
        proof {
            assert(4 * i + 3 < bytes@.len()) by {
                vstd::arithmetic::div_mod::lemma_fundamental_div_mod(bytes@.len() as int, 4);
            };
        }
        let b0 = bytes[4 * i];
        let b1 = bytes[4 * i + 1];
        let b2 = bytes[4 * i + 2];
        let b3 = bytes[4 * i + 3];
        let pixel = (b0 as u32) | ((b1 as u32) << 8) | ((b2 as u32) << 16) | ((b3 as u32) << 24);
        result.push(pixel);
        i = i + 1;
    }
    proof {
        assert(result@ =~= pack_8888_seq(bytes@));
    }
    result
}

/// The integer magnification chosen for a frame on a surface: the smaller of
/// the two per-axis floors, clamped to a minimum of 1 so a frame larger than
/// the surface is still drawn at natural size.
pub open spec fn scale_factor(
    frame_width: int,
    frame_height: int,
    surface_width: int,
    surface_height: int,
) -> int
    recommends
        frame_width >= 1,
        frame_height >= 1,
{
    let scale_x = surface_width / frame_width;
    let scale_y = surface_height / frame_height;
    let fit = if scale_y < scale_x {
        scale_y
    } else {
        scale_x
    };
    if fit < 1 {
        1
    } else {
        fit
    }
}

/// The centering offset on one axis: half the leftover space, or none when
/// the scaled frame does not fit the surface on that axis.
pub open spec fn centering_offset(surface: int, target: int) -> int {
    if target <= surface {
        (surface - target) / 2
    } else {
        0
    }
}

/// Integer magnification preserving the aspect ratio, as `scale_factor`.
pub fn compute_scale(
    frame_width: usize,
    frame_height: usize,
    surface_width: usize,
    surface_height: usize,
) -> (scale: usize)
    requires
        frame_width >= 1,
        frame_height >= 1,
    ensures
        scale == scale_factor(
            frame_width as int,
            frame_height as int,
            surface_width as int,
            surface_height as int,
        ),
{
    let scale_x = surface_width / frame_width;
    let scale_y = surface_height / frame_height;
    let fit = if scale_y < scale_x {
        scale_y
    } else {
        scale_x
    };
    if fit < 1 {
        1
    } else {
        fit
    }
}

/// The centering offset on one axis, as `centering_offset`.
pub fn compute_padding(surface: usize, target: usize) -> (padding: usize)
    ensures
        padding == centering_offset(surface as int, target as int),
{
    if target <= surface {
        (surface - target) / 2
    } else {
        0
    }
}

/// Multiplying by a divisor never overshoots the dividend.
proof fn lemma_div_mul_le(a: int, b: int)
    by (nonlinear_arith)
    requires
        a >= 0,
        b >= 1,
    ensures
        b * (a / b) <= a,
{
}

/// The floor of a quotient is the largest multiplier that fits.
proof fn lemma_div_maximal(a: int, b: int, k: int)
    by (nonlinear_arith)
    requires
        a >= 0,
        b >= 1,
        b * k <= a,
    ensures
        k <= a / b,
{
}

/// The chosen scale is exactly the largest integer magnification that fits:
/// whenever the frame fits the surface at all, `scale_factor` gives a factor
/// at which the scaled frame still fits both axes, and every factor that
/// fits both axes is no larger.
pub proof fn lemma_scale_maximal(
    frame_width: int,
    frame_height: int,
    surface_width: int,
    surface_height: int,
)
    requires
        frame_width >= 1,
        frame_height >= 1,
        frame_width <= surface_width,
        frame_height <= surface_height,
    ensures
        scale_factor(frame_width, frame_height, surface_width, surface_height) >= 1,
        frame_width * scale_factor(frame_width, frame_height, surface_width, surface_height)
            <= surface_width,
        frame_height * scale_factor(frame_width, frame_height, surface_width, surface_height)
            <= surface_height,
        forall|k: int|
            #[trigger] (frame_width * k) <= surface_width && frame_height * k <= surface_height
                ==> k <= scale_factor(frame_width, frame_height, surface_width, surface_height),
{
    let scale_x = surface_width / frame_width;
    let scale_y = surface_height / frame_height;
    lemma_div_maximal(surface_width, frame_width, 1);
    lemma_div_maximal(surface_height, frame_height, 1);
    let s = scale_factor(frame_width, frame_height, surface_width, surface_height);
    lemma_div_mul_le(surface_width, frame_width);
    lemma_div_mul_le(surface_height, frame_height);
    assert(frame_width * s <= frame_width * scale_x) by (nonlinear_arith)
        requires
            frame_width >= 1,
            s <= scale_x,
    ;
    assert(frame_height * s <= frame_height * scale_y) by (nonlinear_arith)
        requires
            frame_height >= 1,
            s <= scale_y,
    ;
    assert forall|k: int|
        #[trigger] (frame_width * k) <= surface_width && frame_height * k <= surface_height implies
        k <= s by {
        lemma_div_maximal(surface_width, frame_width, k);
        lemma_div_maximal(surface_height, frame_height, k);
    };
}

/// The pixel a source index names, or the sentinel color when the advertised
/// dimensions reach past the end of the actual buffer.
pub open spec fn source_pixel(buffer: Seq<u32>, index: int) -> u32 {
    if 0 <= index < buffer.len() {
        buffer[index]
    } else {
        SENTINEL_COLOR
    }
}

/// The color of the surface pixel at `(px, py)` after the blit: inside the
/// centered target rectangle, the source pixel the position maps back to
/// (sentinel-padded on underrun); outside it, black border.
pub open spec fn blit_pixel(
    buffer: Seq<u32>,
    frame_width: int,
    frame_height: int,
    stride: int,
    scale: int,
    pad_x: int,
    pad_y: int,
    px: int,
    py: int,
) -> u32
    recommends
        scale >= 1,
{
    if pad_x <= px < pad_x + frame_width * scale && pad_y <= py < pad_y + frame_height * scale {
        source_pixel(buffer, ((py - pad_y) / scale) * stride + (px - pad_x) / scale)
    } else {
        0
    }
}


/// The row stride, in 32-bit pixels, of a frame whose rows are `pitch`
/// bytes long at `bytes_per_pixel` bytes each.
pub open spec fn frame_stride(frame: VideoFrame, bytes_per_pixel: u8) -> int {
    frame.pitch as int / bytes_per_pixel as int
}

/// The integer magnification chosen for `frame` on a surface.
pub open spec fn frame_scale(frame: VideoFrame, surface_width: int, surface_height: int) -> int {
    scale_factor(frame.width as int, frame.height as int, surface_width, surface_height)
}

/// The horizontal centering offset of `frame` on a surface.
pub open spec fn frame_pad_x(frame: VideoFrame, surface_width: int, surface_height: int) -> int {
    centering_offset(
        surface_width,
        frame.width as int * frame_scale(frame, surface_width, surface_height),
    )
}

/// The vertical centering offset of `frame` on a surface.
pub open spec fn frame_pad_y(frame: VideoFrame, surface_width: int, surface_height: int) -> int {
    centering_offset(
        surface_height,
        frame.height as int * frame_scale(frame, surface_width, surface_height),
    )
}

/// The color the presenter gives the surface pixel at `(px, py)` when it
/// blits `frame` onto a surface of the given dimensions.
pub open spec fn surface_pixel(
    frame: VideoFrame,
    bytes_per_pixel: u8,
    surface_width: int,
    surface_height: int,
    px: int,
    py: int,
) -> u32 {
    blit_pixel(
        frame.frame_buffer@,
        frame.width as int,
        frame.height as int,
        frame_stride(frame, bytes_per_pixel),
        frame_scale(frame, surface_width, surface_height),
        frame_pad_x(frame, surface_width, surface_height),
        frame_pad_y(frame, surface_width, surface_height),
        px,
        py,
    )
}

/// The frame-buffer index that the surface position `(px, py)` reads, for a
/// position inside the centered target rectangle.
pub open spec fn source_index(
    frame: VideoFrame,
    bytes_per_pixel: u8,
    surface_width: int,
    surface_height: int,
    px: int,
    py: int,
) -> int {
    let scale = frame_scale(frame, surface_width, surface_height);
    ((py - frame_pad_y(frame, surface_width, surface_height)) / scale) * frame_stride(
        frame,
        bytes_per_pixel,
    ) + (px - frame_pad_x(frame, surface_width, surface_height)) / scale
}

/// Underrun padding: a surface position inside the target rectangle whose
/// source index reaches past the end of the frame buffer — a buffer shorter
/// than the advertised dimensions demand — comes out as the sentinel color;
/// it is never an out-of-bounds read.
pub proof fn lemma_underrun_padded(
    frame: VideoFrame,
    bytes_per_pixel: u8,
    surface_width: int,
    surface_height: int,
    px: int,
    py: int,
)
    requires
        frame_pad_x(frame, surface_width, surface_height) <= px < frame_pad_x(
            frame,
            surface_width,
            surface_height,
        ) + frame.width as int * frame_scale(frame, surface_width, surface_height),
        frame_pad_y(frame, surface_width, surface_height) <= py < frame_pad_y(
            frame,
            surface_width,
            surface_height,
        ) + frame.height as int * frame_scale(frame, surface_width, surface_height),
        !(0 <= source_index(frame, bytes_per_pixel, surface_width, surface_height, px, py)
            < frame.frame_buffer@.len()),
    ensures
        surface_pixel(frame, bytes_per_pixel, surface_width, surface_height, px, py)
            == SENTINEL_COLOR,
{
}

/// The whole surface after blitting `frame`, row-major.
pub open spec fn rendered_surface(
    frame: VideoFrame,
    bytes_per_pixel: u8,
    surface_width: int,
    surface_height: int,
) -> Seq<u32> {
    Seq::new(
        (surface_width * surface_height) as nat,
        |i: int|
            surface_pixel(
                frame,
                bytes_per_pixel,
                surface_width,
                surface_height,
                i % surface_width,
                i / surface_width,
            ),
    )
}

/// Scales, centers and blits a frame into a fresh surface buffer of
/// `surface_width * surface_height` pixels. The frame's rows are read at a
/// stride of `pitch / bytes_per_pixel` source pixels, so core-side row
/// padding is skipped; positions past the end of the frame buffer come out
/// as the sentinel color, never as an out-of-bounds read.
#[verifier::loop_isolation(false)]
pub fn render_frame(
    frame: &VideoFrame,
    bytes_per_pixel: u8,
    surface_width: usize,
    surface_height: usize,
) -> (surface: Vec<u32>)
    requires
        frame.width >= 1,
        frame.height >= 1,
        bytes_per_pixel == 2 || bytes_per_pixel == 4,
        surface_width * surface_height <= usize::MAX,
    ensures
        surface@.len() == surface_width * surface_height,
        surface@ == rendered_surface(
            *frame,
            bytes_per_pixel,
            surface_width as int,
            surface_height as int,
        ),
        forall|px: int, py: int|
            0 <= px < surface_width && 0 <= py < surface_height ==> surface@[py * surface_width
                + px] == #[trigger] surface_pixel(
                *frame,
                bytes_per_pixel,
                surface_width as int,
                surface_height as int,
                px,
                py,
            ),
{
    let frame_width = frame.width as usize;
    let frame_height = frame.height as usize;
    let stride = (frame.pitch / bytes_per_pixel as u32) as usize;

    let scale = compute_scale(frame_width, frame_height, surface_width, surface_height);
    proof {
        if frame_width <= surface_width && frame_height <= surface_height {
            lemma_scale_maximal(
                frame_width as int,
                frame_height as int,
                surface_width as int,
                surface_height as int,
            );
        }
    }
    proof {
        // At a scale above 1 the frame fits the surface, so neither product
        // leaves usize; at scale 1 the products are the frame dimensions.
        if surface_width < frame_width {
            lemma_small_div_zero(surface_width as int, frame_width as int);
        }
        if surface_height < frame_height {
            lemma_small_div_zero(surface_height as int, frame_height as int);
        }
        assert(frame_width * scale <= usize::MAX);
        assert(frame_height * scale <= usize::MAX);
    }
    let target_width = frame_width * scale;
    let target_height = frame_height * scale;
    let pad_x = compute_padding(surface_width, target_width);
    let pad_y = compute_padding(surface_height, target_height);

    let ghost buffer = frame.frame_buffer@;
    let mut surface: Vec<u32> = Vec::new();
    let mut py: usize = 0;
    while py < surface_height
        invariant
            py <= surface_height,
            surface@.len() == py * surface_width,
            forall|x: int, y: int|
                0 <= x < surface_width && 0 <= y < py ==> surface@[y * surface_width + x]
                    == #[trigger] blit_pixel(
                    buffer,
                    frame_width as int,
                    frame_height as int,
                    stride as int,
                    scale as int,
                    pad_x as int,
                    pad_y as int,
                    x,
                    y,
                ),
        decreases surface_height - py,
    {
        let mut px: usize = 0;
        while px < surface_width
            invariant
                py < surface_height,
                px <= surface_width,
                surface@.len() == py * surface_width + px,
                forall|x: int, y: int|
                    0 <= x < surface_width && 0 <= y < py ==> surface@[y * surface_width + x]
                        == #[trigger] blit_pixel(
                        buffer,
                        frame_width as int,
                        frame_height as int,
                        stride as int,
                        scale as int,
                        pad_x as int,
                        pad_y as int,
                        x,
                        y,
                    ),
                forall|x: int|
                    0 <= x < px ==> surface@[py * surface_width + x] == #[trigger] blit_pixel(
                        buffer,
                        frame_width as int,
                        frame_height as int,
                        stride as int,
                        scale as int,
                        pad_x as int,
                        pad_y as int,
                        x,
                        py as int,
                    ),
            decreases surface_width - px,
        {
            let value: u32;
            if px >= pad_x && py >= pad_y && px - pad_x < target_width && py - pad_y
                < target_height {
                let rel_x = (px - pad_x) / scale;
                let rel_y = (py - pad_y) / scale;
                proof {
                    lemma_div_lt(px as int - pad_x as int, scale as int, frame_width as int);
                    lemma_div_lt(py as int - pad_y as int, scale as int, frame_height as int);
                    assert((rel_y as u64) * (stride as u64) + (rel_x as u64) < u64::MAX)
                        by (nonlinear_arith)
                        requires
                            rel_y < 0x1_0000_0000u64,
                            stride < 0x1_0000_0000u64,
                            rel_x < 0x1_0000_0000u64,
                    ;
                }
                let index = (rel_y as u64) * (stride as u64) + (rel_x as u64);
                if index < frame.frame_buffer.len() as u64 {
                    value = frame.frame_buffer[index as usize];
                } else {
                    value = SENTINEL_COLOR;
                }
            } else {
                value = 0;
            }
            proof {
                assert(py * surface_width + px < surface_width * surface_height)
                    by (nonlinear_arith)
                    requires
                        0 <= px < surface_width,
                        0 <= py < surface_height,
                ;
            }
            surface.push(value);
            px = px + 1;
            proof {
                assert forall|x: int, y: int|
                    0 <= x < surface_width && 0 <= y < py implies surface@[y * surface_width + x]
                    == blit_pixel(
                    buffer,
                    frame_width as int,
                    frame_height as int,
                    stride as int,
                    scale as int,
                    pad_x as int,
                    pad_y as int,
                    x,
                    y,
                ) by {
                    assert(y * surface_width + x < py * surface_width + px - 1)
                        by (nonlinear_arith)
                        requires
                            0 <= x < surface_width,
                            0 <= y < py,
                            px >= 1,
                    ;
                };
            }
        }
        py = py + 1;
        proof {
            assert(py * surface_width == (py - 1) * surface_width + surface_width)
                by (nonlinear_arith);
        }
    }
    proof {
        assert(surface_height * surface_width == surface_width * surface_height)
            by (nonlinear_arith);
        assert forall|px: int, py: int|
            0 <= px < surface_width && 0 <= py < surface_height implies surface@[py * surface_width
            + px] == #[trigger] surface_pixel(
            *frame,
            bytes_per_pixel,
            surface_width as int,
            surface_height as int,
            px,
            py,
        ) by {
            assert(surface@[py * surface_width + px] == blit_pixel(
                buffer,
                frame_width as int,
                frame_height as int,
                stride as int,
                scale as int,
                pad_x as int,
                pad_y as int,
                px,
                py,
            ));
        };
        let ghost rendered = rendered_surface(
            *frame,
            bytes_per_pixel,
            surface_width as int,
            surface_height as int,
        );
        assert forall|i: int| 0 <= i < surface@.len() implies surface@[i] == rendered[i] by {
            lemma_row_col(i, surface_width as int, surface_height as int);
            assert(surface@[(i / surface_width as int) * surface_width + i % surface_width as int]
                == surface_pixel(
                *frame,
                bytes_per_pixel,
                surface_width as int,
                surface_height as int,
                i % surface_width as int,
                i / surface_width as int,
            ));
        };
        assert(surface@ =~= rendered);
    }
    surface
}

/// Dividing a smaller number by a larger one gives zero.
proof fn lemma_small_div_zero(a: int, b: int)
    by (nonlinear_arith)
    requires
        0 <= a < b,
    ensures
        a / b == 0,
{
}

/// A row-major index below `w * h` names a valid column and row, and the
/// pair maps back to the index.
proof fn lemma_row_col(i: int, w: int, h: int)
    by (nonlinear_arith)
    requires
        w >= 1,
        0 <= i < w * h,
    ensures
        0 <= i % w < w,
        0 <= i / w < h,
        (i / w) * w + i % w == i,
{
}

/// A dividend below `w` blocks of size `s` lands strictly under `w`.
proof fn lemma_div_lt(x: int, s: int, w: int)
    by (nonlinear_arith)
    requires
        x >= 0,
        s >= 1,
        x < w * s,
    ensures
        x / s < w,
{
}

} // verus!
