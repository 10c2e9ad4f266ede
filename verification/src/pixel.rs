//! Pixel codec: ARGB8888 surfaces to the device's RGB565 little-endian format.

use vstd::prelude::*;

verus! {

/// Red channel of an ARGB8888 pixel.
pub open spec fn red_of(argb: u32) -> int {
    (argb as int / 0x1_0000) % 0x100
}

/// Green channel of an ARGB8888 pixel.
pub open spec fn green_of(argb: u32) -> int {
    (argb as int / 0x100) % 0x100
}

/// Blue channel of an ARGB8888 pixel.
pub open spec fn blue_of(argb: u32) -> int {
    argb as int % 0x100
}

/// RGB565 code of an ARGB8888 pixel: the top five bits of red, the top six of
/// green and the top five of blue, packed from the high end. Alpha plays no part.
pub open spec fn rgb565(argb: u32) -> int {
    (red_of(argb) / 8) * 0x800 + (green_of(argb) / 4) * 0x20 + blue_of(argb) / 8
}

/// The device's byte stream for a run of ARGB8888 pixels: two bytes per pixel,
/// the low byte of its RGB565 code first.
pub open spec fn rgb565_bytes(pixels: Seq<u32>) -> Seq<u8> {
    Seq::new(
        2 * pixels.len(),
        |i: int|
            if i % 2 == 0 {
                (rgb565(pixels[i / 2]) % 0x100) as u8
            } else {
                (rgb565(pixels[i / 2]) / 0x100) as u8
            },
    )
}

/// Every RGB565 code fits in sixteen bits.
pub proof fn lemma_rgb565_range(argb: u32)
    ensures
        0 <= rgb565(argb) <= 0xFFFF,
{
}

/// Converts one ARGB8888 pixel to its RGB565 code.
pub fn convert_argb888_to_rgb565(argb: u32) -> (code: u16)
    ensures
        code as int == rgb565(argb),
{
    let r: u32 = (argb >> 16) & 0xff;
    let g: u32 = (argb >> 8) & 0xff;
    let b: u32 = argb & 0xff;
    let packed: u32 = ((r >> 3) << 11) | ((g >> 2) << 5) | (b >> 3);
    assert(r == (argb / 0x1_0000) % 0x100) by (bit_vector)
        requires
            r == (argb >> 16) & 0xff,
    ;
    assert(g == (argb / 0x100) % 0x100) by (bit_vector)
        requires
            g == (argb >> 8) & 0xff,
    ;
    assert(b == argb % 0x100) by (bit_vector)
        requires
            b == argb & 0xff,
    ;
    assert(packed == (r / 8) * 0x800 + (g / 4) * 0x20 + b / 8 && packed <= 0xFFFF) by (bit_vector)
        requires
            r < 0x100,
            g < 0x100,
            b < 0x100,
            packed == ((r >> 3) << 11) | ((g >> 2) << 5) | (b >> 3),
    ;
    packed as u16
}

/// Converts a run of ARGB8888 pixels to RGB565 little-endian bytes.
pub fn convert_pixels_to_rgb565(pixels: &[u32]) -> (bytes: Vec<u8>)
    ensures
        bytes@ == rgb565_bytes(pixels@),
{
    let mut result: Vec<u8> = Vec::new();
    let mut i: usize = 0;
    while i < pixels.len()
        invariant
            i <= pixels.len(),
            result@ == rgb565_bytes(pixels@.take(i as int)),
        decreases pixels.len() - i,
    {
        let code: u16 = convert_argb888_to_rgb565(pixels[i]);
        let lo: u8 = (code & 0xff) as u8;
        let hi: u8 = (code >> 8) as u8;
        assert(lo == code % 0x100 && hi == code / 0x100) by (bit_vector)
            requires
                lo == (code & 0xff) as u8,
                hi == (code >> 8) as u8,
        ;
        result.push(lo);
        result.push(hi);
        i = i + 1;
    }
    result
}

/// `raqote::DrawTarget`, the drawing surface that plugins paint on. Its
/// insides are not visible here; only its pixel buffer is spoken of.
#[verifier::external_type_specification]
#[verifier::external_body]
#[verifier::reject_recursive_types(Backing)]
pub struct ExDrawTarget<Backing>(raqote::DrawTarget<Backing>);

/// The pixel buffer of a drawing surface: one 32-bit word for each pixel, with
/// alpha in the top byte and red, green and blue below it.
pub uninterp spec fn draw_target_pixels(dt: raqote::DrawTarget) -> Seq<u32>;

/// `raqote::DrawTarget::get_data`: borrows the surface's pixel buffer. Trusted:
/// the slice handed back is the buffer that `draw_target_pixels` names.
#[verifier::external_body]
fn draw_target_data(dt: &raqote::DrawTarget) -> (data: &[u32])
    ensures
        data@ == draw_target_pixels(*dt),
{
    dt.get_data()
}

/// Converts a drawing surface to RGB565 little-endian bytes, pixel by pixel in
/// buffer order.
pub fn convert_draw_target_to_rgb565(dt: raqote::DrawTarget) -> (bytes: Vec<u8>)
    ensures
        bytes@ == rgb565_bytes(draw_target_pixels(dt)),
{
    convert_pixels_to_rgb565(draw_target_data(&dt))
}

} // verus!

