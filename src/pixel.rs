//! 16-bit pixel packing and render-target coordinate helpers.

use vstd::prelude::*;

verus! {

/// Number of pixel columns in video memory.
pub const VRAM_WIDTH: u32 = 1024;

/// Number of pixel rows in video memory.
pub const VRAM_HEIGHT: u32 = 512;

/// The 16-bit pixel made of a mask bit and three 5-bit channels, the low
/// channel first: mask in bit 15, blue in bits 10..15, green in bits 5..10,
/// red in bits 0..5. Each 8-bit channel keeps its five high bits.
pub open spec fn packed_pixel(r: u8, g: u8, b: u8, a: u8) -> int {
    (a as int % 2) * 32768 + (b as int / 8) * 1024 + (g as int / 8) * 32 + r as int / 8
}

/// Packs an 8-bit-per-channel colour `(r, g, b, a)` into a 16-bit pixel; only
/// the lowest bit of `a` is kept, as the mask bit.
#[inline]
pub fn gl_pixel_to_u16(pixel: &(u8, u8, u8, u8)) -> (r: u16)
    ensures
        r as int == packed_pixel(pixel.0, pixel.1, pixel.2, pixel.3),
{
    let (r, g, b, a) = *pixel;
    let out: u16 = ((a & 1) as u16) << 15u16 | ((b >> 3u8) as u16) << 10u16 | ((g >> 3u8) as u16)
        << 5u16 | (r >> 3u8) as u16;
    assert(out == ((a & 1) as u16) << 15u16 | ((b >> 3u8) as u16) << 10u16 | ((g >> 3u8) as u16)
        << 5u16 | (r >> 3u8) as u16 ==> out as int == (a % 2) as int * 32768 + (b / 8) as int * 1024
        + (g / 8) as int * 32 + (r / 8) as int) by (bit_vector);
    out
}

/// The bottom coordinate, in the render target's upward axis, of a block
/// whose top row is `top` in video memory and which is `height` rows high.
#[inline]
pub fn to_gl_bottom(top: u32, height: u32) -> (r: u32)
    requires
        top + height <= VRAM_HEIGHT,
    ensures
        r == VRAM_HEIGHT - height - top,
{
    VRAM_HEIGHT - height - top
}

/// The red, green and blue channels and the mask bit of a video memory
/// pixel: red in bits 0..5, green in bits 5..10, blue in bits 10..15, mask
/// in bit 15.
pub open spec fn vram_channels(p: u16) -> (int, int, int, int) {
    (p as int % 32, (p as int / 32) % 32, (p as int / 1024) % 32, p as int / 32768)
}

/// The channels of a render-target pixel in the R5G5B5A1 layout: red in
/// bits 11..16, green in bits 6..11, blue in bits 1..6, mask in bit 0.
pub open spec fn target_channels(t: u16) -> (int, int, int, int) {
    (t as int / 2048, (t as int / 64) % 32, (t as int / 2) % 32, t as int % 2)
}

/// The render target's R5G5B5A1 form of a video memory pixel.
pub fn vram_to_target_pixel(p: u16) -> (t: u16)
    ensures
        target_channels(t) == vram_channels(p),
{
    let t: u16 = ((p & 0x1F) << 11u16) | (((p >> 5u16) & 0x1F) << 6u16) | (((p >> 10u16) & 0x1F)
        << 1u16) | (p >> 15u16);
    assert(t == ((p & 0x1F) << 11u16) | (((p >> 5u16) & 0x1F) << 6u16) | (((p >> 10u16) & 0x1F)
        << 1u16) | (p >> 15u16) ==> t / 2048 == p % 32 && (t / 64) % 32 == (p / 32) % 32 && (t / 2)
        % 32 == (p / 1024) % 32 && t % 2 == p / 32768) by (bit_vector);
    t
}

/// The video memory form of a render-target pixel in the R5G5B5A1 layout.
pub fn target_to_vram_pixel(t: u16) -> (p: u16)
    ensures
        vram_channels(p) == target_channels(t),
{
    let p: u16 = ((t >> 11u16) & 0x1F) | (((t >> 6u16) & 0x1F) << 5u16) | (((t >> 1u16) & 0x1F)
        << 10u16) | ((t & 1) << 15u16);
    assert(p == ((t >> 11u16) & 0x1F) | (((t >> 6u16) & 0x1F) << 5u16) | (((t >> 1u16) & 0x1F)
        << 10u16) | ((t & 1) << 15u16) ==> t / 2048 == p % 32 && (t / 64) % 32 == (p / 32) % 32 && (t
        / 2) % 32 == (p / 1024) % 32 && t % 2 == p / 32768) by (bit_vector);
    p
}

/// A pixel is determined by its channels in either layout, so converting to
/// the render target's layout and back gives the pixel unchanged.
pub proof fn lemma_pixel_layouts_round_trip(p: u16, t: u16, q: u16)
    requires
        target_channels(t) == vram_channels(p),
        vram_channels(q) == target_channels(t),
    ensures
        q == p,
{
    assert(p % 32 == q % 32 && (p / 32) % 32 == (q / 32) % 32 && (p / 1024) % 32 == (q / 1024) % 32
        && p / 32768 == q / 32768 ==> p == q) by (bit_vector);
}

} // verus!
