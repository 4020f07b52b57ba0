use vstd::prelude::*;

verus! {

/// Largest value of an 8-bit color channel.
pub const CHANNEL_MAX: u8 = 255;

/// Factor by which an averaged channel intensity in `[0, 1)` is scaled before it
/// is rounded down to an 8-bit value.
pub const CHANNEL_SCALE: i64 = 256;

/// The 8-bit value of a channel whose averaged intensity, multiplied by 256 and
/// rounded down, is `scaled`. The intensity is first held to `[0, 0.999]`, so values
/// below zero give 0 and values of 255 or more give 255.
pub open spec fn quantize_spec(scaled: int) -> int {
    if scaled < 0 {
        0
    } else if scaled > 255 {
        255
    } else {
        scaled
    }
}

/// The packed `0xRRGGBB` value of three 8-bit channels.
pub open spec fn pack_spec(r: int, g: int, b: int) -> int {
    r * 0x10000 + g * 0x100 + b
}

/// The packed pixel value of a color whose three channels, averaged and scaled,
/// are `r`, `g` and `b`.
pub open spec fn color_spec(r: int, g: int, b: int) -> int {
    pack_spec(quantize_spec(r), quantize_spec(g), quantize_spec(b))
}

/// The scaled value of an averaged channel intensity `n / d`: `floor(256 * n / d)`.
pub open spec fn scaled_intensity(n: int, d: int) -> int {
    (CHANNEL_SCALE * n) / d
}

/// Clamps a scaled channel value into the 8-bit range.
pub fn quantize_channel(scaled: i64) -> (r: u8)
    ensures
        r as int == quantize_spec(scaled as int),
{
    if scaled < 0 {
        0
    } else if scaled > 255 {
        CHANNEL_MAX
    } else {
        scaled as u8
    }
}

/// Packs three 8-bit channels as `0xRRGGBB`.
pub fn pack_rgb(r: u8, g: u8, b: u8) -> (p: u32)
    ensures
        p as int == pack_spec(r as int, g as int, b as int),
        p < 0x1000000,
{
    let (r32, g32, b32) = (r as u32, g as u32, b as u32);
    let p = r32 << 16 | g32 << 8 | b32;
    assert(p == r32 * 0x10000 + g32 * 0x100 + b32 && p < 0x1000000) by (bit_vector)
        requires
            r32 < 256,
            g32 < 256,
            b32 < 256,
            p == r32 << 16 | g32 << 8 | b32,
    ;
    p
}

/// The packed pixel value of a color, given the scaled channel values
/// `floor(256 * c / samples)` of its accumulated channels `c`.
pub fn format_color(r_scaled: i64, g_scaled: i64, b_scaled: i64) -> (p: u32)
    ensures
        p as int == color_spec(r_scaled as int, g_scaled as int, b_scaled as int),
        p < 0x1000000,
{
    let ir = quantize_channel(r_scaled);
    let ig = quantize_channel(g_scaled);
    let ib = quantize_channel(b_scaled);
    pack_rgb(ir, ig, ib)
}

/// Reads back the red, green and blue channels of a packed `0xRRGGBB` value.
pub fn unpack_rgb(p: u32) -> (c: (u8, u8, u8))
    requires
        p < 0x1000000,
    ensures
        pack_spec(c.0 as int, c.1 as int, c.2 as int) == p as int,
{
    let (rs, gs, bs) = (p >> 16, (p >> 8) & 0xff, p & 0xff);
    assert(p == rs * 0x10000 + gs * 0x100 + bs && rs < 256 && gs < 256 && bs < 256)
        by (bit_vector)
        requires
            p < 0x1000000,
            rs == p >> 16,
            gs == (p >> 8) & 0xff,
            bs == p & 0xff,
    ;
    let (r, g, b) = (rs as u8, gs as u8, bs as u8);
    (r, g, b)
}

/// An averaged channel intensity above 0.999 is shown at full strength: its
/// scaled value quantizes to 255 and never wraps past it.
pub proof fn lemma_bright_channel_saturates(n: int, d: int)
    requires
        d > 0,
        1000 * n > 999 * d,
    ensures
        scaled_intensity(n, d) >= 255,
        quantize_spec(scaled_intensity(n, d)) == 255,
{
    assert(CHANNEL_SCALE * n >= 255 * d) by (nonlinear_arith)
        requires
            d > 0,
            1000 * n > 999 * d,
            CHANNEL_SCALE == 256,
    ;
    assert((CHANNEL_SCALE * n) / d >= 255) by (nonlinear_arith)
        requires
            d > 0,
            CHANNEL_SCALE * n >= 255 * d,
    ;
}

/// Every packed pixel value keeps each channel within the 8-bit range, whatever
/// the scaled values were.
pub proof fn lemma_color_in_range(r: int, g: int, b: int)
    ensures
        0 <= quantize_spec(r) <= 255,
        0 <= color_spec(r, g, b) < 0x1000000,
{
}

} // verus!
