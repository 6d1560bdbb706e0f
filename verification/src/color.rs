//! Mapping of escape counts to packed 32-bit colors.
//!
//! A pixel is packed as `[alpha, blue, green, red]` from most- to
//! least-significant byte. Alpha is always `0xFF`; blue and green wrap
//! modulo 256; red saturates at 255.
use vstd::prelude::*;

verus! {

/// Blue channel of an escape count: `i * 6`, wrapping modulo 256.
pub open spec fn blue_of(i: u8) -> u8 {
    ((i * 6) % 256) as u8
}

/// Green channel of an escape count: `i + i / 2`, wrapping modulo 256.
pub open spec fn green_of(i: u8) -> u8 {
    ((i + i / 2) % 256) as u8
}

/// Red channel of an escape count: `i * 8`, saturating at 255.
pub open spec fn red_of(i: u8) -> u8 {
    if i * 8 > 255 {
        255u8
    } else {
        (i * 8) as u8
    }
}

/// The packed color of an escape count: bytes `[0xFF, blue, green, red]`
/// from most- to least-significant.
pub open spec fn color_of(i: u8) -> u32 {
    (0xFF000000u32 + blue_of(i) * 0x10000 + green_of(i) * 0x100 + red_of(i)) as u32
}

/// Opaque white, the color of the diagnostic marker block.
pub const WHITE: u32 = 0xFFFFFFFF;

/// Black with full alpha, the color of an interior pixel (escape count 0).
pub const BLACK: u32 = 0xFF000000;

/// Maps an escape count to its packed color. Total over all 256 counts,
/// and a pure function of `i`.
pub fn pixel(i: u8) -> (r: u32)
    ensures
        r == color_of(i),
{
    let blue: u32 = (i as u32 * 6) % 256;
    let green: u32 = (i as u32 + i as u32 / 2) % 256;
    let product: u32 = i as u32 * 8;
    let red: u32 = if product > 255 {
        255
    } else {
        product
    };
    0xFF000000u32 + blue * 0x10000 + green * 0x100 + red
}

/// An escape count of 0 maps to black with full alpha, by the channel
/// formulas alone.
pub proof fn lemma_color_of_zero()
    ensures
        color_of(0) == BLACK,
{
}

/// The red channel of the largest escape count is saturated to 255,
/// not the wrapped product `255 * 8 % 256`.
pub proof fn lemma_color_red_saturates()
    ensures
        red_of(255) == 255,
        color_of(255) % 256 == 255,
{
}

/// No escape count maps to opaque white: the blue channel is always even.
pub proof fn lemma_color_of_never_white(i: u8)
    ensures
        color_of(i) != WHITE,
{
    let k: int = 3 * i;
    let q: int = (2 * k) / 256;
    assert((2 * k) % 256 == 2 * k - 256 * q) by {
        vstd::arithmetic::div_mod::lemma_fundamental_div_mod(2 * k, 256);
    }
    assert(blue_of(i) == 2 * (k - 128 * q));
    assert(blue_of(i) != 255);
}

} // verus!
