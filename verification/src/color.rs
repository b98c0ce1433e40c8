//! Packed 32-bit colors.
//!
//! A color is four 8-bit channels in one `u32`: alpha in the top byte, then
//! red, green and blue. Alpha 0 is fully transparent, alpha 255 fully opaque.

use vstd::prelude::*;

verus! {

/// The color that lets everything beneath the overlay show through.
pub const TRANSPARENT: u32 = 0;

/// The four channels packed into one word.
pub open spec fn pack(a: u8, r: u8, g: u8, b: u8) -> u32 {
    ((a as u32) << 24) | ((r as u32) << 16) | ((g as u32) << 8) | (b as u32)
}

/// The alpha channel of a packed color.
pub open spec fn alpha_of(color: u32) -> u8 {
    (color >> 24) as u8
}

/// Packs alpha, red, green and blue into one color.
pub fn argb(a: u8, r: u8, g: u8, b: u8) -> (color: u32)
    ensures
        color == pack(a, r, g, b),
{
    ((a as u32) << 24) | ((r as u32) << 16) | ((g as u32) << 8) | (b as u32)
}

/// Packs red, green, blue and alpha into one color; the channels end up
/// where `argb` puts them.
pub fn rgba(r: u8, g: u8, b: u8, a: u8) -> (color: u32)
    ensures
        color == pack(a, r, g, b),
{
    argb(a, r, g, b)
}

/// Reads the alpha channel back out of a packed color.
pub fn alpha(color: u32) -> (a: u8)
    ensures
        a == alpha_of(color),
{
    (color >> 24) as u8
}

/// Packing keeps every channel apart: the alpha that went in comes out
/// again, and two colors are equal only if all four channels are.
pub proof fn lemma_pack_is_injective(a: u8, r: u8, g: u8, b: u8, a2: u8, r2: u8, g2: u8, b2: u8)
    ensures
        alpha_of(pack(a, r, g, b)) == a,
        pack(a, r, g, b) == pack(a2, r2, g2, b2) <==> (a == a2 && r == r2 && g == g2 && b == b2),
{
    assert(((((a as u32) << 24) | ((r as u32) << 16) | ((g as u32) << 8) | (b as u32)) >> 24) as u8
        == a) by (bit_vector);
    assert((((a as u32) << 24) | ((r as u32) << 16) | ((g as u32) << 8) | (b as u32)) == ((
    (a2 as u32) << 24) | ((r2 as u32) << 16) | ((g2 as u32) << 8) | (b2 as u32)) ==> (a == a2 && r
        == r2 && g == g2 && b == b2)) by (bit_vector);
}

/// Transparent black packs to `TRANSPARENT`, and opaque red to `0xFFFF0000`.
pub proof fn lemma_pack_known_colors()
    ensures
        pack(0, 0, 0, 0) == TRANSPARENT,
        pack(255, 255, 0, 0) == 0xFFFF_0000u32,
        alpha_of(TRANSPARENT) == 0,
        alpha_of(0xFFFF_0000u32) == 255,
{
    assert((((0u8 as u32) << 24) | ((0u8 as u32) << 16) | ((0u8 as u32) << 8) | (0u8 as u32))
        == 0u32) by (bit_vector);
    assert((((255u8 as u32) << 24) | ((255u8 as u32) << 16) | ((0u8 as u32) << 8) | (0u8 as u32))
        == 0xFFFF_0000u32) by (bit_vector);
    assert(((0u32 >> 24) as u8) == 0u8) by (bit_vector);
    assert(((0xFFFF_0000u32 >> 24) as u8) == 255u8) by (bit_vector);
}

} // verus!
