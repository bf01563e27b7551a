//! The fixed 16-color palette and its cyclic lookup, plus the fixed color of
//! points that never escape.

use vstd::prelude::*;

verus! {

/// An RGB color, one byte per channel.
#[derive(Clone, Copy, Debug, PartialEq, Eq, Structural)]
pub struct Color {
    pub r: u8,
    pub g: u8,
    pub b: u8,
}

/// The number of anchor colors in the palette.
pub const PALETTE_LEN: usize = 16;

/// The anchor color at position `i` of the palette table, for `0 <= i < 16`.
pub open spec fn palette_anchor(i: int) -> Color
    recommends
        0 <= i < 16,
{
    if i == 0 {
        Color { r: 66, g: 30, b: 15 }
    } else if i == 1 {
        Color { r: 25, g: 7, b: 26 }
    } else if i == 2 {
        Color { r: 9, g: 1, b: 47 }
    } else if i == 3 {
        Color { r: 4, g: 4, b: 73 }
    } else if i == 4 {
        Color { r: 0, g: 7, b: 100 }
    } else if i == 5 {
        Color { r: 12, g: 44, b: 138 }
    } else if i == 6 {
        Color { r: 24, g: 82, b: 177 }
    } else if i == 7 {
        Color { r: 57, g: 125, b: 209 }
    } else if i == 8 {
        Color { r: 134, g: 181, b: 229 }
    } else if i == 9 {
        Color { r: 211, g: 236, b: 248 }
    } else if i == 10 {
        Color { r: 241, g: 233, b: 191 }
    } else if i == 11 {
        Color { r: 248, g: 201, b: 95 }
    } else if i == 12 {
        Color { r: 255, g: 170, b: 0 }
    } else if i == 13 {
        Color { r: 204, g: 128, b: 0 }
    } else if i == 14 {
        Color { r: 153, g: 87, b: 0 }
    } else {
        Color { r: 106, g: 52, b: 3 }
    }
}

/// The palette color for an unbounded lookup index: the table is indexed
/// cyclically, modulo its length.
pub open spec fn palette_color(n: int) -> Color
    recommends
        n >= 0,
{
    palette_anchor(n % 16)
}

/// Cyclic palette lookup: returns the anchor color at `n` modulo the table
/// length.
pub fn get_color(n: usize) -> (c: Color)
    ensures
        c == palette_color(n as int),
{
    let i: usize = n % 16;
    if i == 0 {
        Color { r: 66, g: 30, b: 15 }
    } else if i == 1 {
        Color { r: 25, g: 7, b: 26 }
    } else if i == 2 {
        Color { r: 9, g: 1, b: 47 }
    } else if i == 3 {
        Color { r: 4, g: 4, b: 73 }
    } else if i == 4 {
        Color { r: 0, g: 7, b: 100 }
    } else if i == 5 {
        Color { r: 12, g: 44, b: 138 }
    } else if i == 6 {
        Color { r: 24, g: 82, b: 177 }
    } else if i == 7 {
        Color { r: 57, g: 125, b: 209 }
    } else if i == 8 {
        Color { r: 134, g: 181, b: 229 }
    } else if i == 9 {
        Color { r: 211, g: 236, b: 248 }
    } else if i == 10 {
        Color { r: 241, g: 233, b: 191 }
    } else if i == 11 {
        Color { r: 248, g: 201, b: 95 }
    } else if i == 12 {
        Color { r: 255, g: 170, b: 0 }
    } else if i == 13 {
        Color { r: 204, g: 128, b: 0 }
    } else if i == 14 {
        Color { r: 153, g: 87, b: 0 }
    } else {
        Color { r: 106, g: 52, b: 3 }
    }
}

/// The palette is cyclic: a lookup index and that index shifted by the table
/// length name the same anchor color.
pub proof fn lemma_palette_cyclic(k: int)
    requires
        k >= 0,
    ensures
        palette_color(k + 16) == palette_color(k),
{
    vstd::arithmetic::div_mod::lemma_mod_add_multiples_vanish(k, 16);
}

/// The final clamp of the lighting model: a brightness-boosted channel value
/// saturates at 255 and never wraps around.
pub fn clamp_channel(v: u32) -> (b: u8)
    ensures
        v <= 255 ==> b == v as u8,
        v > 255 ==> b == 255u8,
{
    if v > 255 {
        255
    } else {
        v as u8
    }
}

/// The color of a point that reaches the iteration limit without escaping:
/// pure white, not a palette entry.
pub fn bounded_point_color() -> (c: Color)
    ensures
        c == (Color { r: 255, g: 255, b: 255 }),
{
    Color { r: 255, g: 255, b: 255 }
}

} // verus!
