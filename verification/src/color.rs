//! Packed 24-bit colors: red in the low byte, then green, then blue.

use vstd::prelude::*;

verus! {

/// The packed form of a color: `r` in bits 0..8, `g` in bits 8..16,
/// `b` in bits 16..24.
pub open spec fn spec_rgb(r: u8, g: u8, b: u8) -> u32 {
    (r as u32) | ((g as u32) << 8) | ((b as u32) << 16)
}

pub open spec fn spec_r_value(color: u32) -> u8 {
    (color & 0xff) as u8
}

pub open spec fn spec_g_value(color: u32) -> u8 {
    ((color >> 8) & 0xff) as u8
}

pub open spec fn spec_b_value(color: u32) -> u8 {
    ((color >> 16) & 0xff) as u8
}

/// Pack three 8-bit channels into one color value.
pub fn rgb(r: u8, g: u8, b: u8) -> (c: u32)
    ensures
        c == spec_rgb(r, g, b),
{
    (r as u32) | ((g as u32) << 8) | ((b as u32) << 16)
}

/// The red channel of a packed color.
pub fn get_r_value(rgb: u32) -> (r: u8)
    ensures
        r == spec_r_value(rgb),
{
    (rgb & 0xff) as u8
}

/// The green channel of a packed color.
pub fn get_g_value(rgb: u32) -> (g: u8)
    ensures
        g == spec_g_value(rgb),
{
    ((rgb >> 8) & 0xff) as u8
}

/// The blue channel of a packed color.
pub fn get_b_value(rgb: u32) -> (b: u8)
    ensures
        b == spec_b_value(rgb),
{
    ((rgb >> 16) & 0xff) as u8
}

/// Extracting the channels of a packed color gives back exactly the
/// channels it was packed from.
pub proof fn lemma_rgb_round_trip(r: u8, g: u8, b: u8)
    ensures
        spec_r_value(spec_rgb(r, g, b)) == r,
        spec_g_value(spec_rgb(r, g, b)) == g,
        spec_b_value(spec_rgb(r, g, b)) == b,
{
    assert((((r as u32) | ((g as u32) << 8) | ((b as u32) << 16)) & 0xff) as u8 == r)
        by (bit_vector);
    assert(((((r as u32) | ((g as u32) << 8) | ((b as u32) << 16)) >> 8) & 0xff) as u8 == g)
        by (bit_vector);
    assert(((((r as u32) | ((g as u32) << 8) | ((b as u32) << 16)) >> 16) & 0xff) as u8 == b)
        by (bit_vector);
}

/// The channel-wise average of two colors, used for the unfocused top
/// shadow: each channel is the floor of the mean of the two inputs.
pub open spec fn spec_blend(a: u32, b: u32) -> u32 {
    spec_rgb(
        ((spec_r_value(a) + spec_r_value(b)) / 2) as u8,
        ((spec_g_value(a) + spec_g_value(b)) / 2) as u8,
        ((spec_b_value(a) + spec_b_value(b)) / 2) as u8,
    )
}

/// Average two packed colors channel by channel.
pub fn blend(a: u32, b: u32) -> (c: u32)
    ensures
        c == spec_blend(a, b),
{
    let r: u32 = (get_r_value(a) as u32 + get_r_value(b) as u32) / 2;
    let g: u32 = (get_g_value(a) as u32 + get_g_value(b) as u32) / 2;
    let bl: u32 = (get_b_value(a) as u32 + get_b_value(b) as u32) / 2;
    rgb(r as u8, g as u8, bl as u8)
}

} // verus!
