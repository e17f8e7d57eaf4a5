//! RGB colors and their packing into the 32-bit words the peripheral shifts
//! out.
//!
//! The state machine shifts each word out most-significant-bit first and
//! stops after 24 bits, so a color sits in the top three byte lanes of its
//! word — green, then red, then blue — and the lowest lane is never sampled
//! and stays zero.

use vstd::prelude::*;

verus! {

/// One RGB color, 8 bits per channel, no alpha.
#[derive(Clone, Copy, PartialEq, Eq, Structural, Debug)]
pub struct Color {
    /// Red channel.
    pub r: u8,
    /// Green channel.
    pub g: u8,
    /// Blue channel.
    pub b: u8,
}

/// The wire word of a color: green in bits 31-24, red in bits 23-16, blue in
/// bits 15-8, bits 7-0 zero.
pub open spec fn spec_pack(c: Color) -> u32 {
    (c.g as u32) << 24 | (c.r as u32) << 16 | (c.b as u32) << 8
}

/// Byte lane `3` of a word: bits 31-24.
pub open spec fn lane3(w: u32) -> u8 {
    (w >> 24) as u8
}

/// Byte lane `2` of a word: bits 23-16.
pub open spec fn lane2(w: u32) -> u8 {
    ((w >> 16) & 0xff) as u8
}

/// Byte lane `1` of a word: bits 15-8.
pub open spec fn lane1(w: u32) -> u8 {
    ((w >> 8) & 0xff) as u8
}

/// Byte lane `0` of a word: bits 7-0.
pub open spec fn lane0(w: u32) -> u8 {
    (w & 0xff) as u8
}

/// The color read back from a word's byte lanes, by the same lane convention
/// that packing uses.
pub open spec fn spec_unpack(w: u32) -> Color {
    Color { r: lane2(w), g: lane3(w), b: lane1(w) }
}

/// Pack a color into its wire word: byte lanes (g, r, b, 0) from most to
/// least significant.
pub fn pack_word(c: Color) -> (w: u32)
    ensures
        w == spec_pack(c),
        lane3(w) == c.g,
        lane2(w) == c.r,
        lane1(w) == c.b,
        lane0(w) == 0,
{
    let w: u32 = (c.g as u32) << 24 | (c.r as u32) << 16 | (c.b as u32) << 8;
    proof {
        lemma_pack_lanes(c);
    }
    w
}

/// Read a color back out of a wire word's byte lanes.
pub fn unpack_word(w: u32) -> (c: Color)
    ensures
        c == spec_unpack(w),
{
    Color { r: ((w >> 16) & 0xff) as u8, g: (w >> 24) as u8, b: ((w >> 8) & 0xff) as u8 }
}

/// Packing fills the byte lanes (g, r, b, 0) exactly.
pub proof fn lemma_pack_lanes(c: Color)
    ensures
        lane3(spec_pack(c)) == c.g,
        lane2(spec_pack(c)) == c.r,
        lane1(spec_pack(c)) == c.b,
        lane0(spec_pack(c)) == 0,
{
    let g = c.g;
    let r = c.r;
    let b = c.b;
    assert((((g as u32) << 24 | (r as u32) << 16 | (b as u32) << 8) >> 24) as u8 == g)
        by (bit_vector);
    assert(((((g as u32) << 24 | (r as u32) << 16 | (b as u32) << 8) >> 16) & 0xff) as u8 == r)
        by (bit_vector);
    assert(((((g as u32) << 24 | (r as u32) << 16 | (b as u32) << 8) >> 8) & 0xff) as u8 == b)
        by (bit_vector);
    assert((((g as u32) << 24 | (r as u32) << 16 | (b as u32) << 8) & 0xff) as u8 == 0)
        by (bit_vector);
}

/// Packing is invertible by inspection: unpacking a packed word recovers the
/// original color.
pub proof fn lemma_pack_round_trip(c: Color)
    ensures
        spec_unpack(spec_pack(c)) == c,
{
    lemma_pack_lanes(c);
}

} // verus!
