//! The color sample type: a 4-channel (alpha, red, green, blue) value with a
//! lossless conversion to and from the packed 32-bit ARGB pixel format that
//! the cursor image's backing buffer uses.

use vstd::prelude::*;

verus! {

/// One sampled screen color, alpha first, in the channel order of the packed
/// 32-bit cursor pixel format.
#[derive(Clone, Copy, Debug, PartialEq, Eq, Structural)]
pub struct ARGB {
    pub a: u8,
    pub r: u8,
    pub g: u8,
    pub b: u8,
}

/// The packed 32-bit form of a color: `0xAARRGGBB`.
pub open spec fn spec_pack(c: ARGB) -> u32 {
    ((c.a as u32) << 24) | ((c.r as u32) << 16) | ((c.g as u32) << 8) | (c.b as u32)
}

/// The color whose packed form a 32-bit pixel holds.
pub open spec fn spec_unpack(p: u32) -> ARGB {
    ARGB {
        a: ((p >> 24) & 0xff) as u8,
        r: ((p >> 16) & 0xff) as u8,
        g: ((p >> 8) & 0xff) as u8,
        b: (p & 0xff) as u8,
    }
}

impl ARGB {
    pub fn new(a: u8, r: u8, g: u8, b: u8) -> (c: ARGB)
        ensures
            c == (ARGB { a, r, g, b }),
    {
        ARGB { a, r, g, b }
    }

    /// The fully transparent sample used to fill everything outside the
    /// circular preview and the uncovered part of an edge-clamped capture.
    pub fn transparent() -> (c: ARGB)
        ensures
            c == (ARGB { a: 0u8, r: 0u8, g: 0u8, b: 0u8 }),
            spec_pack(c) == 0u32,
    {
        proof {
            lemma_pack_transparent();
        }
        ARGB { a: 0, r: 0, g: 0, b: 0 }
    }

    /// Pack the four channels into one 32-bit pixel, `0xAARRGGBB`.
    pub fn pack(self) -> (p: u32)
        ensures
            p == spec_pack(self),
    {
        ((self.a as u32) << 24) | ((self.r as u32) << 16) | ((self.g as u32) << 8) | (
        self.b as u32)
    }

    /// Recover the four channels from a packed 32-bit pixel.
    pub fn unpack(p: u32) -> (c: ARGB)
        ensures
            c == spec_unpack(p),
    {
        ARGB {
            a: ((p >> 24) & 0xff) as u8,
            r: ((p >> 16) & 0xff) as u8,
            g: ((p >> 8) & 0xff) as u8,
            b: (p & 0xff) as u8,
        }
    }
}

/// The all-zero color packs to the all-zero pixel.
pub proof fn lemma_pack_transparent()
    ensures
        spec_pack(ARGB { a: 0u8, r: 0u8, g: 0u8, b: 0u8 }) == 0u32,
{
    assert(((0u8 as u32) << 24) | ((0u8 as u32) << 16) | ((0u8 as u32) << 8) | (0u8 as u32)
        == 0u32) by (bit_vector);
}

/// Packing then unpacking a color yields the original channel values exactly.
pub proof fn lemma_unpack_pack(c: ARGB)
    ensures
        spec_unpack(spec_pack(c)) == c,
{
    let a = c.a;
    let r = c.r;
    let g = c.g;
    let b = c.b;
    let p = spec_pack(c);
    assert(p == ((a as u32) << 24) | ((r as u32) << 16) | ((g as u32) << 8) | (b as u32));
    assert({
        let q = ((a as u32) << 24) | ((r as u32) << 16) | ((g as u32) << 8) | (b as u32);
        ((q >> 24) & 0xff) as u8 == a && ((q >> 16) & 0xff) as u8 == r && ((q >> 8) & 0xff) as u8
            == g && (q & 0xff) as u8 == b
    }) by (bit_vector);
}

/// Unpacking then packing a 32-bit pixel yields the same pixel: no channel
/// information lives outside the four 8-bit fields.
pub proof fn lemma_pack_unpack(p: u32)
    ensures
        spec_pack(spec_unpack(p)) == p,
{
    assert({
        let a = ((p >> 24) & 0xff) as u8;
        let r = ((p >> 16) & 0xff) as u8;
        let g = ((p >> 8) & 0xff) as u8;
        let b = (p & 0xff) as u8;
        ((a as u32) << 24) | ((r as u32) << 16) | ((g as u32) << 8) | (b as u32) == p
    }) by (bit_vector);
}

/// An unpacked transparent pixel has alpha zero.
pub proof fn lemma_unpack_zero_alpha()
    ensures
        spec_unpack(0u32).a == 0u8,
{
    assert(((0u32 >> 24) & 0xff) as u8 == 0u8) by (bit_vector);
}

} // verus!
