//! Packing of 8-bit RGB triples into the `0x00RRGGBB` layout of a `u32`.
use vstd::prelude::*;

verus! {

/// The `0x00RRGGBB` value of an RGB triple.
pub open spec fn packed_rgb(r: u8, g: u8, b: u8) -> int {
    r * 0x10000 + g * 0x100 + b
}

/// The red, green and blue bytes held in bits 16..24, 8..16 and 0..8.
pub open spec fn rgb_of(packed: int) -> (u8, u8, u8) {
    (((packed / 0x10000) % 0x100) as u8, ((packed / 0x100) % 0x100) as u8, (packed % 0x100) as u8)
}

/// Packs an RGB triple into a single `u32`: `0x00RRGGBB`.
pub fn pack_rgb(r: u8, g: u8, b: u8) -> (packed: u32)
    ensures
        packed == packed_rgb(r, g, b),
        packed <= 0xFF_FFFF,
{
    let rr: u32 = r as u32;
    let gg: u32 = g as u32;
    let bb: u32 = b as u32;
    assert(((rr << 16u32) | (gg << 8u32) | bb) == rr * 0x10000 + gg * 0x100 + bb) by (bit_vector)
        requires
            rr < 256,
            gg < 256,
            bb < 256,
    ;
    (rr << 16u32) | (gg << 8u32) | bb
}

/// Unpacks a `0x00RRGGBB` value into its red, green and blue bytes.
/// Bits above the 24th are ignored.
pub fn unpack_rgb(packed: u32) -> (rgb: (u8, u8, u8))
    ensures
        rgb == rgb_of(packed as int),
{
    let r: u8 = ((packed >> 16u32) & 0xFFu32) as u8;
    let g: u8 = ((packed >> 8u32) & 0xFFu32) as u8;
    let b: u8 = (packed & 0xFFu32) as u8;
    assert((packed >> 16u32) & 0xFFu32 == (packed / 0x10000) % 0x100) by (bit_vector);
    assert((packed >> 8u32) & 0xFFu32 == (packed / 0x100) % 0x100) by (bit_vector);
    assert(packed & 0xFFu32 == packed % 0x100) by (bit_vector);
    (r, g, b)
}

/// Unpacking a packed triple gives the triple back.
pub proof fn lemma_unpack_pack(r: u8, g: u8, b: u8)
    ensures
        rgb_of(packed_rgb(r, g, b)) == (r, g, b),
{
    let p: int = packed_rgb(r, g, b);
    assert(p / 0x10000 == r as int) by (nonlinear_arith)
        requires p == r * 0x10000 + g * 0x100 + b, r < 256, g < 256, b < 256;
    assert((p / 0x100) % 0x100 == g as int) by (nonlinear_arith)
        requires p == r * 0x10000 + g * 0x100 + b, r < 256, g < 256, b < 256;
    assert(p % 0x100 == b as int) by (nonlinear_arith)
        requires p == r * 0x10000 + g * 0x100 + b, r < 256, g < 256, b < 256;
}

} // verus!
