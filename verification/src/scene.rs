//! Colors given as `0xRRGGBB`.
use vstd::prelude::*;

verus! {

/// The red, green and blue bytes of a color written `0xRRGGBB` (bits above the low 24 are
/// ignored).
pub fn hex_channels(rgb: u32) -> (c: (u8, u8, u8))
    ensures
        c.0 == (rgb / 0x1_0000) % 0x100,
        c.1 == (rgb / 0x100) % 0x100,
        c.2 == rgb % 0x100,
{
    let r = (rgb >> 16) & 0xff;
    let g = (rgb >> 8) & 0xff;
    let b = rgb & 0xff;
    assert(r == (rgb / 0x1_0000) % 0x100) by (bit_vector)
        requires
            r == (rgb >> 16) & 0xff,
    ;
    assert(g == (rgb / 0x100) % 0x100) by (bit_vector)
        requires
            g == (rgb >> 8) & 0xff,
    ;
    assert(b == rgb % 0x100) by (bit_vector)
        requires
            b == rgb & 0xff,
    ;
    (r as u8, g as u8, b as u8)
}

} // verus!
