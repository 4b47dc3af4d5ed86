use vstd::prelude::*;

verus! {

/// The packed 0x00BBGGRR value of a colour given as (red, green, blue).
pub open spec fn spec_rgb(r: u8, g: u8, b: u8) -> u32 {
    (r as u32) | ((g as u32) << 8u32) | ((b as u32) << 16u32)
}

/// Packs an (red, green, blue) triple into the 0x00BBGGRR layout of a GDI colour.
pub fn rgb(c: (u8, u8, u8)) -> (v: u32)
    ensures
        v == spec_rgb(c.0, c.1, c.2),
        v < 0x0100_0000,
        v & 0xff == c.0,
        (v >> 8u32) & 0xff == c.1,
        v >> 16u32 == c.2,
{
    let (r, g, b) = c;
    let v = (r as u32) | ((g as u32) << 8u32) | ((b as u32) << 16u32);
    assert(v < 0x0100_0000 && v & 0xff == r && (v >> 8u32) & 0xff == g && v >> 16u32 == b) by (bit_vector)
        requires
            v == (r as u32) | ((g as u32) << 8u32) | ((b as u32) << 16u32),
    ;
    v
}

} // verus!
