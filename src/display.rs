//! Turning the framebuffer into 0RGB pixels for a host window.
use vstd::prelude::*;

verus! {

/// Packs a colour into a 0RGB word: red in bits 16-23, green in 8-15, blue in 0-7.
pub fn from_u8_rgb(r: u8, g: u8, b: u8) -> (c: u32)
    ensures
        c == r as int * 0x10000 + g as int * 0x100 + b as int,
{
    let (r, g, b) = (r as u32, g as u32, b as u32);
    assert((r << 16u32) | (g << 8u32) | b == r * 0x10000 + g * 0x100 + b) by (bit_vector)
        requires
            r < 256,
            g < 256,
            b < 256,
    ;
    (r << 16) | (g << 8) | b
}

/// The colour of a set pixel.
pub const WHITE: u32 = 0xFF_FFFF;

/// The colour of an unset pixel.
pub const BLACK: u32 = 0;

/// One pixel word per framebuffer pixel: `WHITE` where set, `BLACK` elsewhere.
pub fn render(screen: &Vec<bool>) -> (buf: Vec<u32>)
    ensures
        buf@ == screen@.map_values(|on: bool| if on { WHITE } else { BLACK }),
{
    let mut buf: Vec<u32> = Vec::new();
    let mut k: usize = 0;
    while k < screen.len()
        invariant
            k <= screen@.len(),
            buf@ == screen@.subrange(0, k as int).map_values(|on: bool| if on { WHITE } else { BLACK }),
        decreases screen@.len() - k,
    {
        if screen[k] {
            buf.push(WHITE);
        } else {
            buf.push(BLACK);
        }
        k = k + 1;
        assert(buf@ =~= screen@.subrange(0, k as int).map_values(|on: bool| if on { WHITE } else { BLACK }));
    }
    assert(screen@.subrange(0, k as int) =~= screen@);
    buf
}

} // verus!
