//! Pixel format of the X11 overlay.
use vstd::prelude::*;

verus! {

/// The 32-bit ARGB word of an RGBA pixel: alpha in the top byte, then red,
/// green, blue.
pub open spec fn argb_word(r: u8, g: u8, b: u8, a: u8) -> u32 {
    (a * 0x100_0000 + r * 0x1_0000 + g * 0x100 + b) as u32
}

/// The ARGB words of the complete pixels of an RGBA byte buffer (a trailing
/// partial pixel is dropped).
pub open spec fn spec_rgba_to_words(rgba: Seq<u8>) -> Seq<u32> {
    Seq::new(
        rgba.len() / 4,
        |i: int| argb_word(rgba[4 * i], rgba[4 * i + 1], rgba[4 * i + 2], rgba[4 * i + 3]),
    )
}

/// Convert premultiplied RGBA bytes to the ARGB words an X image of depth
/// 32 takes.
pub fn rgba_to_x11_pixels(rgba: &[u8]) -> (px: Vec<u32>)
    ensures
        px@ == spec_rgba_to_words(rgba@),
{
    let len = rgba.len();
    let n = len / 4;
    let mut px: Vec<u32> = Vec::new();
    let mut i: usize = 0;
    while i < n
        invariant
            n == rgba@.len() / 4,
            len == rgba@.len(),
            i <= n,
            px@ =~= spec_rgba_to_words(rgba@).subrange(0, i as int),
        decreases n - i,
    {
        assert(4 * i + 3 < rgba@.len()) by (nonlinear_arith)
            requires
                i < n,
                n == rgba@.len() / 4,
        ;
        assert(4 * i + 3 < len);
        let r = rgba[4 * i] as u32;
        let g = rgba[4 * i + 1] as u32;
        let b = rgba[4 * i + 2] as u32;
        let a = rgba[4 * i + 3] as u32;
        let w = (a << 24) | (r << 16) | (g << 8) | b;
        assert(w == a * 0x100_0000 + r * 0x1_0000 + g * 0x100 + b) by (bit_vector)
            requires
                w == (a << 24) | (r << 16) | (g << 8) | b,
                r < 256,
                g < 256,
                b < 256,
                a < 256,
        ;
        px.push(w);
        i = i + 1;
    }
    px
}

} // verus!
