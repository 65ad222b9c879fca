//! Integer pixel arithmetic of the glyph renderer: compositing a coloured
//! glyph pixel over a premultiplied pixel, and the box filter that brings a
//! supersampled glyph bitmap down to screen pixels.
use vstd::prelude::*;

verus! {

/// Whether an RGBA pixel is validly premultiplied: no colour channel above
/// the alpha.
pub open spec fn premultiplied(p: [u8; 4]) -> bool {
    p[0] <= p[3] && p[1] <= p[3] && p[2] <= p[3]
}

/// The alpha with which a glyph pixel of `coverage` in colour `rgba` is
/// laid down.
pub open spec fn glyph_alpha(coverage: u8, rgba: [u8; 4]) -> int {
    (coverage * rgba[3]) / 255
}

/// One channel of `src` over `dst` with source alpha `a`.
pub open spec fn over(src: int, dst: int, a: int) -> int {
    (src * a + dst * (255 - a)) / 255
}

/// Composite a glyph pixel of `coverage` in colour `rgba` (straight alpha)
/// over the premultiplied pixel `dst`.
pub open spec fn spec_blend(dst: [u8; 4], coverage: u8, rgba: [u8; 4]) -> [u8; 4] {
    let a = glyph_alpha(coverage, rgba);
    [
        over(rgba[0] as int, dst[0] as int, a) as u8,
        over(rgba[1] as int, dst[1] as int, a) as u8,
        over(rgba[2] as int, dst[2] as int, a) as u8,
        over(255, dst[3] as int, a) as u8,
    ]
}

proof fn lemma_over_bounds(src: int, dst: int, da: int, a: int)
    requires
        0 <= src <= 255,
        0 <= dst <= da <= 255,
        0 <= a <= 255,
    ensures
        0 <= over(src, dst, a) <= over(255, da, a) <= 255,
{
    assert(0 <= src * a <= 255 * a) by (nonlinear_arith)
        requires
            0 <= src <= 255,
            0 <= a <= 255,
    ;
    assert(0 <= dst * (255 - a) <= da * (255 - a)) by (nonlinear_arith)
        requires
            0 <= dst <= da,
            0 <= a <= 255,
    ;
    assert(da * (255 - a) <= 255 * (255 - a)) by (nonlinear_arith)
        requires
            0 <= da <= 255,
            0 <= a <= 255,
    ;
    let x = src * a + dst * (255 - a);
    let y = 255 * a + da * (255 - a);
    assert(0 <= x <= y <= 65025);
    assert(x / 255 <= y / 255) by (nonlinear_arith)
        requires
            0 <= x <= y,
    ;
    assert(y / 255 <= 255) by (nonlinear_arith)
        requires
            0 <= y <= 65025,
    ;
    assert(x / 255 >= 0) by (nonlinear_arith)
        requires
            0 <= x,
    ;
}

/// Composite a glyph pixel over a premultiplied pixel. The result is again
/// validly premultiplied.
pub fn blend(dst: [u8; 4], coverage: u8, rgba: [u8; 4]) -> (out: [u8; 4])
    requires
        premultiplied(dst),
    ensures
        out == spec_blend(dst, coverage, rgba),
        premultiplied(out),
{
    let cov = coverage as u32;
    assert(cov * (rgba[3] as u32) <= 65025) by (nonlinear_arith)
        requires
            cov <= 255,
            rgba[3] <= 255,
    ;
    let a: u32 = cov * (rgba[3] as u32) / 255;
    assert(a <= 255) by (nonlinear_arith)
        requires
            a == cov * (rgba[3] as u32) / 255,
            cov * (rgba[3] as u32) <= 65025,
    ;
    let inv: u32 = 255 - a;
    proof {
        lemma_over_bounds(rgba[0] as int, dst[0] as int, dst[3] as int, a as int);
        lemma_over_bounds(rgba[1] as int, dst[1] as int, dst[3] as int, a as int);
        lemma_over_bounds(rgba[2] as int, dst[2] as int, dst[3] as int, a as int);
        lemma_over_bounds(255, dst[3] as int, dst[3] as int, a as int);
    }
    let r = ((rgba[0] as u32) * a + (dst[0] as u32) * inv) / 255;
    let g = ((rgba[1] as u32) * a + (dst[1] as u32) * inv) / 255;
    let b = ((rgba[2] as u32) * a + (dst[2] as u32) * inv) / 255;
    let al = (255 * a + (dst[3] as u32) * inv) / 255;
    let out: [u8; 4] = [r as u8, g as u8, b as u8, al as u8];
    assert(out@ =~= spec_blend(dst, coverage, rgba)@);
    out
}

/// A glyph pixel of zero coverage leaves the pixel as it was.
pub proof fn lemma_blend_zero_coverage_keeps(dst: [u8; 4], rgba: [u8; 4])
    ensures
        spec_blend(dst, 0, rgba) == dst,
{
    assert(glyph_alpha(0, rgba) == 0);
    assert(spec_blend(dst, 0, rgba)@ =~= dst@);
}

/// An opaque glyph pixel at full coverage replaces the pixel by its colour.
pub proof fn lemma_blend_opaque_replaces(dst: [u8; 4], r: u8, g: u8, b: u8)
    ensures
        spec_blend(dst, 255, [r, g, b, 255]) == [r, g, b, 255u8],
{
    assert(glyph_alpha(255, [r, g, b, 255]) == 255);
    assert(spec_blend(dst, 255, [r, g, b, 255])@ =~= [r, g, b, 255u8]@);
}

/// Sum of `n` bitmap values from index `start` on.
pub open spec fn run_sum(bmp: Seq<u8>, start: int, n: int) -> int
    decreases n,
{
    if n <= 0 {
        0
    } else {
        run_sum(bmp, start, n - 1) + bmp[start + n - 1]
    }
}

/// Sum of the `nr` by `nc` block of a bitmap `width` wide whose top-left
/// value is at (`row`, `col`).
pub open spec fn block_sum(bmp: Seq<u8>, width: int, row: int, col: int, nr: int, nc: int) -> int
    decreases nr,
{
    if nr <= 0 {
        0
    } else {
        block_sum(bmp, width, row, col, nr - 1, nc) + run_sum(bmp, (row + nr - 1) * width + col, nc)
    }
}

pub open spec fn min_int(a: int, b: int) -> int {
    if a < b { a } else { b }
}

/// The screen pixel of a supersampled bitmap (`width` by `height`, `ss`
/// samples per pixel each way) at sample (`row`, `col`): the mean of the
/// `ss` by `ss` block there, cut at the bitmap's edges, rounded down.
pub open spec fn spec_block_coverage(
    bmp: Seq<u8>,
    width: int,
    height: int,
    row: int,
    col: int,
    ss: int,
) -> int {
    let nr = min_int(ss, height - row);
    let nc = min_int(ss, width - col);
    block_sum(bmp, width, row, col, nr, nc) / (nr * nc)
}

proof fn lemma_run_sum_bound(bmp: Seq<u8>, start: int, n: int)
    requires
        0 <= n,
    ensures
        0 <= run_sum(bmp, start, n) <= 255 * n,
    decreases n,
{
    if n > 0 {
        lemma_run_sum_bound(bmp, start, n - 1);
    }
}

proof fn lemma_block_sum_bound(bmp: Seq<u8>, width: int, row: int, col: int, nr: int, nc: int)
    requires
        0 <= nr,
        0 <= nc,
    ensures
        0 <= block_sum(bmp, width, row, col, nr, nc) <= 255 * nr * nc,
    decreases nr,
{
    if nr > 0 {
        lemma_block_sum_bound(bmp, width, row, col, nr - 1, nc);
        lemma_run_sum_bound(bmp, (row + nr - 1) * width + col, nc);
        assert(255 * (nr - 1) * nc + 255 * nc == 255 * nr * nc) by (nonlinear_arith);
    }
}

/// Index of sample (`r`, `c`) of a bitmap `width` wide lies inside a
/// bitmap of `height` rows.
proof fn lemma_index_in_bounds(width: int, height: int, r: int, c: int)
    requires
        0 <= r < height,
        0 <= c < width,
    ensures
        0 <= r * width + c < width * height,
        r * width + c + 1 <= (r + 1) * width,
{
    assert(0 <= r * width) by (nonlinear_arith)
        requires
            0 <= r,
            0 <= width,
    ;
    assert((r + 1) * width <= height * width) by (nonlinear_arith)
        requires
            0 <= r < height,
            0 <= width,
    ;
    assert((r + 1) * width == r * width + width) by (nonlinear_arith);
    assert(height * width == width * height) by (nonlinear_arith);
}

/// The screen coverage of one supersampled glyph pixel block.
pub fn block_coverage(bmp: &[u8], width: usize, height: usize, row: usize, col: usize, ss: usize) -> (cov: u8)
    requires
        bmp@.len() >= width * height,
        row < height,
        col < width,
        1 <= ss <= 4096,
    ensures
        cov == spec_block_coverage(bmp@, width as int, height as int, row as int, col as int, ss as int),
{
    let nr: usize = if ss < height - row { ss } else { height - row };
    let nc: usize = if ss < width - col { ss } else { width - col };
    let ghost s = bmp@;
    let blen = bmp.len();
    let mut sum: u32 = 0;
    let mut dy: usize = 0;
    while dy < nr
        invariant
            s == bmp@,
            blen == s.len(),
            s.len() >= width * height,
            row < height,
            col < width,
            1 <= nr <= ss <= 4096,
            1 <= nc <= ss,
            row + nr <= height,
            col + nc <= width,
            dy <= nr,
            sum == block_sum(s, width as int, row as int, col as int, dy as int, nc as int),
            sum <= 255 * dy * nc,
        decreases nr - dy,
    {
        let r = row + dy;
        proof {
            lemma_index_in_bounds(width as int, height as int, r as int, col as int);
            lemma_index_in_bounds(width as int, height as int, r as int, (col + nc - 1) as int);
        }
        let off = r * width + col;
        let mut dx: usize = 0;
        let mut rs: u32 = 0;
        while dx < nc
            invariant
                s == bmp@,
                blen == s.len(),
                off + nc <= s.len(),
                dx <= nc,
                nc <= 4096,
                rs == run_sum(s, off as int, dx as int),
                rs <= 255 * dx,
            decreases nc - dx,
        {
            rs = rs + bmp[off + dx] as u32;
            dx = dx + 1;
        }
        proof {
            lemma_block_sum_bound(s, width as int, row as int, col as int, dy as int, nc as int);
            assert(255 * dy * nc + 255 * nc == 255 * (dy + 1) * nc) by (nonlinear_arith);
            assert(255 * (dy + 1) * nc <= 255 * 4096 * 4096) by (nonlinear_arith)
                requires
                    dy + 1 <= 4096,
                    nc <= 4096,
            ;
        }
        sum = sum + rs;
        dy = dy + 1;
    }
    proof {
        lemma_block_sum_bound(s, width as int, row as int, col as int, nr as int, nc as int);
    }
    assert(1 <= nr * nc) by (nonlinear_arith)
        requires
            1 <= nr,
            1 <= nc,
    ;
    assert(nr * nc <= 4096 * 4096) by (nonlinear_arith)
        requires
            nr <= 4096,
            nc <= 4096,
    ;
    let cnt = (nr * nc) as u32;
    let avg = sum / cnt;
    assert(avg <= 255) by (nonlinear_arith)
        requires
            avg == sum / cnt,
            sum <= 255 * nr * nc,
            cnt == nr * nc,
            cnt >= 1,
    ;
    avg as u8
}

} // verus!
