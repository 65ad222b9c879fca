//! Pixel format of the wlr-layer-shell overlay.
use vstd::prelude::*;

verus! {

/// The complete pixels of an RGBA byte buffer with red and blue swapped
/// (a trailing partial pixel is dropped).
pub open spec fn spec_rgba_to_bgra(src: Seq<u8>) -> Seq<u8> {
    Seq::new(
        (src.len() / 4) * 4,
        |i: int|
            if i % 4 == 0 {
                src[i + 2]
            } else if i % 4 == 2 {
                src[i - 2]
            } else {
                src[i]
            },
    )
}

/// Convert premultiplied RGBA bytes to the ARGB8888 layout of a
/// little-endian shared-memory buffer (bytes B, G, R, A).
pub fn rgba_to_bgra(src: &[u8]) -> (dst: Vec<u8>)
    ensures
        dst@ == spec_rgba_to_bgra(src@),
{
    let len = src.len();
    let n = len / 4;
    let mut dst: Vec<u8> = Vec::new();
    let mut i: usize = 0;
    while i < n
        invariant
            n == src@.len() / 4,
            len == src@.len(),
            i <= n,
            dst@ =~= spec_rgba_to_bgra(src@).subrange(0, 4 * i as int),
        decreases n - i,
    {
        assert(4 * i + 3 < src@.len()) by (nonlinear_arith)
            requires
                i < n,
                n == src@.len() / 4,
        ;
        assert(4 * i + 3 < len);
        dst.push(src[4 * i + 2]);
        dst.push(src[4 * i + 1]);
        dst.push(src[4 * i]);
        dst.push(src[4 * i + 3]);
        i = i + 1;
    }
    dst
}

/// Swapping red and blue twice gives back the pixels.
pub proof fn lemma_rgba_bgra_involution(src: Seq<u8>)
    requires
        src.len() % 4 == 0,
    ensures
        spec_rgba_to_bgra(spec_rgba_to_bgra(src)) == src,
{
    assert(spec_rgba_to_bgra(spec_rgba_to_bgra(src)) =~= src);
}

/// Widest of the windows (`w`, `h`), 0 without windows.
pub open spec fn max_w(ws: Seq<(u16, u16)>) -> int
    decreases ws.len(),
{
    if ws.len() == 0 {
        0
    } else {
        let m = max_w(ws.drop_last());
        if ws.last().0 > m { ws.last().0 as int } else { m }
    }
}

/// Row stride of the shared pool: four bytes per pixel of the widest
/// window (of one pixel without windows).
pub open spec fn pool_stride(ws: Seq<(u16, u16)>) -> int {
    if ws.len() == 0 { 4 } else { max_w(ws) * 4 }
}

/// Rows of all the windows together.
pub open spec fn rows_sum(ws: Seq<(u16, u16)>) -> int
    decreases ws.len(),
{
    if ws.len() == 0 { 0 } else { rows_sum(ws.drop_last()) + ws.last().1 }
}

/// Bytes of the windows' own buffers, one after another.
pub open spec fn area_sum(ws: Seq<(u16, u16)>) -> int
    decreases ws.len(),
{
    if ws.len() == 0 {
        0
    } else {
        area_sum(ws.drop_last()) + ws.last().1 * ws.last().0 * 4
    }
}

/// Size of the shared pool: every window's rows at the pool stride, at
/// least one byte.
pub open spec fn pool_size(ws: Seq<(u16, u16)>) -> int {
    let b = rows_sum(ws) * pool_stride(ws);
    if b < 1 { 1 } else { b }
}

proof fn lemma_area_within_rows(ws: Seq<(u16, u16)>, m: int)
    requires
        forall|i: int| 0 <= i < ws.len() ==> (#[trigger] ws[i]).0 <= m,
    ensures
        0 <= area_sum(ws) <= rows_sum(ws) * (m * 4),
        0 <= rows_sum(ws),
    decreases ws.len(),
{
    if ws.len() > 0 {
        let p = ws.drop_last();
        assert forall|i: int| 0 <= i < p.len() implies (#[trigger] p[i]).0 <= m by {
            assert(p[i] == ws[i]);
        }
        lemma_area_within_rows(p, m);
        let (w, h) = ws.last();
        assert(ws[ws.len() - 1].0 <= m);
        assert(0 <= h * w * 4 <= h * (m * 4)) by (nonlinear_arith)
            requires
                0 <= w <= m,
                0 <= h,
        ;
        assert(rows_sum(p) * (m * 4) + h * (m * 4) == (rows_sum(p) + h) * (m * 4)) by (nonlinear_arith);
    }
}

proof fn lemma_max_w(ws: Seq<(u16, u16)>)
    ensures
        forall|i: int| 0 <= i < ws.len() ==> (#[trigger] ws[i]).0 <= max_w(ws),
        0 <= max_w(ws) <= 65535,
    decreases ws.len(),
{
    if ws.len() > 0 {
        lemma_max_w(ws.drop_last());
        assert forall|i: int| 0 <= i < ws.len() implies (#[trigger] ws[i]).0 <= max_w(ws) by {
            if i < ws.len() - 1 {
                assert(ws[i] == ws.drop_last()[i]);
            }
        }
    }
}

/// Layout of the windows' buffers in one shared-memory pool: each buffer's
/// byte offset (the buffers follow one another, each its own rows times
/// four bytes per pixel) and the pool's size.
pub fn shm_layout(ws: &[(u16, u16)]) -> (res: (Vec<usize>, u32))
    requires
        rows_sum(ws@) * pool_stride(ws@) <= i32::MAX,
    ensures
        res.0@.len() == ws@.len(),
        forall|k: int| 0 <= k < ws@.len() ==> res.0@[k] == area_sum(#[trigger] ws@.subrange(0, k)),
        res.1 == pool_size(ws@),
        forall|k: int| 0 < k <= ws@.len() ==> area_sum(#[trigger] ws@.subrange(0, k)) <= res.1,
{
    proof {
        lemma_max_w(ws@);
    }
    let n = ws.len();
    let mut m: u64 = 0;
    let mut i: usize = 0;
    while i < n
        invariant
            n == ws@.len(),
            i <= n,
            m == max_w(ws@.subrange(0, i as int)),
            m <= 65535,
        decreases n - i,
    {
        assert(ws@.subrange(0, i + 1).drop_last() =~= ws@.subrange(0, i as int));
        if ws[i].0 as u64 > m {
            m = ws[i].0 as u64;
        }
        i = i + 1;
    }
    assert(ws@.subrange(0, n as int) =~= ws@);
    let stride: u64 = if n == 0 { 4 } else { m * 4 };
    proof {
        lemma_area_within_rows(ws@, max_w(ws@));
    }
    let mut offsets: Vec<usize> = Vec::new();
    let mut off: u64 = 0;
    let mut bytes: u64 = 0;
    i = 0;
    while i < n
        invariant
            n == ws@.len(),
            i <= n,
            stride == pool_stride(ws@),
            stride <= 65535 * 4,
            forall|j: int| 0 <= j < n ==> (#[trigger] ws@[j]).0 <= max_w(ws@),
            n > 0 ==> stride == max_w(ws@) * 4,
            rows_sum(ws@) * pool_stride(ws@) <= i32::MAX,
            offsets@.len() == i,
            forall|k: int| 0 <= k < i ==> offsets@[k] == area_sum(#[trigger] ws@.subrange(0, k)),
            off == area_sum(ws@.subrange(0, i as int)),
            bytes == rows_sum(ws@.subrange(0, i as int)) * stride,
            forall|k: int| 0 < k <= i ==> area_sum(#[trigger] ws@.subrange(0, k)) <= rows_sum(ws@) * stride,
        decreases n - i,
    {
        let ghost pre = ws@.subrange(0, i as int);
        let ghost post = ws@.subrange(0, i + 1);
        assert(post.drop_last() =~= pre);
        assert(post.last() == ws@[i as int]);
        proof {
            assert forall|j: int| 0 <= j < post.len() implies (#[trigger] post[j]).0 <= max_w(ws@) by {
                assert(post[j] == ws@[j]);
            }
            lemma_area_within_rows(post, max_w(ws@));
            assert forall|j: int| 0 <= j < (ws@.subrange(i + 1, n as int)).len() implies
                (#[trigger] ws@.subrange(i + 1, n as int)[j]).0 <= max_w(ws@) by {
                assert(ws@.subrange(i + 1, n as int)[j] == ws@[i + 1 + j]);
            }
            lemma_rows_split(ws@, i + 1);
            lemma_rows_nonneg(ws@.subrange(i + 1, n as int));
            assert(rows_sum(post) * stride <= rows_sum(ws@) * stride) by (nonlinear_arith)
                requires
                    rows_sum(post) <= rows_sum(ws@),
                    0 <= stride,
            ;
            assert(area_sum(post) <= rows_sum(ws@) * stride);
        }
        offsets.push(off as usize);
        let (w, h) = ws[i];
        assert((h as u64) * (w as u64) * 4 <= 65535 * 65535 * 4) by (nonlinear_arith)
            requires
                w <= 65535,
                h <= 65535,
        ;
        assert(rows_sum(post) * stride == bytes + (h as u64) * stride) by (nonlinear_arith)
            requires
                rows_sum(post) == rows_sum(pre) + h,
                bytes == rows_sum(pre) * stride,
        ;
        off = off + (h as u64) * (w as u64) * 4;
        bytes = bytes + (h as u64) * stride;
        i = i + 1;
    }
    assert(ws@.subrange(0, n as int) =~= ws@);
    let size: u32 = if bytes < 1 { 1 } else { bytes as u32 };
    assert(bytes == rows_sum(ws@) * stride);
    (offsets, size)
}

proof fn lemma_rows_nonneg(ws: Seq<(u16, u16)>)
    ensures
        0 <= rows_sum(ws),
    decreases ws.len(),
{
    if ws.len() > 0 {
        lemma_rows_nonneg(ws.drop_last());
    }
}

/// The rows of a prefix and of the rest add up to all the rows.
proof fn lemma_rows_split(ws: Seq<(u16, u16)>, k: int)
    requires
        0 <= k <= ws.len(),
    ensures
        rows_sum(ws) == rows_sum(ws.subrange(0, k)) + rows_sum(ws.subrange(k, ws.len() as int)),
    decreases ws.len() - k,
{
    if k < ws.len() {
        lemma_rows_split(ws, k + 1);
        let a = ws.subrange(k, ws.len() as int);
        let b = ws.subrange(k + 1, ws.len() as int);
        lemma_rows_front(a);
        assert(a.drop_first() =~= b);
        assert(ws.subrange(0, k + 1).drop_last() =~= ws.subrange(0, k));
    } else {
        assert(ws.subrange(0, k) =~= ws);
        assert(ws.subrange(k, ws.len() as int) =~= Seq::<(u16, u16)>::empty());
    }
}

/// Rows of a non-empty list: its first window's and the rest's.
proof fn lemma_rows_front(ws: Seq<(u16, u16)>)
    requires
        ws.len() > 0,
    ensures
        rows_sum(ws) == ws[0].1 + rows_sum(ws.drop_first()),
    decreases ws.len(),
{
    if ws.len() > 1 {
        lemma_rows_front(ws.drop_last());
        assert(ws.drop_last().drop_first() =~= ws.drop_first().drop_last());
        assert(ws.drop_first().last() == ws.last());
    } else {
        assert(ws.drop_first() =~= Seq::<(u16, u16)>::empty());
        assert(ws.drop_last() =~= Seq::<(u16, u16)>::empty());
    }
}

} // verus!
