//! Display outputs and the geometry derived from a set of them.
use vstd::prelude::*;

use crate::config::{FALLBACK_HEIGHT, FALLBACK_WIDTH};

verus! {

/// A display output: its name, origin and size in screen coordinates.
#[derive(Clone, Debug, PartialEq, Eq)]
pub struct Monitor {
    pub name: String,
    pub x: i32,
    pub y: i32,
    pub w: u16,
    pub h: u16,
}

impl Monitor {
    /// An equal copy of this monitor.
    pub fn duplicate(&self) -> (m: Monitor)
        ensures
            m == *self,
    {
        Monitor { name: self.name.clone(), x: self.x, y: self.y, w: self.w, h: self.h }
    }
}

/// Smallest element of a non-empty sequence.
pub open spec fn min_of(s: Seq<int>) -> int
    decreases s.len(),
{
    if s.len() <= 1 {
        s[0]
    } else {
        let m = min_of(s.drop_last());
        if s.last() < m { s.last() } else { m }
    }
}

/// Largest element of a non-empty sequence.
pub open spec fn max_of(s: Seq<int>) -> int
    decreases s.len(),
{
    if s.len() <= 1 {
        s[0]
    } else {
        let m = max_of(s.drop_last());
        if s.last() > m { s.last() } else { m }
    }
}

pub open spec fn lefts(ms: Seq<Monitor>) -> Seq<int> {
    ms.map_values(|m: Monitor| m.x as int)
}

pub open spec fn tops(ms: Seq<Monitor>) -> Seq<int> {
    ms.map_values(|m: Monitor| m.y as int)
}

pub open spec fn rights(ms: Seq<Monitor>) -> Seq<int> {
    ms.map_values(|m: Monitor| m.x + m.w)
}

pub open spec fn bottoms(ms: Seq<Monitor>) -> Seq<int> {
    ms.map_values(|m: Monitor| m.y + m.h)
}

/// The monitors' right and bottom edges, and the spans from the leftmost
/// and topmost edges to them, fit in `i32`.
pub open spec fn extents_fit(ms: Seq<Monitor>) -> bool {
    &&& forall|i: int| 0 <= i < ms.len() ==> #[trigger] ms[i].x + ms[i].w <= i32::MAX && ms[i].y
        + ms[i].h <= i32::MAX
    &&& ms.len() > 0 ==> max_of(rights(ms)) - min_of(lefts(ms)) <= i32::MAX
    &&& ms.len() > 0 ==> max_of(bottoms(ms)) - min_of(tops(ms)) <= i32::MAX
}

/// Bounding box of the monitors: left, top, width, height (the last two cut
/// to 16 bits); all zero for no monitor.
pub open spec fn spec_bbox(ms: Seq<Monitor>) -> (i32, i32, u16, u16) {
    if ms.len() == 0 {
        (0, 0, 0, 0)
    } else {
        (
            min_of(lefts(ms)) as i32,
            min_of(tops(ms)) as i32,
            (max_of(rights(ms)) - min_of(lefts(ms))) as u16,
            (max_of(bottoms(ms)) - min_of(tops(ms))) as u16,
        )
    }
}

proof fn lemma_min_step(s: Seq<int>, i: int)
    requires
        1 <= i < s.len(),
    ensures
        min_of(s.subrange(0, i + 1)) == if s[i] < min_of(s.subrange(0, i)) {
            s[i]
        } else {
            min_of(s.subrange(0, i))
        },
        max_of(s.subrange(0, i + 1)) == if s[i] > max_of(s.subrange(0, i)) {
            s[i]
        } else {
            max_of(s.subrange(0, i))
        },
{
    assert(s.subrange(0, i + 1).drop_last() =~= s.subrange(0, i));
}

proof fn lemma_min_max_bounds(s: Seq<int>)
    requires
        s.len() > 0,
    ensures
        forall|i: int| 0 <= i < s.len() ==> min_of(s) <= #[trigger] s[i] <= max_of(s),
        exists|i: int| 0 <= i < s.len() && s[i] == min_of(s),
        exists|i: int| 0 <= i < s.len() && s[i] == max_of(s),
    decreases s.len(),
{
    if s.len() > 1 {
        lemma_min_max_bounds(s.drop_last());
        assert forall|i: int| 0 <= i < s.len() implies min_of(s) <= #[trigger] s[i] <= max_of(
            s,
        ) by {
            if i < s.len() - 1 {
                assert(s[i] == s.drop_last()[i]);
            }
        }
        let j = choose|j: int| 0 <= j < s.len() - 1 && s.drop_last()[j] == min_of(s.drop_last());
        let k = choose|k: int| 0 <= k < s.len() - 1 && s.drop_last()[k] == max_of(s.drop_last());
        assert(s[j] == s.drop_last()[j]);
        assert(s[k] == s.drop_last()[k]);
        if s.last() < min_of(s.drop_last()) {
            assert(s[s.len() - 1] == min_of(s));
        }
        if s.last() > max_of(s.drop_last()) {
            assert(s[s.len() - 1] == max_of(s));
        }
    } else {
        assert(s[0] == min_of(s));
    }
}

/// Leftmost, topmost, rightmost and bottommost edges of the monitors.
fn edges(monitors: &[Monitor]) -> (e: (i32, i32, i32, i32))
    requires
        monitors@.len() > 0,
        extents_fit(monitors@),
    ensures
        e.0 == min_of(lefts(monitors@)),
        e.1 == min_of(tops(monitors@)),
        e.2 == max_of(rights(monitors@)),
        e.3 == max_of(bottoms(monitors@)),
{
    let ghost ms = monitors@;
    let mut bx = monitors[0].x;
    let mut by = monitors[0].y;
    let mut r = monitors[0].x + monitors[0].w as i32;
    let mut b = monitors[0].y + monitors[0].h as i32;
    let mut i: usize = 1;
    assert(lefts(ms).subrange(0, 1) =~= seq![ms[0].x as int]);
    assert(tops(ms).subrange(0, 1) =~= seq![ms[0].y as int]);
    assert(rights(ms).subrange(0, 1) =~= seq![ms[0].x + ms[0].w]);
    assert(bottoms(ms).subrange(0, 1) =~= seq![ms[0].y + ms[0].h]);
    while i < monitors.len()
        invariant
            ms == monitors@,
            1 <= i <= ms.len(),
            extents_fit(ms),
            bx == min_of(lefts(ms).subrange(0, i as int)),
            by == min_of(tops(ms).subrange(0, i as int)),
            r == max_of(rights(ms).subrange(0, i as int)),
            b == max_of(bottoms(ms).subrange(0, i as int)),
        decreases ms.len() - i,
    {
        let m = &monitors[i];
        proof {
            lemma_min_step(lefts(ms), i as int);
            lemma_min_step(tops(ms), i as int);
            lemma_min_step(rights(ms), i as int);
            lemma_min_step(bottoms(ms), i as int);
        }
        if m.x < bx {
            bx = m.x;
        }
        if m.y < by {
            by = m.y;
        }
        let mr = m.x + m.w as i32;
        if mr > r {
            r = mr;
        }
        let mb = m.y + m.h as i32;
        if mb > b {
            b = mb;
        }
        i = i + 1;
    }
    assert(lefts(ms).subrange(0, ms.len() as int) =~= lefts(ms));
    assert(tops(ms).subrange(0, ms.len() as int) =~= tops(ms));
    assert(rights(ms).subrange(0, ms.len() as int) =~= rights(ms));
    assert(bottoms(ms).subrange(0, ms.len() as int) =~= bottoms(ms));
    (bx, by, r, b)
}

impl Monitor {
    /// Bounding box covering all monitors, in screen coordinates.
    pub fn bbox(monitors: &[Monitor]) -> (bb: (i32, i32, u16, u16))
        requires
            extents_fit(monitors@),
        ensures
            bb == spec_bbox(monitors@),
    {
        if monitors.len() == 0 {
            return (0, 0, 0, 0);
        }
        let (bx, by, r, b) = edges(monitors);
        proof {
            lemma_min_max_bounds(lefts(monitors@));
            lemma_min_max_bounds(rights(monitors@));
            lemma_min_max_bounds(tops(monitors@));
            lemma_min_max_bounds(bottoms(monitors@));
        }
        let bw = r - bx;
        let bh = b - by;
        (bx, by, bw as u16, bh as u16)
    }
}

/// Screen size for the CLI: the bounding box's size, or `None` without
/// monitors.
pub fn screen_size(monitors: &[Monitor]) -> (size: Option<(u16, u16)>)
    requires
        extents_fit(monitors@),
    ensures
        monitors@.len() == 0 ==> size is None,
        monitors@.len() > 0 ==> size == Some((spec_bbox(monitors@).2, spec_bbox(monitors@).3)),
{
    if monitors.len() == 0 {
        return None;
    }
    let (_, _, w, h) = Monitor::bbox(monitors);
    Some((w, h))
}

/// Extent of the absolute pointer over the monitors: the largest right and
/// bottom edges (cut to 16 bits), or the fallback screen size without
/// monitors.
pub fn mouse_extent(monitors: &[Monitor]) -> (ext: (u16, u16))
    requires
        extents_fit(monitors@),
    ensures
        monitors@.len() == 0 ==> ext == (FALLBACK_WIDTH, FALLBACK_HEIGHT),
        monitors@.len() > 0 ==> ext == (
            max_of(rights(monitors@)) as u16,
            max_of(bottoms(monitors@)) as u16,
        ),
{
    if monitors.len() == 0 {
        return (FALLBACK_WIDTH, FALLBACK_HEIGHT);
    }
    let (_, _, r, b) = edges(monitors);
    (r as u16, b as u16)
}

/// Whether the point (`x`, `y`) lies on monitor `m`.
pub open spec fn on_monitor(m: Monitor, x: int, y: int) -> bool {
    m.x <= x < m.x + m.w && m.y <= y < m.y + m.h
}

/// Every monitor's right and bottom edge fits in `i32`.
pub open spec fn edges_fit(ms: Seq<Monitor>) -> bool {
    forall|i: int| 0 <= i < ms.len() ==> #[trigger] ms[i].x + ms[i].w <= i32::MAX && ms[i].y
        + ms[i].h <= i32::MAX
}

/// The first monitor that holds the point (`x`, `y`), if any.
pub fn monitor_at(monitors: &[Monitor], x: i32, y: i32) -> (idx: Option<usize>)
    requires
        edges_fit(monitors@),
    ensures
        match idx {
            Some(i) => i < monitors@.len() && on_monitor(monitors@[i as int], x as int, y as int)
                && forall|j: int| 0 <= j < i ==> !on_monitor(#[trigger] monitors@[j], x as int, y as int),
            None => forall|j: int|
                0 <= j < monitors@.len() ==> !on_monitor(#[trigger] monitors@[j], x as int, y as int),
        },
{
    let mut i: usize = 0;
    while i < monitors.len()
        invariant
            i <= monitors@.len(),
            edges_fit(monitors@),
            forall|j: int| 0 <= j < i ==> !on_monitor(#[trigger] monitors@[j], x as int, y as int),
        decreases monitors@.len() - i,
    {
        let m = &monitors[i];
        assert(m.x + m.w <= i32::MAX && m.y + m.h <= i32::MAX);
        if x >= m.x && x < m.x + m.w as i32 && y >= m.y && y < m.y + m.h as i32 {
            return Some(i);
        }
        i = i + 1;
    }
    None
}

} // verus!

pub mod kde;
pub mod windows;
pub mod wlr;
pub mod x11;
