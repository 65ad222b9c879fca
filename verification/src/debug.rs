//! Debug helpers: simulate several monitors with a single one.
use vstd::prelude::*;

use crate::overlay::Monitor;

verus! {

/// The monitor list to work with: when a debug count `debug_n` above 1 is
/// set and exactly one real monitor is present, `debug_n` copies of it;
/// otherwise the monitors as they are.
pub open spec fn spec_clone_monitors(monitors: Seq<Monitor>, debug_n: usize) -> Seq<Monitor> {
    if debug_n > 1 && monitors.len() == 1 {
        Seq::new(debug_n as nat, |i: int| monitors[0])
    } else {
        monitors
    }
}

/// With a debug monitor count `debug_n` above 1 and a single real monitor,
/// clone it `debug_n` times so that multi-display logic can be tried out.
pub fn clone_monitors(monitors: &[Monitor], debug_n: usize) -> (out: Vec<Monitor>)
    ensures
        out@ == spec_clone_monitors(monitors@, debug_n),
{
    let mut out: Vec<Monitor> = Vec::new();
    if debug_n > 1 && monitors.len() == 1 {
        let m = &monitors[0];
        let mut i: usize = 0;
        while i < debug_n
            invariant
                i <= debug_n,
                monitors@.len() == 1,
                *m == monitors@[0],
                out@ =~= Seq::new(i as nat, |j: int| monitors@[0]),
            decreases debug_n - i,
        {
            out.push(m.duplicate());
            i = i + 1;
        }
    } else {
        let mut i: usize = 0;
        while i < monitors.len()
            invariant
                i <= monitors@.len(),
                out@ =~= monitors@.subrange(0, i as int),
            decreases monitors@.len() - i,
        {
            out.push(monitors[i].duplicate());
            i = i + 1;
        }
    }
    out
}

} // verus!
