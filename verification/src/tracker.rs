//! The column tracker: the widest module name seen so far, used by the
//! module-column alignment policy. The formatter in this crate indents
//! continuation lines by the header width instead, so the tracker stands
//! on its own; `observe` keeps the running maximum and never shrinks it.

use vstd::prelude::*;

verus! {

/// The larger of two widths.
pub open spec fn wider(a: nat, b: nat) -> nat {
    if a >= b {
        a
    } else {
        b
    }
}

/// The tracker's value after it has observed the widths `ws`, in order,
/// starting from `init`.
pub open spec fn tracked_after(init: nat, ws: Seq<nat>) -> nat
    decreases ws.len(),
{
    if ws.len() == 0 {
        init
    } else {
        tracked_after(wider(init, ws[0]), ws.drop_first())
    }
}

/// The maximum of a sequence of widths, zero for the empty sequence.
pub open spec fn widest(ws: Seq<nat>) -> nat
    decreases ws.len(),
{
    if ws.len() == 0 {
        0
    } else {
        wider(ws[0], widest(ws.drop_first()))
    }
}

/// Tracks the widest module name seen so far.
pub struct ColumnTracker {
    width: usize,
}

impl ColumnTracker {
    /// The current maximum, as a mathematical value.
    pub closed spec fn current_spec(&self) -> nat {
        self.width as nat
    }

    /// A fresh tracker; no width has been observed yet.
    pub fn new() -> (r: ColumnTracker)
        ensures
            r.current_spec() == 0,
    {
        ColumnTracker { width: 0 }
    }

    /// Raises the tracked maximum to `w` when `w` is wider; the tracked
    /// value never shrinks.
    pub fn observe(&mut self, w: usize)
        ensures
            final(self).current_spec() == wider(old(self).current_spec(), w as nat),
            final(self).current_spec() >= old(self).current_spec(),
    {
        if w > self.width {
            self.width = w;
        }
    }

    /// The widest width observed so far.
    pub fn current(&self) -> (r: usize)
        ensures
            r as nat == self.current_spec(),
    {
        self.width
    }
}

/// Law: observing is monotonic and computes the true maximum. A tracker
/// that starts at `init` and observes the widths `ws`, in order, reads
/// back the larger of `init` and the widest element of `ws`; in
/// particular it reads back no less than any single observed width, and
/// exactly the maximum of `ws` when it started at zero.
/// No element of `ws` exceeds `widest(ws)`.
pub proof fn lemma_widest_bounds(ws: Seq<nat>)
    ensures
        forall|i: int| 0 <= i < ws.len() ==> widest(ws) >= ws[i],
    decreases ws.len(),
{
    if ws.len() > 0 {
        lemma_widest_bounds(ws.drop_first());
        assert forall|i: int| 0 <= i < ws.len() implies widest(ws) >= ws[i] by {
            if i >= 1 {
                assert(ws[i] == ws.drop_first()[i - 1]);
            }
        }
    }
}

pub proof fn lemma_tracker_computes_max(init: nat, ws: Seq<nat>)
    ensures
        tracked_after(init, ws) == wider(init, widest(ws)),
        tracked_after(init, ws) >= init,
        forall|i: int| 0 <= i < ws.len() ==> tracked_after(init, ws) >= ws[i],
        tracked_after(0, ws) == widest(ws),
    decreases ws.len(),
{
    lemma_widest_bounds(ws);
    if ws.len() > 0 {
        lemma_tracker_computes_max(wider(init, ws[0]), ws.drop_first());
        lemma_tracker_computes_max(wider(0, ws[0]), ws.drop_first());
    }
}

} // verus!
