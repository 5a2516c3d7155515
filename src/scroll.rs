//! Mouse-wheel normalisation: scroll deltas are summed in fixed-point units and
//! released to the terminal engine one whole line at a time.

use vstd::prelude::*;

verus! {

/// A delta is given in 1/`SUBDIVISION` of its own unit (a line or a pixel).
pub const SUBDIVISION: i64 = 256;

/// Touchpad pixels that make one scrolled line.
pub const PIXELS_PER_LINE: i64 = 4;

/// Accumulator units in one whole line.
pub const UNITS_PER_LINE: i64 = 1024;

/// One wheel event: a count of lines (a mouse wheel) or of pixels (a touchpad),
/// both in 1/`SUBDIVISION` steps.
#[derive(Clone, Copy, Debug, PartialEq, Eq)]
pub enum ScrollDelta {
    Lines(i32),
    Pixels(i32),
}

/// The accumulator units that a delta adds.
pub open spec fn delta_units(d: ScrollDelta) -> int {
    match d {
        ScrollDelta::Lines(n) => n * PIXELS_PER_LINE,
        ScrollDelta::Pixels(p) => p as int,
    }
}

/// Whole lines in `u` units, truncated toward zero.
pub open spec fn whole_lines(u: int) -> int {
    if u >= 0 {
        u / (UNITS_PER_LINE as int)
    } else {
        -((-u) / (UNITS_PER_LINE as int))
    }
}

/// Sum of the units of a sequence of deltas.
pub open spec fn total_units(ds: Seq<ScrollDelta>) -> int
    decreases ds.len(),
{
    if ds.len() == 0 {
        0
    } else {
        total_units(ds.drop_last()) + delta_units(ds.last())
    }
}

/// The lines released by one delta, given the units held before it.
pub open spec fn released(acc: int, d: ScrollDelta) -> int {
    whole_lines(acc + delta_units(d))
}

/// The units held after one delta.
pub open spec fn held_after(acc: int, d: ScrollDelta) -> int {
    acc + delta_units(d) - whole_lines(acc + delta_units(d)) * UNITS_PER_LINE
}

/// Units held after a sequence of deltas, starting from `acc`.
pub open spec fn held_after_all(acc: int, ds: Seq<ScrollDelta>) -> int
    decreases ds.len(),
{
    if ds.len() == 0 {
        acc
    } else {
        held_after(held_after_all(acc, ds.drop_last()), ds.last())
    }
}

/// Lines released over a sequence of deltas, starting from `acc`.
pub open spec fn released_all(acc: int, ds: Seq<ScrollDelta>) -> int
    decreases ds.len(),
{
    if ds.len() == 0 {
        0
    } else {
        released_all(acc, ds.drop_last()) + released(held_after_all(acc, ds.drop_last()), ds.last())
    }
}

/// Holds the fraction of a line that has not been released yet.
pub struct ScrollAccumulator {
    pub units: i64,
}

impl ScrollAccumulator {
    /// Less than one line is ever held.
    pub open spec fn wf(&self) -> bool {
        -UNITS_PER_LINE < self.units < UNITS_PER_LINE
    }

    pub fn new() -> (r: ScrollAccumulator)
        ensures
            r.wf(),
            r.units == 0,
    {
        ScrollAccumulator { units: 0 }
    }

    /// Adds a delta; returns the whole lines to scroll now (zero when less than
    /// a line is held) and keeps the remainder.
    pub fn push(&mut self, d: ScrollDelta) -> (lines: i64)
        requires
            old(self).wf(),
        ensures
            final(self).wf(),
            lines == released(old(self).units as int, d),
            final(self).units == held_after(old(self).units as int, d),
            final(self).units + lines * UNITS_PER_LINE == old(self).units + delta_units(d),
    {
        let add: i64 = match d {
            ScrollDelta::Lines(n) => n as i64 * PIXELS_PER_LINE,
            ScrollDelta::Pixels(p) => p as i64,
        };
        let sum: i64 = self.units + add;
        let lines: i64 = if sum >= 0 {
            sum / UNITS_PER_LINE
        } else {
            -((-sum) / UNITS_PER_LINE)
        };
        self.units = sum - lines * UNITS_PER_LINE;
        lines
    }
}

/// Every delta adds no negative units.
pub open spec fn all_forward(ds: Seq<ScrollDelta>) -> bool {
    forall|i: int| 0 <= i < ds.len() ==> delta_units(#[trigger] ds[i]) >= 0
}

/// Every delta adds no positive units.
pub open spec fn all_backward(ds: Seq<ScrollDelta>) -> bool {
    forall|i: int| 0 <= i < ds.len() ==> delta_units(#[trigger] ds[i]) <= 0
}

proof fn lemma_step_bounds(u: int)
    ensures
        u >= 0 ==> 0 <= u - whole_lines(u) * UNITS_PER_LINE < UNITS_PER_LINE,
        u <= 0 ==> -UNITS_PER_LINE < u - whole_lines(u) * UNITS_PER_LINE <= 0,
{
}

/// No scrolled motion is lost or doubled: the lines released over any run of
/// deltas, times the units in a line, plus what is still held, is exactly
/// what was held before plus every unit that came in; and less than one line
/// is ever held.
pub proof fn lemma_scroll_conserved(acc: int, ds: Seq<ScrollDelta>)
    requires
        -UNITS_PER_LINE < acc < UNITS_PER_LINE,
    ensures
        released_all(acc, ds) * UNITS_PER_LINE + held_after_all(acc, ds) == acc + total_units(ds),
        -UNITS_PER_LINE < held_after_all(acc, ds) < UNITS_PER_LINE,
    decreases ds.len(),
{
    if ds.len() > 0 {
        lemma_scroll_conserved(acc, ds.drop_last());
        let h = held_after_all(acc, ds.drop_last());
        lemma_step_bounds(h + delta_units(ds.last()));
    }
}

proof fn lemma_forward_held(ds: Seq<ScrollDelta>)
    requires
        all_forward(ds),
    ensures
        0 <= held_after_all(0, ds) < UNITS_PER_LINE,
        total_units(ds) >= 0,
    decreases ds.len(),
{
    if ds.len() > 0 {
        let init = ds.drop_last();
        assert forall|i: int| 0 <= i < init.len() implies delta_units(#[trigger] init[i]) >= 0 by {
            assert(init[i] == ds[i]);
        }
        lemma_forward_held(init);
        assert(delta_units(ds[ds.len() - 1]) >= 0);
        lemma_step_bounds(held_after_all(0, init) + delta_units(ds.last()));
    }
}

proof fn lemma_backward_held(ds: Seq<ScrollDelta>)
    requires
        all_backward(ds),
    ensures
        -UNITS_PER_LINE < held_after_all(0, ds) <= 0,
        total_units(ds) <= 0,
    decreases ds.len(),
{
    if ds.len() > 0 {
        let init = ds.drop_last();
        assert forall|i: int| 0 <= i < init.len() implies delta_units(#[trigger] init[i]) <= 0 by {
            assert(init[i] == ds[i]);
        }
        lemma_backward_held(init);
        assert(delta_units(ds[ds.len() - 1]) <= 0);
        lemma_step_bounds(held_after_all(0, init) + delta_units(ds.last()));
    }
}

/// Scrolling one way, from an empty accumulator, the lines released over
/// any run of deltas are the whole lines of their sum, truncated toward
/// zero, however the sum was split among the deltas.
pub proof fn lemma_scroll_whole_lines(ds: Seq<ScrollDelta>)
    requires
        all_forward(ds) || all_backward(ds),
    ensures
        released_all(0, ds) == whole_lines(total_units(ds)),
{
    lemma_scroll_conserved(0, ds);
    let r = released_all(0, ds);
    let h = held_after_all(0, ds);
    let t = total_units(ds);
    if all_forward(ds) {
        lemma_forward_held(ds);
        assert(r == t / (UNITS_PER_LINE as int)) by (nonlinear_arith)
            requires
                r * 1024 + h == t,
                0 <= h < 1024,
                UNITS_PER_LINE == 1024,
        ;
    } else {
        lemma_backward_held(ds);
        assert(-r == (-t) / (UNITS_PER_LINE as int)) by (nonlinear_arith)
            requires
                (-r) * 1024 + (-h) == -t,
                0 <= -h < 1024,
                UNITS_PER_LINE == 1024,
        ;
    }
}

} // verus!
