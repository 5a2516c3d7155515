//! The presentation side: the pending-redraw flag that coalesces engine writes
//! into at most one frame per wake, the wake interval drawn from the display's
//! refresh rate, and the layout of the shared framebuffer.

use vstd::prelude::*;

verus! {

/// Refresh rate assumed when the display does not report one: 60 Hz.
pub const DEFAULT_REFRESH_MILLIHERTZ: u32 = 60000;

/// Width of the framebuffer and of the window surface, in pixels.
pub const DISPLAY_WIDTH: usize = 1024;

/// Height of the framebuffer and of the window surface, in pixels.
pub const DISPLAY_HEIGHT: usize = 768;

/// What the presentation path sees: a write into the engine, or a wake of the
/// paced timer.
#[derive(Clone, Copy, Debug, PartialEq, Eq)]
pub enum RedrawEvent {
    Write,
    Tick,
}

/// Whether a redraw is pending after `evs`, starting from `pending`.
pub open spec fn pending_after(pending: bool, evs: Seq<RedrawEvent>) -> bool
    decreases evs.len(),
{
    if evs.len() == 0 {
        pending
    } else {
        match evs.last() {
            RedrawEvent::Write => true,
            RedrawEvent::Tick => false,
        }
    }
}

/// How many frames are presented over `evs`, starting from `pending`: one at
/// each tick that finds a redraw pending.
pub open spec fn presents(pending: bool, evs: Seq<RedrawEvent>) -> nat
    decreases evs.len(),
{
    if evs.len() == 0 {
        0
    } else {
        let before = evs.drop_last();
        presents(pending, before) + match evs.last() {
            RedrawEvent::Tick => if pending_after(pending, before) { 1nat } else { 0nat },
            RedrawEvent::Write => 0nat,
        }
    }
}

/// `n` writes in a row.
pub open spec fn writes(n: nat) -> Seq<RedrawEvent> {
    Seq::new(n, |i: int| RedrawEvent::Write)
}

/// Set by any write into the engine, cleared when a frame is presented.
pub struct RedrawFlag {
    pub pending: bool,
}

impl RedrawFlag {
    pub fn new() -> (r: RedrawFlag)
        ensures
            !r.pending,
    {
        RedrawFlag { pending: false }
    }

    /// Records a write into the engine.
    pub fn mark(&mut self)
        ensures
            final(self).pending,
    {
        self.pending = true;
    }

    /// A wake of the window loop: only a wake of the paced timer
    /// (`timer_due`) may present, and it does so exactly when a redraw is
    /// pending, which it then clears. Any other wake changes nothing.
    pub fn on_wake(&mut self, timer_due: bool) -> (present: bool)
        ensures
            present == (timer_due && old(self).pending),
            final(self).pending == (old(self).pending && !timer_due),
    {
        if !timer_due {
            return false;
        }
        let present = self.pending;
        self.pending = false;
        present
    }

    /// Applies one event; returns whether a frame is presented.
    pub fn step(&mut self, ev: RedrawEvent) -> (present: bool)
        ensures
            final(self).pending == pending_after(old(self).pending, seq![ev]),
            present == (presents(old(self).pending, seq![ev]) == 1),
    {
        proof {
            assert(seq![ev].drop_last() =~= Seq::<RedrawEvent>::empty());
            assert(presents(old(self).pending, Seq::<RedrawEvent>::empty()) == 0);
        }
        match ev {
            RedrawEvent::Write => {
                self.mark();
                false
            },
            RedrawEvent::Tick => self.on_wake(true),
        }
    }
}

proof fn lemma_writes_only(pending: bool, n: nat)
    ensures
        pending_after(pending, writes(n)) == (pending || n > 0),
        presents(pending, writes(n)) == 0,
    decreases n,
{
    if n > 0 {
        assert(writes(n).drop_last() =~= writes((n - 1) as nat));
        lemma_writes_only(pending, (n - 1) as nat);
    }
}

/// Any number of writes (at least one) between two ticks is presented as
/// exactly one frame, whatever was pending before; a further tick with no
/// write in between presents nothing.
pub proof fn lemma_writes_coalesce(pending: bool, n: nat)
    requires
        n >= 1,
    ensures
        presents(pending, writes(n).push(RedrawEvent::Tick)) == 1,
        !pending_after(pending, writes(n).push(RedrawEvent::Tick)),
        presents(pending, writes(n).push(RedrawEvent::Tick).push(RedrawEvent::Tick)) == 1,
{
    lemma_writes_only(pending, n);
    let once = writes(n).push(RedrawEvent::Tick);
    assert(once.drop_last() =~= writes(n));
    assert(presents(pending, once) == 1);
    assert(!pending_after(pending, once));
    assert(once.push(RedrawEvent::Tick).drop_last() =~= once);
}

/// The interval between two wakes of the window loop, in milliseconds: one
/// refresh period, truncated; a rate that is unknown or zero counts as the
/// default.
pub open spec fn frame_interval_spec(refresh_millihertz: Option<u32>) -> int {
    let rate = match refresh_millihertz {
        Some(r) => if r == 0 { DEFAULT_REFRESH_MILLIHERTZ } else { r },
        None => DEFAULT_REFRESH_MILLIHERTZ,
    };
    1_000_000int / (rate as int)
}

pub fn frame_interval_ms(refresh_millihertz: Option<u32>) -> (ms: u64)
    ensures
        ms == frame_interval_spec(refresh_millihertz),
{
    let rate: u32 = match refresh_millihertz {
        Some(r) => if r == 0 { DEFAULT_REFRESH_MILLIHERTZ } else { r },
        None => DEFAULT_REFRESH_MILLIHERTZ,
    };
    1_000_000u64 / (rate as u64)
}

/// The packed 24-bit colour of a framebuffer cell: red, green, blue, from the
/// high byte down.
pub open spec fn packed_rgb(r: u8, g: u8, b: u8) -> int {
    r * 65536 + g * 256 + b
}

pub fn pack_rgb(r: u8, g: u8, b: u8) -> (c: u32)
    ensures
        c == packed_rgb(r, g, b),
{
    proof {
        assert((r as u32) << 16u32 == r * 65536) by (bit_vector);
        assert((g as u32) << 8u32 == g * 256) by (bit_vector);
        assert(((r as u32) << 16u32) | ((g as u32) << 8u32) | (b as u32)
            == ((r as u32) << 16u32) + ((g as u32) << 8u32) + (b as u32)) by (bit_vector);
    }
    ((r as u32) << 16u32) | ((g as u32) << 8u32) | (b as u32)
}

/// The dimensions of a row-major framebuffer, fixed at creation.
#[derive(Clone, Copy, Debug, PartialEq, Eq)]
pub struct FrameSize {
    pub width: usize,
    pub height: usize,
}

impl FrameSize {
    /// Every cell has an index that fits in memory.
    pub open spec fn wf(&self) -> bool {
        self.width * self.height <= usize::MAX
    }

    /// The size of the window's framebuffer.
    pub fn display() -> (r: FrameSize)
        ensures
            r.wf(),
            r.width == DISPLAY_WIDTH,
            r.height == DISPLAY_HEIGHT,
    {
        assert(DISPLAY_WIDTH * DISPLAY_HEIGHT == 786432) by (nonlinear_arith);
        FrameSize { width: DISPLAY_WIDTH, height: DISPLAY_HEIGHT }
    }

    /// Number of cells.
    pub fn cells(&self) -> (n: usize)
        requires
            self.wf(),
        ensures
            n == self.width * self.height,
    {
        self.width * self.height
    }

    /// The index of cell (x, y): rows one after another, each left to right.
    pub fn index(&self, x: usize, y: usize) -> (i: usize)
        requires
            self.wf(),
            x < self.width,
            y < self.height,
        ensures
            i == y * self.width + x,
            i < self.width * self.height,
    {
        proof {
            let (w, h) = (self.width as int, self.height as int);
            assert(y * w + x < w * h) by (nonlinear_arith)
                requires
                    0 <= x < w,
                    0 <= y < h,
            ;
        }
        y * self.width + x
    }
}

} // verus!
