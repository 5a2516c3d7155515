//! The window host's decisions on raw window events. The window loop outside
//! hands each event to `WindowHost::handle` and performs the effects it
//! returns, in order, against the terminal engine and the event loop.

use vstd::prelude::*;
use crate::keyboard::{key_injections, translate_key, win_code_of};
use crate::scroll::{ScrollAccumulator, ScrollDelta, held_after, released};

verus! {

/// A raw window event, as far as the host acts on it.
#[derive(Clone, Copy, Debug, PartialEq, Eq)]
pub enum WindowInput {
    /// The user asked to close the window.
    CloseRequested,
    /// The application thread has finished and sent the shutdown signal.
    AppFinished,
    /// A mouse-wheel or touchpad scroll.
    Wheel(ScrollDelta),
    /// A physical key changed state; `evdev` is its hardware code, if the
    /// platform gives one.
    Key { evdev: Option<u32>, released: bool },
    /// Anything else.
    Other,
}

/// One thing for the window loop to do.
#[derive(Clone, Copy, Debug, PartialEq, Eq)]
pub enum HostEffect {
    /// Inject one scancode byte into the terminal engine.
    InjectKey(u8),
    /// Scroll the terminal engine by whole lines.
    Scroll(i64),
    /// Mark a redraw as pending.
    MarkRedraw,
    /// Leave the event loop.
    Exit,
}

/// The state that the window host keeps between events.
pub struct WindowHost {
    pub scroll: ScrollAccumulator,
    pub running: bool,
}

/// Whether an event ends the window loop.
pub open spec fn ends_loop(ev: WindowInput) -> bool {
    ev is CloseRequested || ev is AppFinished
}

/// The injections for a sequence of scancode bytes.
pub open spec fn injections(bytes: Seq<u8>) -> Seq<HostEffect> {
    Seq::new(bytes.len(), |i: int| HostEffect::InjectKey(bytes[i]))
}

/// The effects of an event, with `held` scroll units before it.
pub open spec fn effects_of(held: int, ev: WindowInput) -> Seq<HostEffect> {
    match ev {
        WindowInput::CloseRequested => seq![HostEffect::Exit],
        WindowInput::AppFinished => seq![HostEffect::Exit],
        WindowInput::Wheel(d) => if released(held, d) != 0 {
            seq![HostEffect::Scroll(released(held, d) as i64), HostEffect::MarkRedraw]
        } else {
            seq![]
        },
        WindowInput::Key { evdev, released } => match evdev {
            Some(code) => if win_code_of(code as u16) is Some {
                injections(key_injections(code as u16, released)).push(HostEffect::MarkRedraw)
            } else {
                seq![]
            },
            None => seq![],
        },
        WindowInput::Other => seq![],
    }
}

/// The scroll units held after an event.
pub open spec fn held_after_event(held: int, ev: WindowInput) -> int {
    match ev {
        WindowInput::Wheel(d) => held_after(held, d),
        _ => held,
    }
}

impl WindowHost {
    pub open spec fn wf(&self) -> bool {
        self.scroll.wf()
    }

    pub fn new() -> (r: WindowHost)
        ensures
            r.wf(),
            r.running,
            r.scroll.units == 0,
    {
        WindowHost { scroll: ScrollAccumulator::new(), running: true }
    }

    /// Decides what one window event does.
    pub fn handle(&mut self, ev: WindowInput) -> (r: Vec<HostEffect>)
        requires
            old(self).wf(),
        ensures
            final(self).wf(),
            r@ == effects_of(old(self).scroll.units as int, ev),
            final(self).scroll.units == held_after_event(old(self).scroll.units as int, ev),
            final(self).running == (old(self).running && !ends_loop(ev)),
    {
        match ev {
            WindowInput::CloseRequested | WindowInput::AppFinished => {
                self.running = false;
                vec![HostEffect::Exit]
            },
            WindowInput::Wheel(d) => {
                let lines = self.scroll.push(d);
                if lines != 0 {
                    vec![HostEffect::Scroll(lines), HostEffect::MarkRedraw]
                } else {
                    Vec::new()
                }
            },
            WindowInput::Key { evdev, released } => match evdev {
                Some(code) => {
                    let bytes = translate_key(code as u16, released);
                    let mut r: Vec<HostEffect> = Vec::new();
                    let mut i: usize = 0;
                    while i < bytes.len()
                        invariant
                            i <= bytes@.len(),
                            r@ == injections(bytes@.take(i as int)),
                        decreases bytes@.len() - i,
                    {
                        r.push(HostEffect::InjectKey(bytes[i]));
                        i = i + 1;
                        proof {
                            assert(r@ =~= injections(bytes@.take(i as int)));
                        }
                    }
                    proof {
                        assert(bytes@.take(bytes@.len() as int) =~= bytes@);
                    }
                    if bytes.len() > 0 {
                        r.push(HostEffect::MarkRedraw);
                    }
                    r
                },
                None => Vec::new(),
            },
            WindowInput::Other => Vec::new(),
        }
    }
}

/// Whether the host is still running after a run of events.
pub open spec fn running_after(running: bool, evs: Seq<WindowInput>) -> bool
    decreases evs.len(),
{
    if evs.len() == 0 {
        running
    } else {
        running_after(running, evs.drop_last()) && !ends_loop(evs.last())
    }
}

/// The application's shutdown signal ends the window loop by itself: its one
/// effect, whatever the host holds, is to leave the loop; and once it has
/// arrived, at any place in a run of window events, the host is no longer
/// running, whatever came before or after it. No shared flag is read on the
/// way.
pub proof fn lemma_shutdown_ends_loop(held: int, running: bool, evs: Seq<WindowInput>, k: int)
    requires
        0 <= k < evs.len(),
        evs[k] == WindowInput::AppFinished,
    ensures
        effects_of(held, WindowInput::AppFinished) == seq![HostEffect::Exit],
        !running_after(running, evs),
    decreases evs.len(),
{
    if k < evs.len() - 1 {
        lemma_shutdown_ends_loop(held, running, evs.drop_last(), k);
    }
}

} // verus!
