//! The decisions of the application thread's loop. The loop itself (render,
//! wait for an event, read the clock) runs outside; after each wait it hands
//! the event, if one came, and the time since the last tick to `step`, and
//! does what the answer says.

use vstd::prelude::*;
use crate::geometry::{SharedGeometry, WindowGeometry, window_geometry_of};
use crate::input::{AppAction, Dispatch, InputEvent, dispatch, dispatch_of};

verus! {

/// The key that asks the application to quit.
pub const QUIT_KEY: char = 'q';

/// The application state that the loop keeps.
#[derive(Clone, Copy, Debug, PartialEq, Eq)]
pub struct AppState {
    pub should_quit: bool,
    pub ticks: u64,
    pub last_action: Option<AppAction>,
}

/// What the loop does after one wait.
#[derive(Clone, Copy, Debug, PartialEq, Eq)]
pub struct LoopStep {
    /// The action that fired, if any.
    pub action: Option<AppAction>,
    /// The grid size to give the backend, if the event was a resize.
    pub resize: Option<(u16, u16)>,
    /// Whether the tick interval has elapsed: restart the tick clock.
    pub tick: bool,
    /// Whether to send the shutdown signal and leave the loop.
    pub shutdown: bool,
}

/// The state after an action.
pub open spec fn applied(s: AppState, a: AppAction) -> AppState {
    AppState {
        should_quit: s.should_quit || a == AppAction::Key(QUIT_KEY),
        ticks: s.ticks,
        last_action: Some(a),
    }
}

/// What an event contributes to a step: its action and its resize.
pub open spec fn event_action(ev: Option<InputEvent>) -> Option<AppAction> {
    match ev {
        Some(e) => match dispatch_of(e) {
            Dispatch::Act(a) => Some(a),
            _ => None,
        },
        None => None,
    }
}

pub open spec fn event_resize(ev: Option<InputEvent>) -> Option<(u16, u16)> {
    match ev {
        Some(e) => match dispatch_of(e) {
            Dispatch::Resize(c, r) => Some((c, r)),
            _ => None,
        },
        None => None,
    }
}

/// The time to wait for an event: what is left of the tick interval.
pub open spec fn poll_timeout_spec(elapsed_ms: u64, tick_rate_ms: u64) -> int {
    if elapsed_ms >= tick_rate_ms {
        0
    } else {
        tick_rate_ms - elapsed_ms
    }
}

pub fn poll_timeout_ms(elapsed_ms: u64, tick_rate_ms: u64) -> (r: u64)
    ensures
        r == poll_timeout_spec(elapsed_ms, tick_rate_ms),
{
    if elapsed_ms >= tick_rate_ms {
        0
    } else {
        tick_rate_ms - elapsed_ms
    }
}

impl AppState {
    pub fn new() -> (r: AppState)
        ensures
            !r.should_quit,
            r.ticks == 0,
            r.last_action is None,
    {
        AppState { should_quit: false, ticks: 0, last_action: None }
    }

    /// Performs an action.
    pub fn apply(&mut self, a: AppAction)
        ensures
            *final(self) == applied(*old(self), a),
    {
        let quit = match a {
            AppAction::Key(c) => c == QUIT_KEY,
            _ => false,
        };
        self.should_quit = self.should_quit || quit;
        self.last_action = Some(a);
    }

    /// The time-based update: counts the tick, stopping at the largest count.
    pub fn on_tick(&mut self)
        ensures
            final(self).ticks == if old(self).ticks == u64::MAX { u64::MAX as int } else { old(self).ticks + 1 },
            final(self).should_quit == old(self).should_quit,
            final(self).last_action == old(self).last_action,
    {
        if self.ticks < u64::MAX {
            self.ticks = self.ticks + 1;
        }
    }

    /// One pass of the loop after a wait: performs the event's action, passes
    /// on its resize, ticks once the interval has elapsed, and asks for
    /// shutdown once the state says to quit.
    pub fn step(&mut self, event: Option<&InputEvent>, elapsed_ms: u64, tick_rate_ms: u64) -> (r:
        LoopStep)
        ensures
            r.action == event_action(match event { Some(e) => Some(*e), None => None }),
            r.resize == event_resize(match event { Some(e) => Some(*e), None => None }),
            r.tick == (elapsed_ms >= tick_rate_ms),
            r.shutdown == final(self).should_quit,
            final(self).last_action == match r.action {
                Some(a) => Some(a),
                None => old(self).last_action,
            },
            final(self).should_quit == match r.action {
                Some(a) => applied(*old(self), a).should_quit,
                None => old(self).should_quit,
            },
            final(self).ticks == if !r.tick {
                old(self).ticks as int
            } else if old(self).ticks == u64::MAX {
                u64::MAX as int
            } else {
                old(self).ticks + 1
            },
    {
        let mut action: Option<AppAction> = None;
        let mut resize: Option<(u16, u16)> = None;
        if let Some(e) = event {
            match dispatch(e) {
                Dispatch::Act(a) => {
                    self.apply(a);
                    action = Some(a);
                },
                Dispatch::Resize(c, rows) => {
                    resize = Some((c, rows));
                },
                Dispatch::Ignore => {},
            }
        }
        let tick = elapsed_ms >= tick_rate_ms;
        if tick {
            self.on_tick();
        }
        LoopStep { action, resize, tick, shutdown: self.should_quit }
    }
}

/// A resize event is passed on once, as exactly its pair, and fires no
/// action; once the pair is written to the shared geometry, the size and
/// window-size queries both answer it whole.
pub proof fn lemma_resize_observed(columns: u16, rows: u16, g: SharedGeometry)
    requires
        g@ == (columns, rows),
    ensures
        event_resize(Some(InputEvent::Resize(columns, rows))) == Some((columns, rows)),
        event_action(Some(InputEvent::Resize(columns, rows))) is None,
        window_geometry_of(g@) == (WindowGeometry { columns, rows, pixel_width: 0, pixel_height: 0 }),
{
}

} // verus!
