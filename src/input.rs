//! Input events carried from the window to the application, and the
//! application loop's decisions on them: which key text is which action,
//! when a resize applies, when a tick is due and when the loop shuts down.

use vstd::prelude::*;
use vstd::string::*;

verus! {

/// The escape character that starts a cursor-key sequence.
pub const ESC: char = '\x1b';

/// An event on the window-to-application channel.
#[derive(Clone, Debug, PartialEq, Eq)]
pub enum InputEvent {
    /// Text the terminal produced: a character, or a control sequence.
    KeyText(String),
    /// A new grid size, in columns and rows.
    Resize(u16, u16),
}

#[derive(Clone, Copy, Debug, PartialEq, Eq)]
pub enum Direction {
    Left,
    Right,
    Up,
    Down,
}

/// A discrete action of the application.
#[derive(Clone, Copy, Debug, PartialEq, Eq)]
pub enum AppAction {
    Navigate(Direction),
    Key(char),
}

/// What the application loop does with one event.
#[derive(Clone, Copy, Debug, PartialEq, Eq)]
pub enum Dispatch {
    Act(AppAction),
    Resize(u16, u16),
    Ignore,
}

/// The direction of a cursor-key sequence: ESC, then `[` or `O`, then a
/// letter from A to D.
pub open spec fn arrow_of(t: Seq<char>) -> Option<Direction> {
    if t.len() == 3 && t[0] == ESC && (t[1] == '[' || t[1] == 'O') {
        if t[2] == 'A' {
            Some(Direction::Up)
        } else if t[2] == 'B' {
            Some(Direction::Down)
        } else if t[2] == 'C' {
            Some(Direction::Right)
        } else if t[2] == 'D' {
            Some(Direction::Left)
        } else {
            None
        }
    } else {
        None
    }
}

/// The action for a key text: a cursor key, or one of `h j k l`, navigates;
/// any other single character is a plain key; anything else is dropped.
pub open spec fn action_of_text(t: Seq<char>) -> Option<AppAction> {
    if arrow_of(t) is Some {
        Some(AppAction::Navigate(arrow_of(t)->0))
    } else if t.len() == 1 {
        if t[0] == 'h' {
            Some(AppAction::Navigate(Direction::Left))
        } else if t[0] == 'j' {
            Some(AppAction::Navigate(Direction::Down))
        } else if t[0] == 'k' {
            Some(AppAction::Navigate(Direction::Up))
        } else if t[0] == 'l' {
            Some(AppAction::Navigate(Direction::Right))
        } else {
            Some(AppAction::Key(t[0]))
        }
    } else {
        None
    }
}

pub open spec fn dispatch_of(ev: InputEvent) -> Dispatch {
    match ev {
        InputEvent::KeyText(s) => match action_of_text(s@) {
            Some(a) => Dispatch::Act(a),
            None => Dispatch::Ignore,
        },
        InputEvent::Resize(c, r) => Dispatch::Resize(c, r),
    }
}

/// The actions that a run of events fires, in order.
pub open spec fn actions_of(evs: Seq<InputEvent>) -> Seq<AppAction>
    decreases evs.len(),
{
    if evs.len() == 0 {
        seq![]
    } else {
        let before = actions_of(evs.drop_last());
        match dispatch_of(evs.last()) {
            Dispatch::Act(a) => before.push(a),
            _ => before,
        }
    }
}

fn arrow(text: &str) -> (r: Option<Direction>)
    ensures
        r == arrow_of(text@),
{
    if text.unicode_len() != 3 {
        return None;
    }
    let c0 = text.get_char(0);
    let c1 = text.get_char(1);
    let c2 = text.get_char(2);
    if c0 != ESC || !(c1 == '[' || c1 == 'O') {
        return None;
    }
    if c2 == 'A' {
        Some(Direction::Up)
    } else if c2 == 'B' {
        Some(Direction::Down)
    } else if c2 == 'C' {
        Some(Direction::Right)
    } else if c2 == 'D' {
        Some(Direction::Left)
    } else {
        None
    }
}

/// The action for a key text.
pub fn key_action(text: &str) -> (r: Option<AppAction>)
    ensures
        r == action_of_text(text@),
{
    if let Some(d) = arrow(text) {
        return Some(AppAction::Navigate(d));
    }
    if text.unicode_len() != 1 {
        return None;
    }
    let c = text.get_char(0);
    if c == 'h' {
        Some(AppAction::Navigate(Direction::Left))
    } else if c == 'j' {
        Some(AppAction::Navigate(Direction::Down))
    } else if c == 'k' {
        Some(AppAction::Navigate(Direction::Up))
    } else if c == 'l' {
        Some(AppAction::Navigate(Direction::Right))
    } else {
        Some(AppAction::Key(c))
    }
}

/// What the application loop does with one event.
pub fn dispatch(ev: &InputEvent) -> (r: Dispatch)
    ensures
        r == dispatch_of(*ev),
{
    match ev {
        InputEvent::KeyText(s) => match key_action(s.as_str()) {
            Some(a) => Dispatch::Act(a),
            None => Dispatch::Ignore,
        },
        InputEvent::Resize(c, r) => Dispatch::Resize(*c, *r),
    }
}

/// The actions that a run of events fires, in order.
pub fn actions(evs: &Vec<InputEvent>) -> (r: Vec<AppAction>)
    ensures
        r@ == actions_of(evs@),
{
    let mut r: Vec<AppAction> = Vec::new();
    let mut i: usize = 0;
    while i < evs.len()
        invariant
            i <= evs@.len(),
            r@ == actions_of(evs@.take(i as int)),
        decreases evs@.len() - i,
    {
        proof {
            assert(evs@.take(i + 1).drop_last() =~= evs@.take(i as int));
        }
        match dispatch(&evs[i]) {
            Dispatch::Act(a) => r.push(a),
            _ => {},
        }
        i = i + 1;
    }
    proof {
        assert(evs@.take(evs@.len() as int) =~= evs@);
    }
    r
}

/// The event that a piece of terminal text becomes: none for empty text,
/// else the text as it is.
pub fn text_event(text: String) -> (r: Option<InputEvent>)
    ensures
        text@.len() == 0 ==> r is None,
        text@.len() > 0 ==> (r matches Some(InputEvent::KeyText(s)) && s@ == text@),
{
    if text.as_str().unicode_len() == 0 {
        None
    } else {
        Some(InputEvent::KeyText(text))
    }
}

} // verus!
