//! Keyboard translation: a physical key, identified by its Linux evdev code,
//! becomes the bytes of a Windows (set 1) scancode that the terminal engine
//! takes one at a time.

use vstd::prelude::*;

verus! {

/// Added to a key's scancode when the key is released.
pub const RELEASE_OFFSET: u32 = 0x80;

/// Codes from here up are extended: sent as a prefix byte, then the rest.
pub const EXTENDED_THRESHOLD: u32 = 0xe000;

/// The byte that announces an extended code.
pub const EXTENDED_PREFIX: u8 = 0xe0;

/// The Windows scancode that the keycode table gives for an evdev code, if it
/// lists the key.
pub uninterp spec fn win_code_of(evdev: u16) -> Option<u16>;

/// Relies on `keycode::KeyMap::from_key_mapping(KeyMapping::Evdev(..))`: the
/// table entry of the key with that evdev code, whose `win` field is its
/// Windows scancode; an error where the table lists no such key.
#[verifier::external_body]
fn lookup_win_code(evdev: u16) -> (r: Option<u16>)
    ensures
        r == win_code_of(evdev),
{
    match keycode::KeyMap::from_key_mapping(keycode::KeyMapping::Evdev(evdev)) {
        Ok(map) => Some(map.win),
        Err(()) => None,
    }
}

/// The scancode of a key transition: the key's code, plus the release offset
/// on a release.
pub open spec fn transition_code(win: u16, released: bool) -> int {
    win + if released { RELEASE_OFFSET as int } else { 0 }
}

/// The bytes injected for one transition of a key with Windows code `win`:
/// the prefix and the code less the threshold for an extended code, the code
/// alone otherwise, each kept to its low eight bits.
pub open spec fn scancode_bytes(win: u16, released: bool) -> Seq<u8> {
    let c = transition_code(win, released);
    if c >= EXTENDED_THRESHOLD {
        seq![EXTENDED_PREFIX, ((c - EXTENDED_THRESHOLD) % 256) as u8]
    } else {
        seq![(c % 256) as u8]
    }
}

/// The bytes injected for one transition of the key with this evdev code:
/// none where the table does not list it.
pub open spec fn key_injections(evdev: u16, released: bool) -> Seq<u8> {
    match win_code_of(evdev) {
        Some(win) => scancode_bytes(win, released),
        None => seq![],
    }
}

/// Encodes a transition of the key with Windows code `win`.
pub fn encode_scancode(win: u16, released: bool) -> (r: Vec<u8>)
    ensures
        r@ == scancode_bytes(win, released),
{
    let mut code: u32 = win as u32;
    if released {
        code = code + RELEASE_OFFSET;
    }
    if code >= EXTENDED_THRESHOLD {
        let rest: u32 = code - EXTENDED_THRESHOLD;
        vec![EXTENDED_PREFIX, (rest % 256) as u8]
    } else {
        vec![(code % 256) as u8]
    }
}

/// Translates a press or release of the key with this evdev code into the
/// bytes to inject, in order; an unmapped key gives none.
pub fn translate_key(evdev: u16, released: bool) -> (r: Vec<u8>)
    ensures
        r@ == key_injections(evdev, released),
{
    match lookup_win_code(evdev) {
        Some(win) => encode_scancode(win, released),
        None => Vec::new(),
    }
}

/// A press and the release of the same key differ by the release offset. For
/// a one-byte code, the two injected bytes differ by it; for an extended
/// code, each transition injects the prefix and then the code less the
/// threshold, the release again higher by the offset.
pub proof fn lemma_press_release(win: u16)
    ensures
        transition_code(win, true) - transition_code(win, false) == RELEASE_OFFSET,
        win < 0x80 ==> {
            &&& scancode_bytes(win, false).len() == 1
            &&& scancode_bytes(win, true).len() == 1
            &&& scancode_bytes(win, true)[0] - scancode_bytes(win, false)[0] == RELEASE_OFFSET
        },
        0xe000 <= win < 0xe080 ==> {
            &&& scancode_bytes(win, false) == seq![EXTENDED_PREFIX, (win - 0xe000) as u8]
            &&& scancode_bytes(win, true) == seq![EXTENDED_PREFIX, (win - 0xe000 + 0x80) as u8]
        },
{
}

/// The same law, for a physical key that the table maps to `win`.
pub proof fn lemma_key_press_release(evdev: u16, win: u16)
    requires
        win_code_of(evdev) == Some(win),
    ensures
        win < 0x80 ==> {
            &&& key_injections(evdev, false).len() == 1
            &&& key_injections(evdev, true).len() == 1
            &&& key_injections(evdev, true)[0] - key_injections(evdev, false)[0] == RELEASE_OFFSET
        },
        0xe000 <= win < 0xe080 ==> {
            &&& key_injections(evdev, false) == seq![EXTENDED_PREFIX, (win - 0xe000) as u8]
            &&& key_injections(evdev, true) == seq![EXTENDED_PREFIX, (win - 0xe000 + 0x80) as u8]
        },
{
    lemma_press_release(win);
}

} // verus!
