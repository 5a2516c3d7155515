use gui_term::app_loop::{poll_timeout_ms, AppState};
use gui_term::geometry::{SharedGeometry, WindowGeometry};
use gui_term::host::{HostEffect, WindowHost, WindowInput};
use gui_term::input::{actions, dispatch, key_action, text_event, AppAction, Direction, Dispatch, InputEvent};
use gui_term::keyboard::{encode_scancode, translate_key, RELEASE_OFFSET};
use gui_term::present::{frame_interval_ms, pack_rgb, FrameSize, RedrawEvent, RedrawFlag};
use gui_term::scroll::{ScrollAccumulator, ScrollDelta, UNITS_PER_LINE};

fn key_text(s: &str) -> InputEvent {
    InputEvent::KeyText(s.to_string())
}

#[test]
fn scroll_whole_line_is_released_at_once() {
    let mut acc = ScrollAccumulator::new();
    assert_eq!(acc.push(ScrollDelta::Lines(256)), 1);
    assert_eq!(acc.units, 0);
}

#[test]
fn scroll_fractions_carry_over() {
    let mut acc = ScrollAccumulator::new();
    // 0.375 of a line, four times: 1.5 lines in all
    let mut emitted = 0;
    for _ in 0..4 {
        emitted += acc.push(ScrollDelta::Lines(96));
    }
    assert_eq!(emitted, 1);
    assert_eq!(acc.units, UNITS_PER_LINE / 2);
}

#[test]
fn scroll_non_integer_total_gives_its_whole_lines() {
    // 0.75 + 1.25 + 0.5 + 0.25 = 2.75 lines
    let deltas = [
        ScrollDelta::Lines(192),
        ScrollDelta::Lines(320),
        ScrollDelta::Lines(128),
        ScrollDelta::Lines(64),
    ];
    let mut acc = ScrollAccumulator::new();
    let emitted: i64 = deltas.iter().map(|d| acc.push(*d)).sum();
    assert_eq!(emitted, 2);
    assert_eq!(acc.units, 768);
}

#[test]
fn scroll_touchpad_pixels_are_quarter_lines() {
    let mut acc = ScrollAccumulator::new();
    assert_eq!(acc.push(ScrollDelta::Pixels(3 * 256)), 0);
    assert_eq!(acc.push(ScrollDelta::Pixels(256)), 1);
    assert_eq!(acc.push(ScrollDelta::Pixels(10 * 256)), 2);
    assert_eq!(acc.units, 512);
}

#[test]
fn scroll_backward_truncates_toward_zero() {
    let mut acc = ScrollAccumulator::new();
    assert_eq!(acc.push(ScrollDelta::Lines(-384)), -1);
    assert_eq!(acc.units, -512);
    assert_eq!(acc.push(ScrollDelta::Lines(-64)), 0);
    assert_eq!(acc.push(ScrollDelta::Lines(-64)), -1);
    assert_eq!(acc.units, 0);
}

#[test]
fn key_press_and_release_differ_by_offset() {
    // evdev 0x1e is the A key, Windows scancode 0x1e
    let press = translate_key(0x1e, false);
    let release = translate_key(0x1e, true);
    assert_eq!(press, vec![0x1e]);
    assert_eq!(release, vec![0x9e]);
    assert_eq!((release[0] - press[0]) as u32, RELEASE_OFFSET);
}

#[test]
fn extended_key_sends_prefix_then_base() {
    // evdev 0x67 is the up arrow, Windows scancode 0xe048
    assert_eq!(translate_key(0x67, false), vec![0xe0, 0x48]);
    assert_eq!(translate_key(0x67, true), vec![0xe0, 0xc8]);
    // evdev 0x61 is the right control key, Windows scancode 0xe01d
    assert_eq!(translate_key(0x61, false), vec![0xe0, 0x1d]);
}

#[test]
fn unmapped_key_is_ignored() {
    assert!(translate_key(0x0fff, false).is_empty());
    assert!(translate_key(0x0fff, true).is_empty());
}

#[test]
fn scancode_encoding_by_hand() {
    assert_eq!(encode_scancode(0x01, false), vec![0x01]);
    assert_eq!(encode_scancode(0x01, true), vec![0x81]);
    assert_eq!(encode_scancode(0xe05b, true), vec![0xe0, 0xdb]);
}

#[test]
fn writes_between_ticks_present_once() {
    let mut flag = RedrawFlag::new();
    let mut presented = 0;
    for _ in 0..5 {
        if flag.step(RedrawEvent::Write) {
            presented += 1;
        }
    }
    if flag.step(RedrawEvent::Tick) {
        presented += 1;
    }
    if flag.step(RedrawEvent::Tick) {
        presented += 1;
    }
    assert_eq!(presented, 1);
    assert!(!flag.pending);
}

#[test]
fn idle_tick_presents_nothing() {
    let mut flag = RedrawFlag::new();
    assert!(!flag.on_wake(true));
}

#[test]
fn wake_before_timer_keeps_redraw_pending() {
    let mut flag = RedrawFlag::new();
    flag.mark();
    assert!(!flag.on_wake(false));
    assert!(flag.pending);
    assert!(flag.on_wake(true));
    assert!(!flag.pending);
}

#[test]
fn frame_interval_from_refresh_rate() {
    assert_eq!(frame_interval_ms(None), 16);
    assert_eq!(frame_interval_ms(Some(0)), 16);
    assert_eq!(frame_interval_ms(Some(60000)), 16);
    assert_eq!(frame_interval_ms(Some(144000)), 6);
    assert_eq!(frame_interval_ms(Some(30000)), 33);
}

#[test]
fn pixel_colour_and_index() {
    assert_eq!(pack_rgb(0x12, 0x34, 0x56), 0x123456);
    assert_eq!(pack_rgb(255, 255, 255), 0xffffff);
    let size = FrameSize::display();
    assert_eq!(size.cells(), 1024 * 768);
    assert_eq!(size.index(3, 2), 2 * 1024 + 3);
    assert_eq!(size.index(1023, 767), 1024 * 768 - 1);
}

#[test]
fn geometry_starts_at_default() {
    let g = SharedGeometry::new();
    assert_eq!(g.size(), (80, 24));
}

#[test]
fn resize_event_updates_geometry_whole() {
    let mut g = SharedGeometry::new();
    let mut state = AppState::new();
    let step = state.step(Some(&InputEvent::Resize(132, 43)), 0, 250);
    assert_eq!(step.resize, Some((132, 43)));
    assert_eq!(step.action, None);
    let (c, r) = step.resize.unwrap();
    g.resize(c, r);
    assert_eq!(g.size(), (132, 43));
    assert_eq!(
        g.window_size(),
        WindowGeometry { columns: 132, rows: 43, pixel_width: 0, pixel_height: 0 }
    );
}

#[test]
fn key_vocabulary() {
    assert_eq!(key_action("j"), Some(AppAction::Navigate(Direction::Down)));
    assert_eq!(key_action("h"), Some(AppAction::Navigate(Direction::Left)));
    assert_eq!(key_action("\x1b[A"), Some(AppAction::Navigate(Direction::Up)));
    assert_eq!(key_action("\x1bOC"), Some(AppAction::Navigate(Direction::Right)));
    assert_eq!(key_action("\x1b[B"), Some(AppAction::Navigate(Direction::Down)));
    assert_eq!(key_action("x"), Some(AppAction::Key('x')));
    assert_eq!(key_action("ab"), None);
    assert_eq!(key_action("\x1b[Z"), None);
    assert_eq!(key_action(""), None);
}

#[test]
fn key_j_fires_down_once() {
    let evs = vec![key_text("j")];
    assert_eq!(actions(&evs), vec![AppAction::Navigate(Direction::Down)]);
    let mut state = AppState::new();
    let step = state.step(Some(&evs[0]), 0, 250);
    assert_eq!(step.action, Some(AppAction::Navigate(Direction::Down)));
    assert_eq!(step.resize, None);
    assert!(!step.tick);
    assert!(!step.shutdown);
    assert_eq!(state.last_action, Some(AppAction::Navigate(Direction::Down)));
}

#[test]
fn actions_skip_resizes_and_unknown_text() {
    let evs = vec![key_text("k"), InputEvent::Resize(10, 10), key_text("zz"), key_text("q")];
    assert_eq!(
        actions(&evs),
        vec![AppAction::Navigate(Direction::Up), AppAction::Key('q')]
    );
    assert_eq!(dispatch(&evs[1]), Dispatch::Resize(10, 10));
    assert_eq!(dispatch(&evs[2]), Dispatch::Ignore);
}

#[test]
fn quit_key_asks_for_shutdown() {
    let mut state = AppState::new();
    let step = state.step(Some(&key_text("q")), 10, 250);
    assert!(step.shutdown);
    assert!(state.should_quit);
}

#[test]
fn tick_fires_once_interval_elapsed() {
    let mut state = AppState::new();
    let step = state.step(None, 250, 250);
    assert!(step.tick);
    assert_eq!(state.ticks, 1);
    let step = state.step(None, 100, 250);
    assert!(!step.tick);
    assert_eq!(state.ticks, 1);
    assert_eq!(poll_timeout_ms(100, 250), 150);
    assert_eq!(poll_timeout_ms(300, 250), 0);
}

#[test]
fn shutdown_signal_ends_window_loop() {
    let mut host = WindowHost::new();
    assert_eq!(host.handle(WindowInput::Other), vec![]);
    assert!(host.running);
    assert_eq!(host.handle(WindowInput::AppFinished), vec![HostEffect::Exit]);
    assert!(!host.running);
}

#[test]
fn close_request_ends_window_loop() {
    let mut host = WindowHost::new();
    assert_eq!(host.handle(WindowInput::CloseRequested), vec![HostEffect::Exit]);
    assert!(!host.running);
}

#[test]
fn host_key_events() {
    let mut host = WindowHost::new();
    assert_eq!(
        host.handle(WindowInput::Key { evdev: Some(0x1e), released: false }),
        vec![HostEffect::InjectKey(0x1e), HostEffect::MarkRedraw]
    );
    assert_eq!(
        host.handle(WindowInput::Key { evdev: Some(0x67), released: true }),
        vec![HostEffect::InjectKey(0xe0), HostEffect::InjectKey(0xc8), HostEffect::MarkRedraw]
    );
    assert_eq!(host.handle(WindowInput::Key { evdev: None, released: false }), vec![]);
    assert_eq!(host.handle(WindowInput::Key { evdev: Some(0x0fff), released: false }), vec![]);
    assert!(host.running);
}

#[test]
fn host_wheel_events() {
    let mut host = WindowHost::new();
    assert_eq!(host.handle(WindowInput::Wheel(ScrollDelta::Lines(128))), vec![]);
    assert_eq!(
        host.handle(WindowInput::Wheel(ScrollDelta::Lines(640))),
        vec![HostEffect::Scroll(3), HostEffect::MarkRedraw]
    );
    assert_eq!(host.scroll.units, 0);
}

#[test]
fn text_events() {
    assert_eq!(text_event(String::new()), None);
    assert_eq!(text_event("\x1b[A".to_string()), Some(key_text("\x1b[A")));
}
