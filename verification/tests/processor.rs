//! The input processor end to end: selection auto-scroll scheduling, touch
//! gestures, wheel scrolling, and character handling.

use term_input::click::ClickState;
use term_input::config::UiConfig;
use term_input::effects::{CursorIcon, Effect, Scroll, TimerId, Topic};
use term_input::event::{ElementState, MouseButton, MouseScrollDelta, TouchPhase};
use term_input::index::Direction;
use term_input::input::{EventContext, Processor, SELECTION_SCROLLING_INTERVAL_MS};
use term_input::modes::{
    ModifiersState, TermMode, TERM_ALTERNATE_SCROLL, TERM_ALT_SCREEN, TERM_FOCUS_IN_OUT,
    TERM_MOUSE_MOTION, TERM_SGR_MOUSE, TERM_VI,
};
use term_input::size::SizeInfo;
use term_input::touch::{Touch, TouchPurpose, TouchZoom};

fn ctx() -> EventContext {
    EventContext {
        term_mode: TermMode { bits: 0 },
        display_offset: 0,
        selection_is_empty: true,
        search_active: false,
        search_direction: Direction::Right,
        preedit_active: false,
        hint_selection_active: false,
        highlighted_hint: false,
        highlighted_hint_at_point: false,
        message_bar_lines: None,
        size: SizeInfo::new(200, 100, 10, 5, 0, 0, false),
        window_id: 7,
        scale_percent: 100,
    }
}

#[test]
fn selection_scroll_above_top_schedules_repeating_timer() {
    let p = Processor::new();
    let c = ctx();
    // end_top = max(5, padding_y) = 5; pointer one pixel above it.
    let effects = p.update_selection_scrolling(4, &c);
    assert_eq!(effects.len(), 1);
    match &effects[0] {
        Effect::ScheduleSelectionScroll { window_id, delta, interval_ms } => {
            assert_eq!(*window_id, 7);
            assert_eq!(*interval_ms, SELECTION_SCROLLING_INTERVAL_MS);
            // delta = (end_top - y + step) / step = (5 - 4 + 20) / 20 = 1.
            assert_eq!(*delta, 1);
        },
        other => panic!("unexpected effect {:?}", other),
    }
}

#[test]
fn selection_scroll_inside_region_cancels_timer() {
    let p = Processor::new();
    let c = ctx();
    let effects = p.update_selection_scrolling(50, &c);
    assert_eq!(
        effects,
        vec![Effect::CancelTimer(TimerId { topic: Topic::SelectionScrolling, window_id: 7 })]
    );
}

#[test]
fn selection_scroll_below_bottom_scrolls_down() {
    let p = Processor::new();
    let c = ctx();
    // start_bottom = min(100 - 5, 0 + 20 * 5) = 95; pointer below it.
    let effects = p.update_selection_scrolling(96, &c);
    match &effects[0] {
        Effect::ScheduleSelectionScroll { delta, .. } => {
            // delta = (start_bottom - y - step) / step = (95 - 96 - 20) / 20 = -1.
            assert_eq!(*delta, -1);
        },
        other => panic!("unexpected effect {:?}", other),
    }
}

#[test]
fn touch_tap_becomes_scroll_and_scrolls() {
    let mut p = Processor::new();
    let c = ctx();
    let cfg = UiConfig::default();
    let t0 = Touch { id: 1, x: 0, y: 0 };
    p.touch(t0, TouchPhase::Started, 0, &c, &cfg);
    assert!(matches!(p.touch, TouchPurpose::Tap(_)));

    // Move by (0, 30): past the 20 px drag threshold, vertically.
    let t1 = Touch { id: 1, x: 0, y: 30 };
    let effects = p.touch(t1, TouchPhase::Moved, 0, &c, &cfg);
    assert!(matches!(p.touch, TouchPurpose::Scroll(_)));
    // The replayed motion scrolls: 30 px * 0.35 = 10 px, times the scroll
    // multiplier 3 is 30 px, over 5 px cells: 6 lines.
    assert_eq!(effects, vec![Effect::Scroll(Scroll::Delta(6))]);
}

#[test]
fn touch_second_finger_turns_tap_into_zoom() {
    let mut p = Processor::new();
    let c = ctx();
    let cfg = UiConfig::default();
    p.touch(Touch { id: 1, x: 0, y: 0 }, TouchPhase::Started, 0, &c, &cfg);
    p.touch(Touch { id: 2, x: 100, y: 0 }, TouchPhase::Started, 0, &c, &cfg);
    match &p.touch {
        TouchPurpose::Zoom(z) => {
            assert_eq!(z.first.id, 1);
            assert_eq!(z.second.id, 2);
        },
        other => panic!("unexpected state {:?}", other),
    }
}

#[test]
fn touch_zoom_reports_distance_change() {
    let mut p = Processor::new();
    let c = ctx();
    let cfg = UiConfig::default();
    p.touch(Touch { id: 1, x: 0, y: 0 }, TouchPhase::Started, 0, &c, &cfg);
    p.touch(Touch { id: 2, x: 100, y: 0 }, TouchPhase::Started, 0, &c, &cfg);
    // Moving the second finger from 100 to 160 grows the distance by 60.
    let effects = p.touch(Touch { id: 2, x: 160, y: 0 }, TouchPhase::Moved, 0, &c, &cfg);
    assert_eq!(effects, vec![Effect::PinchZoom(60)]);
}

#[test]
fn touch_third_finger_invalidates_gesture() {
    let mut p = Processor::new();
    let c = ctx();
    let cfg = UiConfig::default();
    p.touch(Touch { id: 1, x: 0, y: 0 }, TouchPhase::Started, 0, &c, &cfg);
    p.touch(Touch { id: 2, x: 50, y: 0 }, TouchPhase::Started, 0, &c, &cfg);
    p.touch(Touch { id: 3, x: 90, y: 0 }, TouchPhase::Started, 0, &c, &cfg);
    // The gesture is abandoned: the zoom's own ids are absorbed until they
    // all lift.
    match &p.touch {
        TouchPurpose::Invalid(ids) => {
            let mut sorted = ids.clone();
            sorted.sort();
            assert_eq!(sorted, vec![1, 2]);
        },
        other => panic!("unexpected state {:?}", other),
    }
    // Lifting the fingers drains the set and resets to idle.
    p.touch(Touch { id: 1, x: 0, y: 0 }, TouchPhase::Ended, 0, &c, &cfg);
    assert!(matches!(p.touch, TouchPurpose::Invalid(_)));
    p.touch(Touch { id: 2, x: 50, y: 0 }, TouchPhase::Ended, 0, &c, &cfg);
    assert!(matches!(p.touch, TouchPurpose::Idle));
}

#[test]
fn touch_zoom_state_tracks_slots() {
    let mut z = TouchZoom::new(Touch { id: 1, x: 0, y: 0 }, Touch { id: 2, x: 30, y: 40 });
    // Distance from (0,0) to (30,40) is 50; moving the first slot to
    // (30, 40) collapses it to 0.
    let delta = z.update(Touch { id: 1, x: 30, y: 40 });
    assert_eq!(delta, -50);
    let mut slots = z.slots();
    slots.sort();
    assert_eq!(slots, vec![1, 2]);
}

#[test]
fn wheel_scroll_accumulates_subcell_remainders() {
    let mut p = Processor::new();
    let c = ctx();
    let cfg = UiConfig::default();
    // 4 px down with multiplier 3: 12 px over 5 px cells scrolls 2 lines,
    // carrying a 2 px remainder.
    let effects =
        p.mouse_wheel_input(MouseScrollDelta::PixelDelta(0, 4), TouchPhase::Moved, &c, &cfg);
    assert_eq!(effects, vec![Effect::Scroll(Scroll::Delta(2))]);
    assert_eq!(p.mouse.accumulated_scroll.y, 2);
    // A started touch phase resets the accumulator.
    p.mouse_wheel_input(MouseScrollDelta::PixelDelta(0, 0), TouchPhase::Started, &c, &cfg);
    assert_eq!(p.mouse.accumulated_scroll.y, 0);
}

#[test]
fn wheel_with_zero_multiplier_scrolls_nothing() {
    let mut p = Processor::new();
    let c = ctx();
    // A zero multiplier disables scrolling: no lines, nothing accumulated
    // beyond the remainder arithmetic.
    let cfg = UiConfig::new(true, UiConfig::default().mouse, 0, Vec::new(), Vec::new());
    let effects =
        p.mouse_wheel_input(MouseScrollDelta::PixelDelta(0, 40), TouchPhase::Moved, &c, &cfg);
    assert_eq!(effects, vec![]);
    assert_eq!(p.mouse.accumulated_scroll.y, 0);
}

#[test]
fn wheel_in_mouse_mode_sends_wheel_reports() {
    let mut p = Processor::new();
    let mut c = ctx();
    c.term_mode = TermMode { bits: TERM_MOUSE_MOTION | TERM_SGR_MOUSE };
    let cfg = UiConfig::default();
    // 12 px over 5 px cells: two wheel-up reports, 2 px remainder kept.
    let effects =
        p.mouse_wheel_input(MouseScrollDelta::PixelDelta(0, 12), TouchPhase::Moved, &c, &cfg);
    assert_eq!(
        effects,
        vec![
            Effect::WritePty(b"\x1b[<64;1;1M".to_vec()),
            Effect::WritePty(b"\x1b[<64;1;1M".to_vec()),
        ]
    );
    assert_eq!(p.mouse.accumulated_scroll.y, 2);
    // Scrolling the other way: the 2 px remainder joins the new delta for
    // two wheel-down reports.
    let effects =
        p.mouse_wheel_input(MouseScrollDelta::PixelDelta(0, -12), TouchPhase::Moved, &c, &cfg);
    assert_eq!(
        effects,
        vec![
            Effect::WritePty(b"\x1b[<65;1;1M".to_vec()),
            Effect::WritePty(b"\x1b[<65;1;1M".to_vec()),
        ]
    );
    assert_eq!(p.mouse.accumulated_scroll.y, 0);
}

#[test]
fn wheel_on_alt_screen_sends_arrow_keys() {
    let mut p = Processor::new();
    let mut c = ctx();
    c.term_mode = TermMode { bits: TERM_ALT_SCREEN | TERM_ALTERNATE_SCROLL };
    let cfg = UiConfig::default();
    // 5 px down, multiplier 3: 15 px over 5 px cells is 3 line events.
    let effects =
        p.mouse_wheel_input(MouseScrollDelta::PixelDelta(0, 5), TouchPhase::Moved, &c, &cfg);
    assert_eq!(effects.len(), 1);
    match &effects[0] {
        Effect::WritePty(bytes) => {
            assert_eq!(bytes, &b"\x1bOA\x1bOA\x1bOA".to_vec());
        },
        other => panic!("unexpected effect {:?}", other),
    }
}

#[test]
fn shallow_angles_scroll_horizontally() {
    let mut p = Processor::new();
    let c = ctx();
    let cfg = UiConfig::default();
    // x strongly dominates y: the vertical component is dropped, and the
    // default path only scrolls vertically, so nothing happens.
    let effects =
        p.mouse_wheel_input(MouseScrollDelta::PixelDelta(100, 4), TouchPhase::Moved, &c, &cfg);
    assert_eq!(effects, vec![]);
    assert_eq!(p.mouse.accumulated_scroll.y, 0);
}

#[test]
fn focus_change_writes_focus_escapes() {
    let p = Processor::new();
    let mut c = ctx();
    c.term_mode = TermMode { bits: TERM_FOCUS_IN_OUT };
    let gained = p.on_focus_change(true, &c);
    assert_eq!(gained, vec![Effect::WritePty(b"\x1b[I".to_vec())]);
    let lost = p.on_focus_change(false, &c);
    assert_eq!(lost, vec![Effect::WritePty(b"\x1b[O".to_vec())]);
    let silent = p.on_focus_change(true, &ctx());
    assert!(silent.is_empty());
}

#[test]
fn received_char_writes_utf8_with_alt_escape() {
    let mut p = Processor::new();
    let c = ctx();
    p.modifiers = ModifiersState { shift: false, ctrl: false, alt: true, logo: false };
    let effects = p.received_char('x', &c);
    assert_eq!(effects.len(), 3);
    assert_eq!(effects[0], Effect::OnTypingStart);
    assert_eq!(effects[1], Effect::ClearSelection);
    assert_eq!(effects[2], Effect::WritePty(b"\x1bx".to_vec()));
    // The second character keeps its plain encoding.
    let effects = p.received_char('y', &c);
    assert_eq!(effects[2], Effect::WritePty(b"y".to_vec()));
}

#[test]
fn received_char_feeds_search_and_vi_mode() {
    let mut p = Processor::new();
    let mut c = ctx();
    c.search_active = true;
    assert_eq!(p.received_char('q', &c), vec![Effect::SearchInput('q')]);
    let mut c = ctx();
    c.term_mode = TermMode { bits: TERM_VI };
    assert!(p.received_char('q', &c).is_empty());
}

#[test]
fn mouse_press_in_mouse_mode_reports_sgr() {
    let mut p = Processor::new();
    let mut c = ctx();
    c.term_mode = TermMode { bits: TERM_MOUSE_MOTION | TERM_SGR_MOUSE };
    let cfg = UiConfig::default();
    let effects = p.mouse_input(ElementState::Pressed, MouseButton::Left, 0, &c, &cfg);
    assert_eq!(effects, vec![Effect::WritePty(b"\x1b[<0;1;1M".to_vec())]);
    let effects = p.mouse_input(ElementState::Released, MouseButton::Left, 0, &c, &cfg);
    assert_eq!(effects, vec![Effect::WritePty(b"\x1b[<0;1;1m".to_vec())]);
}

#[test]
fn left_click_starts_selection_and_release_copies() {
    let mut p = Processor::new();
    let c = ctx();
    let cfg = UiConfig::default();
    let effects = p.mouse_input(ElementState::Pressed, MouseButton::Left, 0, &c, &cfg);
    assert!(effects.contains(&Effect::ClearSelection));
    assert!(effects.iter().any(|e| matches!(e, Effect::StartSelection(..))));
    let effects = p.mouse_input(ElementState::Released, MouseButton::Left, 5, &c, &cfg);
    assert!(effects.iter().any(|e| matches!(e, Effect::CopySelection(_))));
    assert!(effects.iter().any(|e| matches!(e, Effect::CancelTimer(_))));
}

#[test]
fn double_and_triple_clicks_advance_state() {
    let mut p = Processor::new();
    let c = ctx();
    let cfg = UiConfig::default();
    p.mouse_input(ElementState::Pressed, MouseButton::Left, 0, &c, &cfg);
    assert_eq!(p.mouse.click_state, ClickState::Click);
    p.mouse_input(ElementState::Pressed, MouseButton::Left, 100, &c, &cfg);
    assert_eq!(p.mouse.click_state, ClickState::DoubleClick);
    p.mouse_input(ElementState::Pressed, MouseButton::Left, 200, &c, &cfg);
    assert_eq!(p.mouse.click_state, ClickState::TripleClick);
    // A different button resets the sequence.
    p.mouse_input(ElementState::Pressed, MouseButton::Right, 250, &c, &cfg);
    assert_eq!(p.mouse.click_state, ClickState::Click);
}

#[test]
fn key_input_restarts_search_delay_while_typing() {
    let mut p = Processor::new();
    let mut c = ctx();
    c.search_active = true;
    let cfg = UiConfig::default();
    let input = term_input::bindings::KeyboardInput {
        state: ElementState::Released,
        scancode: 0,
        virtual_keycode: Some(1),
    };
    let effects = p.key_input(input, &c, &cfg);
    assert_eq!(effects.len(), 1);
    assert!(matches!(effects[0], Effect::RestartDelayedSearch { .. }));
}

#[test]
fn cursor_icon_follows_mouse_mode() {
    let mut p = Processor::new();
    let c = ctx();
    assert_eq!(p.cursor_state(&c), CursorIcon::Text);
    let mut c = ctx();
    c.term_mode = TermMode { bits: TERM_MOUSE_MOTION };
    assert_eq!(p.cursor_state(&c), CursorIcon::Default);
    p.modifiers = ModifiersState { shift: true, ctrl: false, alt: false, logo: false };
    assert_eq!(p.cursor_state(&c), CursorIcon::Text);
}

#[test]
fn motion_in_motion_mode_reports_to_application() {
    let mut p = Processor::new();
    let mut c = ctx();
    c.term_mode = TermMode { bits: TERM_MOUSE_MOTION | TERM_SGR_MOUSE };
    let cfg = UiConfig::default();
    // Move into another cell: code 35 (motion, no button) is reported.
    let effects = p.mouse_moved(55, 42, &c);
    assert!(effects.iter().any(|e| {
        matches!(e, Effect::WritePty(b) if b == &b"\x1b[<35;6;9M".to_vec())
    }));
}
