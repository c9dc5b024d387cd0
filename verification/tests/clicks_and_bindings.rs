//! Click-multiplicity classification and binding matching, including the
//! character-suppression rule and default-binding overrides.

use term_input::bindings::{
    match_key_bindings, merge_bindings, Action, Binding, Key, KeyboardInput,
};
use term_input::click::{classify_click, ClickState};
use term_input::event::{ElementState, MouseButton};
use term_input::modes::{
    BindingMode, ModifiersState, TermMode, BINDING_ALT_SCREEN, BINDING_APP_CURSOR, BINDING_SEARCH,
    TERM_ALT_SCREEN, TERM_APP_CURSOR,
};

fn no_mods() -> ModifiersState {
    ModifiersState { shift: false, ctrl: false, alt: false, logo: false }
}

fn binding(keycode: u32, action: Action) -> Binding<Key> {
    Binding {
        trigger: Key::Keycode(keycode),
        mods: no_mods(),
        mode: BindingMode::empty(),
        notmode: BindingMode::empty(),
        action,
    }
}

#[test]
fn click_advances_to_triple_within_thresholds() {
    let b = MouseButton::Left;
    let s1 = classify_click(ClickState::Idle, b, b, 10, 300, 300);
    assert_eq!(s1, ClickState::Click);
    let s2 = classify_click(s1, b, b, 100, 300, 300);
    assert_eq!(s2, ClickState::DoubleClick);
    let s3 = classify_click(s2, b, b, 100, 300, 300);
    assert_eq!(s3, ClickState::TripleClick);
}

#[test]
fn click_does_not_advance_past_threshold() {
    let b = MouseButton::Left;
    let s = classify_click(ClickState::Click, b, b, 300, 300, 300);
    assert_eq!(s, ClickState::Click);
}

#[test]
fn fourth_click_within_threshold_resets_to_click() {
    let b = MouseButton::Left;
    let s = classify_click(ClickState::TripleClick, b, b, 50, 300, 300);
    assert_eq!(s, ClickState::Click);
}

#[test]
fn changed_button_resets_regardless_of_time() {
    let s = classify_click(
        ClickState::DoubleClick,
        MouseButton::Left,
        MouseButton::Right,
        0,
        300,
        300,
    );
    assert_eq!(s, ClickState::Click);
}

#[test]
fn all_matching_bindings_fire() {
    let bindings = vec![
        binding(10, Action::Esc("\u{1b}[A".to_string())),
        binding(10, Action::ScrollLineUp),
        binding(11, Action::Quit),
    ];
    let input = KeyboardInput {
        state: ElementState::Pressed,
        scancode: 0,
        virtual_keycode: Some(10),
    };
    let (matched, suppress) =
        match_key_bindings(&bindings, BindingMode::empty(), no_mods(), input);
    assert_eq!(matched, vec![0, 1]);
    assert!(suppress);
}

#[test]
fn receive_char_match_disables_suppression() {
    // Both bindings match; the suppression is the AND over all matches of
    // "action is not ReceiveChar", so one ReceiveChar defeats it.
    let bindings = vec![
        binding(10, Action::Esc("x".to_string())),
        binding(10, Action::ReceiveChar),
    ];
    let input = KeyboardInput {
        state: ElementState::Pressed,
        scancode: 0,
        virtual_keycode: Some(10),
    };
    let (matched, suppress) =
        match_key_bindings(&bindings, BindingMode::empty(), no_mods(), input);
    assert_eq!(matched, vec![0, 1]);
    assert!(!suppress);
}

#[test]
fn no_match_passes_characters_through() {
    let bindings = vec![binding(10, Action::Quit)];
    let input = KeyboardInput {
        state: ElementState::Pressed,
        scancode: 0,
        virtual_keycode: Some(99),
    };
    let (matched, suppress) =
        match_key_bindings(&bindings, BindingMode::empty(), no_mods(), input);
    assert!(matched.is_empty());
    assert!(!suppress);
}

#[test]
fn modifiers_must_match_exactly() {
    let mut b = binding(10, Action::Quit);
    b.mods = ModifiersState { shift: true, ctrl: false, alt: false, logo: false };
    let input = KeyboardInput {
        state: ElementState::Pressed,
        scancode: 0,
        virtual_keycode: Some(10),
    };
    // Extra modifiers held beyond the binding's mask do not match.
    let held = ModifiersState { shift: true, ctrl: false, alt: true, logo: false };
    let (matched, _) = match_key_bindings(&vec![b.clone()], BindingMode::empty(), held, input);
    assert!(matched.is_empty());
    let exact = ModifiersState { shift: true, ctrl: false, alt: false, logo: false };
    let (matched, _) = match_key_bindings(&vec![b], BindingMode::empty(), exact, input);
    assert_eq!(matched, vec![0]);
}

#[test]
fn mode_bits_gate_bindings() {
    let mut with_mode = binding(10, Action::Quit);
    with_mode.mode = BindingMode { bits: BINDING_APP_CURSOR };
    let mut with_notmode = binding(10, Action::Quit);
    with_notmode.notmode = BindingMode { bits: BINDING_APP_CURSOR };
    let input = KeyboardInput {
        state: ElementState::Pressed,
        scancode: 0,
        virtual_keycode: Some(10),
    };

    let empty_mode = BindingMode::empty();
    let app_cursor = BindingMode { bits: BINDING_APP_CURSOR };

    let (m, _) = match_key_bindings(&vec![with_mode.clone()], empty_mode, no_mods(), input);
    assert!(m.is_empty());
    let (m, _) = match_key_bindings(&vec![with_mode], app_cursor, no_mods(), input);
    assert_eq!(m, vec![0]);
    let (m, _) = match_key_bindings(&vec![with_notmode.clone()], app_cursor, no_mods(), input);
    assert!(m.is_empty());
    let (m, _) = match_key_bindings(&vec![with_notmode], empty_mode, no_mods(), input);
    assert_eq!(m, vec![0]);
}

#[test]
fn scancode_bindings_match_raw_scancode() {
    let b = Binding {
        trigger: Key::Scancode(42),
        mods: no_mods(),
        mode: BindingMode::empty(),
        notmode: BindingMode::empty(),
        action: Action::Quit,
    };
    let input = KeyboardInput {
        state: ElementState::Pressed,
        scancode: 42,
        virtual_keycode: Some(7),
    };
    let (m, _) = match_key_bindings(&vec![b], BindingMode::empty(), no_mods(), input);
    assert_eq!(m, vec![0]);
}

#[test]
fn user_binding_suppresses_matching_default() {
    let user = vec![binding(10, Action::Quit)];
    let defaults = vec![
        binding(10, Action::Esc("a".to_string())),
        binding(11, Action::Esc("b".to_string())),
    ];
    let merged = merge_bindings(user, defaults);
    assert_eq!(merged.len(), 2);
    assert_eq!(merged[0].action, Action::Quit);
    assert_eq!(merged[1].trigger, Key::Keycode(11));
}

#[test]
fn binding_mode_projection() {
    let mode = TermMode { bits: TERM_APP_CURSOR | TERM_ALT_SCREEN };
    let projected = BindingMode::new(mode, true);
    assert_eq!(projected.bits, BINDING_APP_CURSOR | BINDING_ALT_SCREEN | BINDING_SEARCH);
}
