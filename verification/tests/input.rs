use crossterm::event::KeyModifiers;
use rat_pong::input::{InputAction, InputActionState, InputEvent, InputSystem, Key, KeyInput, KeyKind};

fn key(code: Key, kind: KeyKind) -> KeyInput {
    KeyInput { code, modifiers: KeyModifiers::NONE.bits(), kind }
}

fn event(action: InputAction, state: InputActionState) -> InputEvent {
    InputEvent { action, state }
}

fn events_for(k: KeyInput) -> Vec<InputEvent> {
    let mut system = InputSystem::new();
    system.on_key_event(k);
    system.drain_events()
}

#[test]
fn new_input_system_is_empty() {
    let system = InputSystem::new();
    assert!(system.events.is_empty());
}

#[test]
fn drain_hands_out_events_in_order_and_empties() {
    let mut system = InputSystem::new();
    system.on_key_event(key(Key::Char('w'), KeyKind::Press));
    system.on_key_event(key(Key::Down, KeyKind::Release));
    system.on_key_event(key(Key::Char('t'), KeyKind::Press));
    let drained = system.drain_events();
    assert_eq!(
        drained,
        vec![
            event(InputAction::LeftPlayerMoveUp, InputActionState::Pressed),
            event(InputAction::RightPlayerMoveDown, InputActionState::Released),
            event(InputAction::ToggleTrail, InputActionState::Pressed),
        ]
    );
    assert!(system.events.is_empty());
    assert!(system.drain_events().is_empty());
}

#[test]
fn escape_and_q_quit_on_any_kind() {
    for kind in [KeyKind::Press, KeyKind::Repeat, KeyKind::Release] {
        assert_eq!(events_for(key(Key::Esc, kind)), vec![event(InputAction::Quit, InputActionState::Pressed)]);
        assert_eq!(
            events_for(key(Key::Char('q'), kind)),
            vec![event(InputAction::Quit, InputActionState::Pressed)]
        );
    }
}

#[test]
fn upper_case_q_quits() {
    for kind in [KeyKind::Press, KeyKind::Repeat, KeyKind::Release] {
        assert_eq!(
            events_for(key(Key::Char('Q'), kind)),
            vec![event(InputAction::Quit, InputActionState::Pressed)]
        );
    }
    let shift = KeyInput { code: Key::Char('Q'), modifiers: KeyModifiers::SHIFT.bits(), kind: KeyKind::Press };
    assert_eq!(events_for(shift), vec![event(InputAction::Quit, InputActionState::Pressed)]);
}

#[test]
fn control_c_quits_in_either_case() {
    let control = KeyModifiers::CONTROL.bits();
    for c in ['c', 'C'] {
        let k = KeyInput { code: Key::Char(c), modifiers: control, kind: KeyKind::Press };
        assert_eq!(events_for(k), vec![event(InputAction::Quit, InputActionState::Pressed)]);
    }
}

#[test]
fn c_without_control_alone_does_nothing() {
    assert!(events_for(key(Key::Char('c'), KeyKind::Press)).is_empty());
    let both = (KeyModifiers::CONTROL | KeyModifiers::SHIFT).bits();
    let k = KeyInput { code: Key::Char('C'), modifiers: both, kind: KeyKind::Press };
    assert!(events_for(k).is_empty());
    let alt = KeyModifiers::ALT.bits();
    let k = KeyInput { code: Key::Char('c'), modifiers: alt, kind: KeyKind::Press };
    assert!(events_for(k).is_empty());
}

#[test]
fn movement_keys_report_press_and_release() {
    let cases = [
        (Key::Char('w'), InputAction::LeftPlayerMoveUp),
        (Key::Char('W'), InputAction::LeftPlayerMoveUp),
        (Key::Char('s'), InputAction::LeftPlayerMoveDown),
        (Key::Char('S'), InputAction::LeftPlayerMoveDown),
        (Key::Up, InputAction::RightPlayerMoveUp),
        (Key::Down, InputAction::RightPlayerMoveDown),
    ];
    for (code, action) in cases {
        assert_eq!(events_for(key(code, KeyKind::Press)), vec![event(action, InputActionState::Pressed)]);
        assert_eq!(events_for(key(code, KeyKind::Repeat)), vec![event(action, InputActionState::Pressed)]);
        assert_eq!(events_for(key(code, KeyKind::Release)), vec![event(action, InputActionState::Released)]);
    }
}

#[test]
fn movement_keys_ignore_modifiers() {
    let k = KeyInput { code: Key::Char('w'), modifiers: KeyModifiers::CONTROL.bits(), kind: KeyKind::Press };
    assert_eq!(events_for(k), vec![event(InputAction::LeftPlayerMoveUp, InputActionState::Pressed)]);
}

#[test]
fn toggle_keys_act_on_press_and_repeat_only() {
    for (code, action) in [
        (Key::Char('t'), InputAction::ToggleTrail),
        (Key::Char('T'), InputAction::ToggleTrail),
        (Key::Char('m'), InputAction::ToggleMarker),
        (Key::Char('M'), InputAction::ToggleMarker),
    ] {
        assert_eq!(events_for(key(code, KeyKind::Press)), vec![event(action, InputActionState::Pressed)]);
        assert_eq!(events_for(key(code, KeyKind::Repeat)), vec![event(action, InputActionState::Pressed)]);
        assert!(events_for(key(code, KeyKind::Release)).is_empty());
    }
}

#[test]
fn other_keys_are_ignored() {
    for code in [Key::Other, Key::Char('x'), Key::Char(' '), Key::Char('1')] {
        for kind in [KeyKind::Press, KeyKind::Repeat, KeyKind::Release] {
            assert!(events_for(key(code, kind)).is_empty());
        }
    }
}

#[test]
fn letter_case_is_ignored() {
    for kind in [KeyKind::Press, KeyKind::Repeat, KeyKind::Release] {
        for (upper, lower) in [('W', 'w'), ('S', 's'), ('T', 't'), ('M', 'm'), ('Q', 'q')] {
            assert_eq!(events_for(key(Key::Char(upper), kind)), events_for(key(Key::Char(lower), kind)));
        }
    }
}
