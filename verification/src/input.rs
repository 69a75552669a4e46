//! Keyboard handling: which key gives which player action.

use vstd::prelude::*;

verus! {

/// What a player asks of the game.
#[derive(Debug, Clone, Copy, PartialEq, Eq, Hash, Structural)]
pub enum InputAction {
    LeftPlayerMoveUp,
    LeftPlayerMoveDown,
    RightPlayerMoveUp,
    RightPlayerMoveDown,
    ToggleMarker,
    ToggleTrail,
    Quit,
}

/// Whether the key behind an action went down or came up.
#[derive(Debug, Clone, Copy, PartialEq, Eq, Structural)]
pub enum InputActionState {
    Pressed,
    Released,
}

/// One action, with the state of its key.
#[derive(Debug, Clone, Copy, PartialEq, Eq, Structural)]
pub struct InputEvent {
    pub action: InputAction,
    pub state: InputActionState,
}

/// The key of a keyboard event, as far as the game tells keys apart.
#[derive(Debug, Clone, Copy, PartialEq, Eq, Structural)]
pub enum Key {
    Char(char),
    Esc,
    Up,
    Down,
    /// Any other key.
    Other,
}

/// Whether a key went down, repeats while held, or came up.
#[derive(Debug, Clone, Copy, PartialEq, Eq, Structural)]
pub enum KeyKind {
    Press,
    Repeat,
    Release,
}

/// A keyboard event: the key, the modifier keys held with it (as the bits
/// of crossterm's `KeyModifiers`), and its kind.
#[derive(Debug, Clone, Copy, PartialEq, Eq, Structural)]
pub struct KeyInput {
    pub code: Key,
    pub modifiers: u8,
    pub kind: KeyKind,
}

/// The bits of crossterm's `KeyModifiers::CONTROL`.
pub open spec fn control_modifier() -> u8 {
    0b0000_0010
}

/// Reads the bits of `crossterm::event::KeyModifiers::CONTROL`; crossterm
/// declares that flag as `0b0000_0010`, which is what the contract claims.
#[verifier::external_body]
fn control_modifier_bits() -> (bits: u8)
    ensures
        bits == control_modifier(),
{
    crossterm::event::KeyModifiers::CONTROL.bits()
}

/// Esc, the Q key (`q` or `Q`), or Ctrl (alone) with `c` or `C`: the
/// keys that end the game.
pub open spec fn is_quit_key(key: KeyInput) -> bool {
    ||| key.code == Key::Esc
    ||| key.code == Key::Char('q')
    ||| key.code == Key::Char('Q')
    ||| (key.modifiers == control_modifier() && (key.code == Key::Char('c') || key.code
        == Key::Char('C')))
}

/// The state that a key of the given kind gives a movement action.
pub open spec fn state_of_kind(kind: KeyKind) -> InputActionState {
    match kind {
        KeyKind::Release => InputActionState::Released,
        _ => InputActionState::Pressed,
    }
}

/// The movement action bound to a key, if any: `w`/`s` for the left
/// player, the arrow keys for the right one.
pub open spec fn movement_of(code: Key) -> Option<InputAction> {
    if code == Key::Char('w') || code == Key::Char('W') {
        Some(InputAction::LeftPlayerMoveUp)
    } else if code == Key::Char('s') || code == Key::Char('S') {
        Some(InputAction::LeftPlayerMoveDown)
    } else if code == Key::Up {
        Some(InputAction::RightPlayerMoveUp)
    } else if code == Key::Down {
        Some(InputAction::RightPlayerMoveDown)
    } else {
        None
    }
}

/// The toggle bound to a key, if any: `t` for the trail, `m` for the marker.
pub open spec fn toggle_of(code: Key) -> Option<InputAction> {
    if code == Key::Char('t') || code == Key::Char('T') {
        Some(InputAction::ToggleTrail)
    } else if code == Key::Char('m') || code == Key::Char('M') {
        Some(InputAction::ToggleMarker)
    } else {
        None
    }
}

/// The event that a keyboard event queues, if any. A quit key quits on
/// any kind of event; a movement key reports both presses and releases;
/// a toggle key acts only when it goes down or repeats.
pub open spec fn event_for_key(key: KeyInput) -> Option<InputEvent> {
    if is_quit_key(key) {
        Some(InputEvent { action: InputAction::Quit, state: InputActionState::Pressed })
    } else if movement_of(key.code) is Some {
        Some(InputEvent { action: movement_of(key.code)->0, state: state_of_kind(key.kind) })
    } else if toggle_of(key.code) is Some && key.kind != KeyKind::Release {
        Some(InputEvent { action: toggle_of(key.code)->0, state: InputActionState::Pressed })
    } else {
        None
    }
}

/// The letter keys of the game act the same in either case: `W` as `w`,
/// `S` as `s`, `T` as `t`, `M` as `m`, `Q` as `q`.
pub proof fn lemma_letter_case_ignored(modifiers: u8, kind: KeyKind)
    ensures
        event_for_key(KeyInput { code: Key::Char('W'), modifiers, kind }) == event_for_key(
            KeyInput { code: Key::Char('w'), modifiers, kind },
        ),
        event_for_key(KeyInput { code: Key::Char('S'), modifiers, kind }) == event_for_key(
            KeyInput { code: Key::Char('s'), modifiers, kind },
        ),
        event_for_key(KeyInput { code: Key::Char('T'), modifiers, kind }) == event_for_key(
            KeyInput { code: Key::Char('t'), modifiers, kind },
        ),
        event_for_key(KeyInput { code: Key::Char('M'), modifiers, kind }) == event_for_key(
            KeyInput { code: Key::Char('m'), modifiers, kind },
        ),
        event_for_key(KeyInput { code: Key::Char('Q'), modifiers, kind }) == event_for_key(
            KeyInput { code: Key::Char('q'), modifiers, kind },
        ),
{
}

/// Releasing a key never toggles anything, and only a quit key or a
/// movement key reports its release.
pub proof fn lemma_release_never_toggles(key: KeyInput)
    requires
        key.kind == KeyKind::Release,
    ensures
        event_for_key(key) matches Some(e) ==> e.action != InputAction::ToggleTrail
            && e.action != InputAction::ToggleMarker,
        event_for_key(key) matches Some(e) ==> (e.action == InputAction::Quit) == (e.state
            == InputActionState::Pressed),
{
}

/// The key bindings, whatever modifier keys are held: `w`/`W` and `s`/`S`
/// move the left paddle up and down, the arrow keys the right one, each
/// reporting a release as released and any other kind as pressed; Esc,
/// `q` and `Q` quit on every kind of event; `t`/`T` and `m`/`M` toggle the
/// trail and the marker when they go down or repeat, and do nothing when
/// they come up.
pub proof fn lemma_key_bindings(modifiers: u8, kind: KeyKind)
    ensures
        ({
            let state = if kind == KeyKind::Release {
                InputActionState::Released
            } else {
                InputActionState::Pressed
            };
            &&& event_for_key(KeyInput { code: Key::Char('w'), modifiers, kind }) == Some(
                InputEvent { action: InputAction::LeftPlayerMoveUp, state },
            )
            &&& event_for_key(KeyInput { code: Key::Char('W'), modifiers, kind }) == Some(
                InputEvent { action: InputAction::LeftPlayerMoveUp, state },
            )
            &&& event_for_key(KeyInput { code: Key::Char('s'), modifiers, kind }) == Some(
                InputEvent { action: InputAction::LeftPlayerMoveDown, state },
            )
            &&& event_for_key(KeyInput { code: Key::Char('S'), modifiers, kind }) == Some(
                InputEvent { action: InputAction::LeftPlayerMoveDown, state },
            )
            &&& event_for_key(KeyInput { code: Key::Up, modifiers, kind }) == Some(
                InputEvent { action: InputAction::RightPlayerMoveUp, state },
            )
            &&& event_for_key(KeyInput { code: Key::Down, modifiers, kind }) == Some(
                InputEvent { action: InputAction::RightPlayerMoveDown, state },
            )
        }),
        ({
            let quit = Some(InputEvent { action: InputAction::Quit, state: InputActionState::Pressed });
            &&& event_for_key(KeyInput { code: Key::Esc, modifiers, kind }) == quit
            &&& event_for_key(KeyInput { code: Key::Char('q'), modifiers, kind }) == quit
            &&& event_for_key(KeyInput { code: Key::Char('Q'), modifiers, kind }) == quit
        }),
        kind == KeyKind::Release ==> {
            &&& event_for_key(KeyInput { code: Key::Char('t'), modifiers, kind }) is None
            &&& event_for_key(KeyInput { code: Key::Char('T'), modifiers, kind }) is None
            &&& event_for_key(KeyInput { code: Key::Char('m'), modifiers, kind }) is None
            &&& event_for_key(KeyInput { code: Key::Char('M'), modifiers, kind }) is None
        },
        kind != KeyKind::Release ==> {
            let trail = Some(InputEvent { action: InputAction::ToggleTrail, state: InputActionState::Pressed });
            let marker = Some(InputEvent { action: InputAction::ToggleMarker, state: InputActionState::Pressed });
            &&& event_for_key(KeyInput { code: Key::Char('t'), modifiers, kind }) == trail
            &&& event_for_key(KeyInput { code: Key::Char('T'), modifiers, kind }) == trail
            &&& event_for_key(KeyInput { code: Key::Char('m'), modifiers, kind }) == marker
            &&& event_for_key(KeyInput { code: Key::Char('M'), modifiers, kind }) == marker
        },
        event_for_key(KeyInput { code: Key::Other, modifiers, kind }) is None,
        forall|c: char|
            c != 'w' && c != 'W' && c != 's' && c != 'S' && c != 'q' && c != 'Q' && c != 'c' && c
                != 'C' && c != 't' && c != 'T' && c != 'm' && c != 'M' ==> #[trigger] event_for_key(
                KeyInput { code: Key::Char(c), modifiers, kind },
            ) is None,
{
}

/// `c` or `C` quits exactly when Control alone is held (modifier bits
/// `0b10`), and does nothing otherwise.
pub proof fn lemma_control_c(modifiers: u8, kind: KeyKind)
    ensures
        modifiers == 0b0000_0010u8 ==> event_for_key(KeyInput { code: Key::Char('c'), modifiers, kind })
            == Some(InputEvent { action: InputAction::Quit, state: InputActionState::Pressed }),
        modifiers == 0b0000_0010u8 ==> event_for_key(KeyInput { code: Key::Char('C'), modifiers, kind })
            == Some(InputEvent { action: InputAction::Quit, state: InputActionState::Pressed }),
        modifiers != 0b0000_0010u8 ==> event_for_key(
            KeyInput { code: Key::Char('c'), modifiers, kind },
        ) is None,
        modifiers != 0b0000_0010u8 ==> event_for_key(
            KeyInput { code: Key::Char('C'), modifiers, kind },
        ) is None,
{
}

/// The queue of input events that the game has not handled yet.
#[derive(Debug)]
pub struct InputSystem {
    pub events: Vec<InputEvent>,
}

impl InputSystem {
    /// An empty queue.
    pub fn new() -> (s: Self)
        ensures
            s.events@ == Seq::<InputEvent>::empty(),
    {
        Self { events: Vec::new() }
    }

    /// Hands out the queued events, oldest first, and empties the queue.
    pub fn drain_events(&mut self) -> (drained: Vec<InputEvent>)
        ensures
            drained@ == old(self).events@,
            final(self).events@ == Seq::<InputEvent>::empty(),
    {
        let mut drained: Vec<InputEvent> = Vec::new();
        std::mem::swap(&mut drained, &mut self.events);
        drained
    }

    /// Queues the event that a keyboard event stands for, if it stands for one.
    pub fn on_key_event(&mut self, key: KeyInput)
        ensures
            final(self).events@ == match event_for_key(key) {
                Some(e) => old(self).events@.push(e),
                None => old(self).events@,
            },
    {
        let quit = match key.code {
            Key::Esc | Key::Char('q') | Key::Char('Q') => true,
            Key::Char('c') | Key::Char('C') => key.modifiers == control_modifier_bits(),
            _ => false,
        };
        if quit {
            let event = InputEvent { action: InputAction::Quit, state: InputActionState::Pressed };
            self.events.push(event);
            return;
        }
        let movement = match key.code {
            Key::Char('w') | Key::Char('W') => Some(InputAction::LeftPlayerMoveUp),
            Key::Char('s') | Key::Char('S') => Some(InputAction::LeftPlayerMoveDown),
            Key::Up => Some(InputAction::RightPlayerMoveUp),
            Key::Down => Some(InputAction::RightPlayerMoveDown),
            _ => None,
        };
        match movement {
            Some(action) => {
                let state = match key.kind {
                    KeyKind::Press | KeyKind::Repeat => InputActionState::Pressed,
                    KeyKind::Release => InputActionState::Released,
                };
                self.events.push(InputEvent { action, state });
            },
            None => {
                let toggle = match key.code {
                    Key::Char('t') | Key::Char('T') => Some(InputAction::ToggleTrail),
                    Key::Char('m') | Key::Char('M') => Some(InputAction::ToggleMarker),
                    _ => None,
                };
                if let Some(action) = toggle {
                    match key.kind {
                        KeyKind::Press | KeyKind::Repeat => {
                            self.events.push(
                                InputEvent { action, state: InputActionState::Pressed },
                            );
                        },
                        KeyKind::Release => {},
                    }
                }
            },
        }
    }
}

} // verus!
