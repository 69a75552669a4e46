//! The game session: whether it runs, the pending input, and the tick
//! schedule of its 60 frames per second.

use vstd::prelude::*;
use crate::input::{InputAction, InputActionState, InputEvent, InputSystem, KeyInput, event_for_key};
use crate::pong::{PaddleSide, PongGame, PongView};

verus! {

/// Frames per second that the game aims at.
pub const TARGET_FPS: u64 = 60;

/// Nanoseconds in a millisecond.
pub const NANOS_PER_MILLI: u128 = 1_000_000;

/// A move of one paddle by one cell: `delta` is -1 (up) or 1 (down).
#[derive(Debug, Clone, Copy, PartialEq, Eq, Structural)]
pub struct PaddleNudge {
    pub side: PaddleSide,
    pub delta: i8,
}

/// The paddle move that an input event asks for: a pressed movement key
/// moves its player's paddle one cell up (-1) or down (1).
pub open spec fn nudge_for(event: InputEvent) -> Option<PaddleNudge> {
    if event.state != InputActionState::Pressed {
        None
    } else {
        match event.action {
            InputAction::LeftPlayerMoveUp => Some(PaddleNudge { side: PaddleSide::Left, delta: -1i8 }),
            InputAction::LeftPlayerMoveDown => Some(PaddleNudge { side: PaddleSide::Left, delta: 1 }),
            InputAction::RightPlayerMoveUp => Some(PaddleNudge { side: PaddleSide::Right, delta: -1i8 }),
            InputAction::RightPlayerMoveDown => Some(PaddleNudge { side: PaddleSide::Right, delta: 1 }),
            _ => None,
        }
    }
}

/// The paddle moves that a run of input events asks for, in order.
pub open spec fn nudges_for(events: Seq<InputEvent>) -> Seq<PaddleNudge>
    decreases events.len(),
{
    if events.len() == 0 {
        Seq::empty()
    } else {
        let earlier = nudges_for(events.drop_last());
        match nudge_for(events.last()) {
            Some(n) => earlier.push(n),
            None => earlier,
        }
    }
}

/// The session seen as plain values.
#[verifier::ext_equal]
pub struct AppView<P> {
    pub running: bool,
    pub pong: PongView<P>,
    /// Input events not handled yet, oldest first.
    pub events: Seq<InputEvent>,
    pub tick_rate_millis: u64,
}

/// A game session; `P` is what the trail remembers of each ball position.
#[derive(Debug)]
pub struct App<P> {
    running: bool,
    pong: PongGame<P>,
    input_system: InputSystem,
    tick_rate_millis: u64,
}

impl<P> AppView<P> {
    /// The session after one input event: a toggle flips the game's trail
    /// or marker, quit stops the session; movements leave it as it is.
    pub open spec fn after_event(self, event: InputEvent) -> Self {
        match event.action {
            InputAction::ToggleMarker => AppView { pong: self.pong.toggled_marker(), ..self },
            InputAction::ToggleTrail => AppView { pong: self.pong.toggled_trail(), ..self },
            InputAction::Quit => AppView { running: false, ..self },
            _ => self,
        }
    }

    /// The session after a run of input events, handled oldest first.
    pub open spec fn after_events(self, events: Seq<InputEvent>) -> Self
        decreases events.len(),
    {
        if events.len() == 0 {
            self
        } else {
            self.after_events(events.drop_last()).after_event(events.last())
        }
    }

    /// The time between two frames, in nanoseconds.
    pub open spec fn tick_rate_nanos(self) -> int {
        self.tick_rate_millis * NANOS_PER_MILLI
    }

    /// How long to wait for input, `elapsed` nanoseconds after the last
    /// frame: the rest of the frame time, or nothing once it is over.
    pub open spec fn input_timeout(self, elapsed: int) -> int {
        if elapsed >= self.tick_rate_nanos() {
            0
        } else {
            self.tick_rate_nanos() - elapsed
        }
    }

    /// Whether the next frame is due `elapsed` nanoseconds after the last one.
    pub open spec fn frame_due(self, elapsed: int) -> bool {
        elapsed >= self.tick_rate_nanos()
    }
}

/// Once a run of input events holds a quit, the session has stopped after it.
pub proof fn lemma_quit_stops<P>(v: AppView<P>, events: Seq<InputEvent>, i: int)
    requires
        0 <= i < events.len(),
        events[i].action == InputAction::Quit,
    ensures
        !v.after_events(events).running,
    decreases events.len(),
{
    if i < events.len() - 1 {
        lemma_quit_stops(v, events.drop_last(), i);
    }
}

/// Handling input never touches the scores, the field, the paddles or the
/// pending queue, and keeps a valid game valid.
pub proof fn lemma_input_keeps_play<P>(v: AppView<P>, events: Seq<InputEvent>)
    requires
        v.pong.valid(),
    ensures
        v.after_events(events).pong.valid(),
        v.after_events(events).pong.scores == v.pong.scores,
        v.after_events(events).pong.play_area == v.pong.play_area,
        v.after_events(events).pong.left_paddle == v.pong.left_paddle,
        v.after_events(events).pong.right_paddle == v.pong.right_paddle,
        v.after_events(events).events == v.events,
        v.after_events(events).tick_rate_millis == v.tick_rate_millis,
    decreases events.len(),
{
    if events.len() > 0 {
        lemma_input_keeps_play(v, events.drop_last());
    }
}

/// Each paddle move comes from one pressed movement event, so there are
/// never more moves than events, and released keys move nothing.
pub proof fn lemma_nudges_from_presses(events: Seq<InputEvent>)
    ensures
        nudges_for(events).len() <= events.len(),
        (forall|i: int|
            0 <= i < events.len() ==> #[trigger] events[i].state == InputActionState::Released)
            ==> nudges_for(events).len() == 0,
    decreases events.len(),
{
    if events.len() > 0 {
        lemma_nudges_from_presses(events.drop_last());
        assert forall|i: int|
            0 <= i < events.drop_last().len() implies #[trigger] events.drop_last()[i] == events[i] by {}
    }
}

/// Movement events never change the session: they only become paddle
/// moves, which the session hands back.
pub proof fn lemma_movement_keeps_session<P>(v: AppView<P>, event: InputEvent)
    requires
        event.action == InputAction::LeftPlayerMoveUp || event.action
            == InputAction::LeftPlayerMoveDown || event.action == InputAction::RightPlayerMoveUp
            || event.action == InputAction::RightPlayerMoveDown,
    ensures
        v.after_event(event) == v,
{
}

/// Only a quit stops the session: after a run of events with no quit in
/// it, the session runs exactly when it ran before.
pub proof fn lemma_only_quit_stops<P>(v: AppView<P>, events: Seq<InputEvent>)
    requires
        forall|i: int| 0 <= i < events.len() ==> #[trigger] events[i].action != InputAction::Quit,
    ensures
        v.after_events(events).running == v.running,
    decreases events.len(),
{
    if events.len() > 0 {
        assert forall|i: int| 0 <= i < events.drop_last().len() implies #[trigger] events.drop_last()[i].action
            != InputAction::Quit by {
            assert(events.drop_last()[i] == events[i]);
        }
        lemma_only_quit_stops(v, events.drop_last());
    }
}

/// Each movement event asks for exactly this paddle move when its key is
/// pressed, and for none when it is released: `w` up (-1) and `s` down (1)
/// for the left paddle, the arrows for the right one; other events ask
/// for none.
pub proof fn lemma_nudge_of_event(event: InputEvent)
    ensures
        event.state == InputActionState::Released ==> nudge_for(event) is None,
        event.state == InputActionState::Pressed ==> nudge_for(event) == match event.action {
            InputAction::LeftPlayerMoveUp => Some(PaddleNudge { side: PaddleSide::Left, delta: -1i8 }),
            InputAction::LeftPlayerMoveDown => Some(PaddleNudge { side: PaddleSide::Left, delta: 1i8 }),
            InputAction::RightPlayerMoveUp => Some(PaddleNudge { side: PaddleSide::Right, delta: -1i8 }),
            InputAction::RightPlayerMoveDown => Some(PaddleNudge { side: PaddleSide::Right, delta: 1i8 }),
            _ => None,
        },
{
}

/// A frame is due exactly when there is no time left to wait for input;
/// before that, waiting and elapsed time make up one frame.
pub proof fn lemma_tick_schedule<P>(v: AppView<P>, elapsed: int)
    requires
        elapsed >= 0,
    ensures
        v.frame_due(elapsed) <==> v.input_timeout(elapsed) == 0,
        !v.frame_due(elapsed) ==> v.input_timeout(elapsed) + elapsed == v.tick_rate_nanos(),
        v.tick_rate_millis == 16 ==> (v.frame_due(elapsed) <==> elapsed >= 16_000_000),
        v.tick_rate_millis == 16 && elapsed < 16_000_000 ==> v.input_timeout(elapsed) == 16_000_000
            - elapsed,
{
}

impl<P> View for App<P> {
    type V = AppView<P>;

    closed spec fn view(&self) -> AppView<P> {
        AppView {
            running: self.running,
            pong: self.pong@,
            events: self.input_system.events@,
            tick_rate_millis: self.tick_rate_millis,
        }
    }
}

impl<P> App<P> {
    /// The session's game is well formed.
    pub closed spec fn wf(&self) -> bool {
        self.pong.wf()
    }

    /// A session that has not started: a fresh game, no pending input, and
    /// a frame every `1000 / 60` milliseconds.
    pub fn new() -> (a: Self)
        ensures
            a.wf(),
            !a@.running,
            a@.pong.is_initial(),
            a@.pong.valid(),
            a@.events == Seq::<InputEvent>::empty(),
            a@.tick_rate_millis == 1000u64 / TARGET_FPS,
            a@.tick_rate_millis == 16,
    {
        App {
            running: false,
            pong: PongGame::new(),
            input_system: InputSystem::new(),
            tick_rate_millis: 1000 / TARGET_FPS,
        }
    }

    /// Starts the session.
    pub fn start(&mut self)
        ensures
            final(self)@ == (AppView { running: true, ..old(self)@ }),
            old(self).wf() ==> final(self).wf(),
    {
        self.running = true;
    }

    /// Stops the session.
    pub fn quit(&mut self)
        ensures
            final(self)@ == (AppView { running: false, ..old(self)@ }),
            old(self).wf() ==> final(self).wf(),
    {
        self.running = false;
    }

    /// Whether the session runs.
    pub fn is_running(&self) -> (r: bool)
        ensures
            r == self@.running,
    {
        self.running
    }

    /// The time between two frames, in milliseconds.
    pub fn tick_rate_millis(&self) -> (r: u64)
        ensures
            r == self@.tick_rate_millis,
    {
        self.tick_rate_millis
    }

    /// How long, in nanoseconds, to wait for input when `elapsed_nanos`
    /// have passed since the last frame.
    pub fn poll_timeout(&self, elapsed_nanos: u128) -> (timeout: u128)
        ensures
            timeout == self@.input_timeout(elapsed_nanos as int),
            timeout <= self@.tick_rate_nanos(),
    {
        let tick_rate = self.tick_rate_millis as u128 * NANOS_PER_MILLI;
        if elapsed_nanos >= tick_rate {
            0
        } else {
            tick_rate - elapsed_nanos
        }
    }

    /// Whether the next frame is due when `elapsed_nanos` have passed since
    /// the last one.
    pub fn tick_due(&self, elapsed_nanos: u128) -> (due: bool)
        ensures
            due == self@.frame_due(elapsed_nanos as int),
    {
        let tick_rate = self.tick_rate_millis as u128 * NANOS_PER_MILLI;
        elapsed_nanos >= tick_rate
    }

    /// Queues the input event that a keyboard event stands for.
    pub fn handle_key_event(&mut self, key: KeyInput)
        ensures
            final(self)@ == (AppView {
                events: match event_for_key(key) {
                    Some(e) => old(self)@.events.push(e),
                    None => old(self)@.events,
                },
                ..old(self)@
            }),
            old(self).wf() ==> final(self).wf(),
    {
        self.input_system.on_key_event(key);
    }

    /// Handles input events oldest first: toggles the trail or marker,
    /// stops the session on quit, and hands back the paddle moves asked
    /// for, in order.
    pub fn process_inputs(&mut self, events: Vec<InputEvent>) -> (nudges: Vec<PaddleNudge>)
        requires
            old(self).wf(),
        ensures
            final(self).wf(),
            final(self)@ == old(self)@.after_events(events@),
            nudges@ == nudges_for(events@),
    {
        let mut nudges: Vec<PaddleNudge> = Vec::new();
        let mut i: usize = 0;
        while i < events.len()
            invariant
                self.wf(),
                0 <= i <= events@.len(),
                self@ == old(self)@.after_events(events@.take(i as int)),
                nudges@ == nudges_for(events@.take(i as int)),
            decreases events@.len() - i,
        {
            let event = events[i];
            assert(events@.take(i as int + 1).drop_last() == events@.take(i as int));
            assert(events@.take(i as int + 1).last() == event);
            match event.action {
                InputAction::ToggleMarker => self.pong.toggle_marker(),
                InputAction::ToggleTrail => self.pong.toggle_trail(),
                InputAction::Quit => self.quit(),
                InputAction::LeftPlayerMoveUp => {
                    if event.state == InputActionState::Pressed {
                        nudges.push(PaddleNudge { side: PaddleSide::Left, delta: -1 });
                    }
                },
                InputAction::LeftPlayerMoveDown => {
                    if event.state == InputActionState::Pressed {
                        nudges.push(PaddleNudge { side: PaddleSide::Left, delta: 1 });
                    }
                },
                InputAction::RightPlayerMoveUp => {
                    if event.state == InputActionState::Pressed {
                        nudges.push(PaddleNudge { side: PaddleSide::Right, delta: -1 });
                    }
                },
                InputAction::RightPlayerMoveDown => {
                    if event.state == InputActionState::Pressed {
                        nudges.push(PaddleNudge { side: PaddleSide::Right, delta: 1 });
                    }
                },
            }
            i = i + 1;
        }
        assert(events@.take(events@.len() as int) == events@);
        nudges
    }

    /// Takes the pending input events and handles them as `process_inputs`
    /// does.
    pub fn update(&mut self) -> (nudges: Vec<PaddleNudge>)
        requires
            old(self).wf(),
        ensures
            final(self).wf(),
            final(self)@ == (AppView { events: Seq::empty(), ..old(self)@ }).after_events(
                old(self)@.events,
            ),
            nudges@ == nudges_for(old(self)@.events),
    {
        let events = self.input_system.drain_events();
        self.process_inputs(events)
    }

    /// The session's game.
    pub fn pong(&self) -> (g: &PongGame<P>)
        ensures
            g@ == self@.pong,
            self.wf() ==> g.wf(),
    {
        &self.pong
    }

    /// Gives mutable access to the session's game.
    pub fn pong_mut(&mut self) -> (g: &mut PongGame<P>)
        ensures
            g@ == old(self)@.pong,
            old(self).wf() ==> g.wf(),
            final(self)@ == (AppView { pong: final(g)@, ..old(self)@ }),
            final(g).wf() ==> final(self).wf(),
    {
        &mut self.pong
    }
}

} // verus!
