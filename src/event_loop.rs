//! The decisions of the event loop: whether a frame is drawn or the program
//! stops.
use vstd::prelude::*;

verus! {

/// The key code of the Escape key.
pub const ESCAPE_KEYCODE: i32 = 27;

/// The pause between two frames, in nanoseconds: a sixtieth of a second.
pub const FRAME_DELAY_NANOS: u32 = 1_000_000_000 / 60;

/// What the window system reports, as far as the loop tells it apart.
#[derive(Clone, Copy, Debug, PartialEq, Eq, Structural)]
pub enum InputEvent {
    /// The window was closed, or the program asked to quit.
    Quit,
    /// A key was pressed; its key code, where it has one.
    KeyDown(Option<i32>),
    /// Anything else: a mouse move, a key let go, ...
    Other,
}

/// The two states of the loop. `Stopped` is final.
#[derive(Clone, Copy, Debug, PartialEq, Eq, Structural)]
pub enum LoopState {
    Running,
    Stopped,
}

/// What the loop does after taking in the pending events.
#[derive(Clone, Copy, Debug, PartialEq, Eq, Structural)]
pub enum FrameAction {
    /// Draw one frame, then wait for the next.
    Render,
    /// Leave the loop and end the program with success.
    Exit,
}

/// Whether an event ends the loop: a quit, or the Escape key pressed.
pub open spec fn is_stop_event(e: InputEvent) -> bool {
    e == InputEvent::Quit || e == InputEvent::KeyDown(Some(ESCAPE_KEYCODE))
}

/// The state after one event.
pub open spec fn step_spec(state: LoopState, e: InputEvent) -> LoopState {
    if is_stop_event(e) {
        LoopState::Stopped
    } else {
        state
    }
}

/// The state after the events in order: stopped where it was, or where any
/// of them ends the loop; running otherwise.
pub open spec fn drain_spec(state: LoopState, events: Seq<InputEvent>) -> LoopState {
    if state == LoopState::Stopped || exists|i: int| 0 <= i < events.len() && is_stop_event(events[i]) {
        LoopState::Stopped
    } else {
        LoopState::Running
    }
}

/// The action that a state asks for.
pub open spec fn action_spec(state: LoopState) -> FrameAction {
    match state {
        LoopState::Running => FrameAction::Render,
        LoopState::Stopped => FrameAction::Exit,
    }
}

/// Whether an event ends the loop.
pub fn is_stop(e: &InputEvent) -> (r: bool)
    ensures
        r == is_stop_event(*e),
{
    match e {
        InputEvent::Quit => true,
        InputEvent::KeyDown(Some(code)) => *code == ESCAPE_KEYCODE,
        _ => false,
    }
}

/// The state after one event: any other event than a stop leaves it as it is.
pub fn step(state: LoopState, e: &InputEvent) -> (r: LoopState)
    ensures
        r == step_spec(state, *e),
{
    if is_stop(e) {
        LoopState::Stopped
    } else {
        state
    }
}

/// The state after the pending events, taken in order; the events after the
/// first that stops the loop are not looked at.
pub fn drain(state: LoopState, events: &Vec<InputEvent>) -> (r: LoopState)
    ensures
        r == drain_spec(state, events@),
{
    if state == LoopState::Stopped {
        return LoopState::Stopped;
    }
    let mut i: usize = 0;
    while i < events.len()
        invariant
            i <= events@.len(),
            forall|k: int| 0 <= k < i ==> !is_stop_event(#[trigger] events@[k]),
        decreases events@.len() - i,
    {
        if step(LoopState::Running, &events[i]) == LoopState::Stopped {
            return LoopState::Stopped;
        }
        i = i + 1;
    }
    LoopState::Running
}

/// The event loop's state between frames.
#[derive(Clone, Copy, Debug, PartialEq, Eq, Structural)]
pub struct EventLoop {
    pub state: LoopState,
}

impl EventLoop {
    /// A loop that runs.
    pub fn new() -> (r: EventLoop)
        ensures
            r.state == LoopState::Running,
    {
        EventLoop { state: LoopState::Running }
    }

    /// Takes in the events that came since the last frame and says what to do
    /// next: exit once the loop has stopped, else draw exactly one frame.
    pub fn handle_events(&mut self, events: &Vec<InputEvent>) -> (action: FrameAction)
        ensures
            final(self).state == drain_spec(old(self).state, events@),
            action == action_spec(final(self).state),
    {
        self.state = drain(self.state, events);
        match self.state {
            LoopState::Running => FrameAction::Render,
            LoopState::Stopped => FrameAction::Exit,
        }
    }
}

/// A quit or an Escape key press stops a running loop within the iteration
/// that takes it in, and no frame is drawn after it; any other event leaves the
/// loop running and is followed by exactly one frame. Once stopped, the loop
/// stays stopped whatever comes.
pub proof fn lemma_loop_termination(e: InputEvent, later: Seq<InputEvent>)
    ensures
        is_stop_event(e) ==> drain_spec(LoopState::Running, seq![e]) == LoopState::Stopped
            && action_spec(drain_spec(LoopState::Running, seq![e])) == FrameAction::Exit,
        !is_stop_event(e) ==> drain_spec(LoopState::Running, seq![e]) == LoopState::Running
            && action_spec(drain_spec(LoopState::Running, seq![e])) == FrameAction::Render,
        drain_spec(LoopState::Stopped, later) == LoopState::Stopped,
{
    if is_stop_event(e) {
        assert(is_stop_event(seq![e][0]));
    } else {
        assert forall|i: int| 0 <= i < seq![e].len() implies !is_stop_event(seq![e][i]) by {
            assert(seq![e][i] == e);
        }
    }
}

} // verus!
