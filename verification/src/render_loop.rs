//! The render loop as a state machine.
//!
//! The platform delivers events one at a time. [`handle_event`] decides what
//! each one means in the current state and names the action to perform; the
//! caller performs it. [`run`] drives the machine over a recorded sequence of
//! events, which is how the loop is exercised without a window.

use vstd::prelude::*;
use crate::error::{FatalError, FrameError};
use crate::frame::{DrawCall, FrameState};

verus! {

/// The exit code of a run that ended with a close request.
pub const EXIT_CLOSED: i32 = 0;

/// The exit code of a run that ended because its setup failed.
pub const EXIT_FATAL: i32 = 1;

/// What the platform reports.
#[derive(Clone, Copy, Debug, PartialEq, Eq, Structural)]
pub enum Event {
    /// The loop has started: the one-time setup is due.
    Init,
    /// The window has the given width and height from now on.
    Resized(u32, u32),
    /// The user asked to close the window.
    CloseRequested,
    /// Any other turn of the loop: a frame is due.
    Tick,
}

/// Where the loop stands.
#[derive(Clone, Copy, Debug)]
pub enum State {
    /// Nothing has been set up yet.
    Uninitialized,
    /// The context and the resources exist; frames are drawn.
    Ready(FrameState),
    /// The run has ended.
    Closed,
}

/// What the caller is to do after an event.
#[derive(Clone, Copy, Debug)]
pub enum Action {
    /// Nothing.
    Idle,
    /// Set up the context and the resources, then report with
    /// [`finish_setup`].
    Setup,
    /// Issue the draw call, ask for another redraw and present the frame.
    Draw(DrawCall),
    /// End the process with the given exit code.
    Exit(i32),
}

/// What a run over a sequence of events has done.
#[derive(Debug)]
pub struct RunReport {
    /// The state after the last event.
    pub state: State,
    /// The draw calls that were issued, in order.
    pub frames: Vec<DrawCall>,
    /// The exit code, once the run has ended.
    pub exit_code: Option<i32>,
}

/// A [`RunReport`] in specifications.
pub struct Trace {
    pub state: State,
    pub frames: Seq<DrawCall>,
    pub exit_code: Option<i32>,
}

impl State {
    /// A ready state holds a well-formed frame state.
    pub open spec fn wf(self) -> bool {
        self matches State::Ready(frame) ==> frame.wf()
    }
}

/// The state that follows `state` on `event`.
pub open spec fn next_state(state: State, event: Event) -> State {
    match state {
        State::Closed => State::Closed,
        State::Uninitialized => match event {
            Event::CloseRequested => State::Closed,
            _ => State::Uninitialized,
        },
        State::Ready(frame) => match event {
            Event::CloseRequested => State::Closed,
            Event::Resized(w, h) => State::Ready(frame.spec_resized(w, h)),
            Event::Tick => State::Ready(frame.spec_redrawn()),
            Event::Init => State::Ready(frame),
        },
    }
}

/// The action that `event` asks for in `state`.
pub open spec fn action_for(state: State, event: Event) -> Action {
    match state {
        State::Closed => Action::Idle,
        State::Uninitialized => match event {
            Event::CloseRequested => Action::Exit(EXIT_CLOSED),
            Event::Init => Action::Setup,
            _ => Action::Idle,
        },
        State::Ready(frame) => match event {
            Event::CloseRequested => Action::Exit(EXIT_CLOSED),
            Event::Tick => Action::Draw(
                DrawCall::spec_for_window(frame.window_width, frame.window_height),
            ),
            _ => Action::Idle,
        },
    }
}

/// The state after the setup that was asked for has ended with `outcome`: the
/// window's first size on success.
pub open spec fn state_after_setup(state: State, outcome: Result<(u32, u32), FatalError>) -> State {
    match state {
        State::Uninitialized => match outcome {
            Ok(size) => State::Ready(FrameState::spec_new(size.0, size.1)),
            Err(_) => State::Closed,
        },
        _ => state,
    }
}

/// The action after the setup has ended with `outcome`.
pub open spec fn action_after_setup(state: State, outcome: Result<(u32, u32), FatalError>) -> Action {
    match state {
        State::Uninitialized => match outcome {
            Ok(_) => Action::Idle,
            Err(_) => Action::Exit(EXIT_FATAL),
        },
        _ => Action::Idle,
    }
}

/// Decides what `event` means in `state`.
///
/// A close request ends the run with exit code zero, whatever the state. The
/// first `Init` asks for the setup. Once ready, a new size is recorded, and
/// every tick draws one frame with the block for the window's latest size.
/// Nothing happens after the run has ended.
pub fn handle_event(state: State, event: Event) -> (r: (State, Action))
    requires
        state.wf(),
    ensures
        r.0 == next_state(state, event),
        r.1 == action_for(state, event),
        r.0.wf(),
{
    match state {
        State::Closed => (State::Closed, Action::Idle),
        State::Uninitialized => match event {
            Event::CloseRequested => (State::Closed, Action::Exit(EXIT_CLOSED)),
            Event::Init => (State::Uninitialized, Action::Setup),
            _ => (State::Uninitialized, Action::Idle),
        },
        State::Ready(frame) => match event {
            Event::CloseRequested => (State::Closed, Action::Exit(EXIT_CLOSED)),
            Event::Resized(w, h) => {
                let mut frame = frame;
                frame.resized(w, h);
                (State::Ready(frame), Action::Idle)
            },
            Event::Tick => {
                let mut frame = frame;
                let call = frame.redraw();
                (State::Ready(frame), Action::Draw(call))
            },
            Event::Init => (State::Ready(frame), Action::Idle),
        },
    }
}

/// Records how the setup has ended. On success the loop is ready, with the
/// block for the window's first size; a failure is fatal and ends the run with
/// a nonzero exit code. In any state but the first, nothing changes.
pub fn finish_setup(state: State, outcome: Result<(u32, u32), FatalError>) -> (r: (State, Action))
    requires
        state.wf(),
    ensures
        r.0 == state_after_setup(state, outcome),
        r.1 == action_after_setup(state, outcome),
        r.0.wf(),
{
    match state {
        State::Uninitialized => match outcome {
            Ok(size) => (State::Ready(FrameState::new(size.0, size.1)), Action::Idle),
            Err(_) => (State::Closed, Action::Exit(EXIT_FATAL)),
        },
        _ => (state, Action::Idle),
    }
}

/// Records how a frame has ended. A failed draw call or a failed present is
/// the caller's to log; the loop goes on with the next tick in the same state.
pub fn frame_finished(state: State, outcome: Result<(), FrameError>) -> (r: State)
    ensures
        r == state,
{
    state
}

/// The trace after one more event, the setup ending with `outcome` when it is
/// asked for.
pub open spec fn trace_step(
    trace: Trace,
    event: Event,
    outcome: Result<(u32, u32), FatalError>,
) -> Trace {
    match action_for(trace.state, event) {
        Action::Idle => Trace { state: next_state(trace.state, event), ..trace },
        Action::Setup => Trace {
            state: state_after_setup(next_state(trace.state, event), outcome),
            frames: trace.frames,
            exit_code: match action_after_setup(next_state(trace.state, event), outcome) {
                Action::Exit(code) => Some(code),
                _ => trace.exit_code,
            },
        },
        Action::Draw(call) => Trace {
            state: next_state(trace.state, event),
            frames: trace.frames.push(call),
            exit_code: trace.exit_code,
        },
        Action::Exit(code) => Trace {
            state: next_state(trace.state, event),
            frames: trace.frames,
            exit_code: Some(code),
        },
    }
}

/// The trace of the first `n` events, starting uninitialized.
pub open spec fn trace_of(
    events: Seq<Event>,
    outcome: Result<(u32, u32), FatalError>,
    n: nat,
) -> Trace
    decreases n,
{
    if n == 0 {
        Trace { state: State::Uninitialized, frames: Seq::empty(), exit_code: None }
    } else {
        trace_step(trace_of(events, outcome, (n - 1) as nat), events[n - 1], outcome)
    }
}

/// Runs the loop over `events`, from the uninitialized state. The setup, when
/// it is asked for, ends with `setup_outcome`: the window's first size, or the
/// error that made it fail.
pub fn run(events: &Vec<Event>, setup_outcome: Result<(u32, u32), FatalError>) -> (r: RunReport)
    ensures
        r.state == trace_of(events@, setup_outcome, events@.len()).state,
        r.frames@ == trace_of(events@, setup_outcome, events@.len()).frames,
        r.exit_code == trace_of(events@, setup_outcome, events@.len()).exit_code,
{
    let mut state = State::Uninitialized;
    let mut frames: Vec<DrawCall> = Vec::new();
    let mut exit_code: Option<i32> = None;
    let mut k: usize = 0;
    while k < events.len()
        invariant
            k <= events@.len(),
            state.wf(),
            state == trace_of(events@, setup_outcome, k as nat).state,
            frames@ == trace_of(events@, setup_outcome, k as nat).frames,
            exit_code == trace_of(events@, setup_outcome, k as nat).exit_code,
        decreases events@.len() - k,
    {
        let (next, action) = handle_event(state, events[k]);
        state = next;
        match action {
            Action::Idle => {},
            Action::Setup => {
                let (after, then) = finish_setup(state, setup_outcome);
                state = after;
                if let Action::Exit(code) = then {
                    exit_code = Some(code);
                }
            },
            Action::Draw(call) => {
                frames.push(call);
            },
            Action::Exit(code) => {
                exit_code = Some(code);
            },
        }
        k = k + 1;
    }
    RunReport { state, frames, exit_code }
}

/// Nothing follows the end of a run: a closed loop stays closed and asks for
/// nothing.
pub proof fn lemma_closed_is_final(event: Event)
    ensures
        next_state(State::Closed, event) == State::Closed,
        action_for(State::Closed, event) == Action::Idle,
{
}

/// A close request ends the run with exit code zero, whatever the state
/// before it, unless the run has ended already.
pub proof fn lemma_close_request_ends_the_run(state: State)
    ensures
        next_state(state, Event::CloseRequested) == State::Closed,
        !(state is Closed) ==> action_for(state, Event::CloseRequested) == Action::Exit(
            EXIT_CLOSED,
        ),
{
}

/// The states of a trace are well formed.
pub proof fn lemma_trace_is_well_formed(
    events: Seq<Event>,
    outcome: Result<(u32, u32), FatalError>,
    n: nat,
)
    requires
        n <= events.len(),
    ensures
        trace_of(events, outcome, n).state.wf(),
    decreases n,
{
    if n > 0 {
        lemma_trace_is_well_formed(events, outcome, (n - 1) as nat);
    }
}

/// A run whose setup fails draws no frame and is never ready, whatever the
/// events are.
pub proof fn lemma_failed_setup_draws_nothing(
    events: Seq<Event>,
    outcome: Result<(u32, u32), FatalError>,
    n: nat,
)
    requires
        outcome is Err,
        n <= events.len(),
    ensures
        trace_of(events, outcome, n).frames.len() == 0,
        !(trace_of(events, outcome, n).state is Ready),
    decreases n,
{
    if n > 0 {
        lemma_failed_setup_draws_nothing(events, outcome, (n - 1) as nat);
    }
}

/// A run that begins with `Init` and whose setup fails has ended after that
/// event, with a nonzero exit code that no later event changes.
pub proof fn lemma_failed_setup_is_fatal(
    events: Seq<Event>,
    outcome: Result<(u32, u32), FatalError>,
    n: nat,
)
    requires
        outcome is Err,
        1 <= n <= events.len(),
        events[0] == Event::Init,
    ensures
        trace_of(events, outcome, n).state is Closed,
        trace_of(events, outcome, n).exit_code == Some(EXIT_FATAL),
        EXIT_FATAL != 0,
    decreases n,
{
    if n > 1 {
        lemma_failed_setup_is_fatal(events, outcome, (n - 1) as nat);
    } else {
        reveal_with_fuel(trace_of, 2);
    }
}

/// Every frame of a run is drawn with the block for the size the window had
/// when the frame began: a tick in a ready state appends the draw call for the
/// latest size, and nothing else appends a frame.
pub proof fn lemma_frames_follow_the_window(
    trace: Trace,
    event: Event,
    outcome: Result<(u32, u32), FatalError>,
)
    ensures
        trace.state matches State::Ready(frame) ==> trace_step(trace, Event::Tick, outcome).frames
            == trace.frames.push(
            DrawCall::spec_for_window(frame.window_width, frame.window_height),
        ),
        !(trace.state is Ready && event == Event::Tick) ==> trace_step(trace, event, outcome).frames
            == trace.frames,
{
}

/// A window that opens with one size, is resized and is given its first size
/// again is drawn three times; the third frame has the block of the first.
pub proof fn lemma_resize_scenario(w1: u32, h1: u32, w2: u32, h2: u32)
    ensures
        ({
            let events = seq![
                Event::Init,
                Event::Tick,
                Event::Resized(w2, h2),
                Event::Tick,
                Event::Resized(w1, h1),
                Event::Tick,
            ];
            let trace = trace_of(events, Ok((w1, h1)), 6);
            &&& trace.frames.len() == 3
            &&& trace.frames[0] == DrawCall::spec_for_window(w1, h1)
            &&& trace.frames[1] == DrawCall::spec_for_window(w2, h2)
            &&& trace.frames[2] == trace.frames[0]
        }),
{
    reveal_with_fuel(trace_of, 7);
}

} // verus!
