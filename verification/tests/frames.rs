use shader::color::Color;
use shader::config::CandidateConfig;
use shader::context::setup;
use shader::config::ApiKind;
use shader::error::{FatalError, FrameError, ResourceError, SetupError};
use shader::frame::{DrawCall, FrameState};
use shader::geometry::PrimitiveMode;
use shader::render_loop::{
    finish_setup, frame_finished, handle_event, run, Action, Event, State, EXIT_CLOSED, EXIT_FATAL,
};
use shader::stages::App;

fn size_of(block: &App) -> (i128, i128, i128, i128) {
    (
        block.window_size.x.numerator(),
        block.window_size.x.denominator(),
        block.window_size.y.numerator(),
        block.window_size.y.denominator(),
    )
}

fn is_call_for(call: &DrawCall, width: u32, height: u32) -> bool {
    size_of(&call.uniforms) == (width as i128, 1, height as i128, 1)
        && call.vertex_count == 6
        && call.mode == PrimitiveMode::Triangles
        && call.clear_color == Color::new(255, 255, 255, 255)
}

#[test]
fn block_holds_the_window_size() {
    assert_eq!(size_of(&App::for_window(800, 600)), (800, 1, 600, 1));
    assert_eq!(size_of(&App::for_window(0, 0)), (0, 1, 0, 1));
    assert_eq!(
        size_of(&App::for_window(u32::MAX, 16_777_217)),
        (4_294_967_295, 1, 16_777_217, 1)
    );
}

#[test]
fn new_frame_state_has_its_block_built() {
    let f = FrameState::new(800, 600);
    assert_eq!((f.window_width, f.window_height), (800, 600));
    assert_eq!((f.uniform_width, f.uniform_height), (800, 600));
    assert_eq!(size_of(&f.uniforms), (800, 1, 600, 1));
}

#[test]
fn resize_leaves_the_block_until_the_next_frame() {
    let mut f = FrameState::new(800, 600);
    f.resized(400, 300);
    assert_eq!((f.window_width, f.window_height), (400, 300));
    assert_eq!((f.uniform_width, f.uniform_height), (800, 600));
    assert_eq!(size_of(&f.uniforms), (800, 1, 600, 1));
    let call = f.redraw();
    assert!(is_call_for(&call, 400, 300));
    assert_eq!((f.uniform_width, f.uniform_height), (400, 300));
    assert_eq!(size_of(&f.uniforms), (400, 1, 300, 1));
}

#[test]
fn redraw_uses_the_latest_of_several_sizes() {
    let mut f = FrameState::new(800, 600);
    f.resized(1, 2);
    f.resized(3, 4);
    f.resized(1024, 768);
    assert!(is_call_for(&f.redraw(), 1024, 768));
    assert!(is_call_for(&f.redraw(), 1024, 768));
}

#[test]
fn resize_round_trip_restores_the_first_block() {
    let mut f = FrameState::new(800, 600);
    let first = f.redraw();
    f.resized(400, 300);
    let second = f.redraw();
    f.resized(800, 600);
    let third = f.redraw();
    assert!(is_call_for(&first, 800, 600));
    assert!(is_call_for(&second, 400, 300));
    assert!(is_call_for(&third, 800, 600));
    assert_eq!(size_of(&third.uniforms), size_of(&first.uniforms));
    assert_ne!(size_of(&second.uniforms), size_of(&first.uniforms));
}

#[test]
fn resize_events_round_trip_through_the_loop() {
    let events = vec![
        Event::Init,
        Event::Tick,
        Event::Resized(400, 300),
        Event::Tick,
        Event::Resized(800, 600),
        Event::Tick,
    ];
    let report = run(&events, Ok((800, 600)));
    assert_eq!(report.frames.len(), 3);
    assert!(is_call_for(&report.frames[0], 800, 600));
    assert!(is_call_for(&report.frames[1], 400, 300));
    assert!(is_call_for(&report.frames[2], 800, 600));
    assert_eq!(size_of(&report.frames[2].uniforms), size_of(&report.frames[0].uniforms));
    assert_eq!(report.exit_code, None);
    assert!(matches!(report.state, State::Ready(_)));
}

#[test]
fn empty_candidate_list_is_fatal() {
    let candidates: Vec<CandidateConfig> = Vec::new();
    let failure = setup(&candidates, ApiKind::OpenGl).unwrap_err();
    assert_eq!(failure, SetupError::NoSuitableConfig);
    let events = vec![Event::Init, Event::Tick, Event::Resized(10, 10), Event::Tick];
    let report = run(&events, Err(FatalError::Setup(failure)));
    assert!(report.frames.is_empty());
    assert_eq!(report.exit_code, Some(EXIT_FATAL));
    assert_ne!(report.exit_code, Some(0));
    assert!(matches!(report.state, State::Closed));
}

#[test]
fn failed_resources_are_fatal() {
    let events = vec![Event::Init, Event::Tick, Event::CloseRequested];
    let report = run(&events, Err(FatalError::Resource(ResourceError::UnsupportedImageFormat)));
    assert!(report.frames.is_empty());
    assert_eq!(report.exit_code, Some(1));
    assert!(matches!(report.state, State::Closed));
}

#[test]
fn close_request_ends_the_run_with_exit_code_zero() {
    let events = vec![Event::Init, Event::Tick, Event::CloseRequested, Event::Tick, Event::Tick];
    let report = run(&events, Ok((640, 480)));
    assert_eq!(report.frames.len(), 1);
    assert_eq!(report.exit_code, Some(EXIT_CLOSED));
    assert_eq!(EXIT_CLOSED, 0);
    assert!(matches!(report.state, State::Closed));
}

#[test]
fn close_request_before_init_ends_the_run() {
    let report = run(&vec![Event::CloseRequested, Event::Init, Event::Tick], Ok((640, 480)));
    assert!(report.frames.is_empty());
    assert_eq!(report.exit_code, Some(0));
    assert!(matches!(report.state, State::Closed));
}

#[test]
fn nothing_is_drawn_before_init() {
    let report = run(&vec![Event::Tick, Event::Resized(5, 5), Event::Tick], Ok((640, 480)));
    assert!(report.frames.is_empty());
    assert_eq!(report.exit_code, None);
    assert!(matches!(report.state, State::Uninitialized));
}

#[test]
fn every_tick_draws_one_frame() {
    let events = vec![Event::Init, Event::Tick, Event::Tick, Event::Tick, Event::Init, Event::Tick];
    let report = run(&events, Ok((640, 480)));
    assert_eq!(report.frames.len(), 4);
    for call in &report.frames {
        assert!(is_call_for(call, 640, 480));
    }
}

#[test]
fn empty_run_stays_uninitialized() {
    let report = run(&Vec::new(), Ok((1, 1)));
    assert!(report.frames.is_empty());
    assert_eq!(report.exit_code, None);
    assert!(matches!(report.state, State::Uninitialized));
}

#[test]
fn init_asks_for_the_setup() {
    let (state, action) = handle_event(State::Uninitialized, Event::Init);
    assert!(matches!(state, State::Uninitialized));
    assert!(matches!(action, Action::Setup));
    let (state, action) = finish_setup(state, Ok((320, 200)));
    assert!(matches!(action, Action::Idle));
    match state {
        State::Ready(f) => {
            assert_eq!((f.window_width, f.window_height), (320, 200));
            assert_eq!(size_of(&f.uniforms), (320, 1, 200, 1));
        }
        _ => panic!("the loop is not ready"),
    }
}

#[test]
fn failed_setup_closes_the_loop() {
    let failure = FatalError::Setup(SetupError::MakeCurrentFailed);
    let (state, action) = finish_setup(State::Uninitialized, Err(failure));
    assert!(matches!(state, State::Closed));
    assert!(matches!(action, Action::Exit(1)));
}

#[test]
fn setup_report_changes_nothing_once_ready_or_closed() {
    let ready = State::Ready(FrameState::new(7, 9));
    let (state, action) = finish_setup(ready, Ok((1, 1)));
    assert!(matches!(action, Action::Idle));
    assert!(matches!(state, State::Ready(f) if (f.window_width, f.window_height) == (7, 9)));
    let (state, action) =
        finish_setup(ready, Err(FatalError::Setup(SetupError::NoSuitableConfig)));
    assert!(matches!(action, Action::Idle));
    assert!(matches!(state, State::Ready(_)));
    let (state, action) = finish_setup(State::Closed, Ok((1, 1)));
    assert!(matches!(action, Action::Idle));
    assert!(matches!(state, State::Closed));
}

#[test]
fn tick_in_a_ready_loop_draws() {
    let (state, action) = handle_event(State::Ready(FrameState::new(7, 9)), Event::Tick);
    assert!(matches!(state, State::Ready(_)));
    match action {
        Action::Draw(call) => assert!(is_call_for(&call, 7, 9)),
        _ => panic!("no frame was drawn"),
    }
}

#[test]
fn resized_event_is_recorded_without_drawing() {
    let (state, action) =
        handle_event(State::Ready(FrameState::new(7, 9)), Event::Resized(70, 90));
    assert!(matches!(action, Action::Idle));
    match state {
        State::Ready(f) => {
            assert_eq!((f.window_width, f.window_height), (70, 90));
            assert_eq!((f.uniform_width, f.uniform_height), (7, 9));
        }
        _ => panic!("the loop is not ready"),
    }
}

#[test]
fn closed_loop_ignores_every_event() {
    for event in [Event::Init, Event::Tick, Event::Resized(1, 1), Event::CloseRequested] {
        let (state, action) = handle_event(State::Closed, event);
        assert!(matches!(state, State::Closed));
        assert!(matches!(action, Action::Idle));
    }
}

#[test]
fn close_request_exits_from_every_open_state() {
    for state in [State::Uninitialized, State::Ready(FrameState::new(2, 2))] {
        let (state, action) = handle_event(state, Event::CloseRequested);
        assert!(matches!(state, State::Closed));
        assert!(matches!(action, Action::Exit(0)));
    }
}

#[test]
fn failed_frame_does_not_stop_the_loop() {
    let ready = State::Ready(FrameState::new(7, 9));
    for outcome in [Ok(()), Err(FrameError::RedrawFailed), Err(FrameError::PresentFailed)] {
        let state = frame_finished(ready, outcome);
        match state {
            State::Ready(f) => assert_eq!((f.window_width, f.window_height), (7, 9)),
            _ => panic!("the loop is not ready"),
        }
        let (_, action) = handle_event(state, Event::Tick);
        assert!(matches!(action, Action::Draw(_)));
    }
}
