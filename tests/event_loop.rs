use qrview::event_loop::{
    drain, is_stop, step, EventLoop, FrameAction, InputEvent, LoopState, ESCAPE_KEYCODE,
    FRAME_DELAY_NANOS,
};

const UP_KEYCODE: i32 = 1073741906;

#[test]
fn quit_stops_the_loop() {
    let mut l = EventLoop::new();
    assert_eq!(l.handle_events(&vec![InputEvent::Quit]), FrameAction::Exit);
    assert_eq!(l.state, LoopState::Stopped);
}

#[test]
fn escape_stops_the_loop() {
    let mut l = EventLoop::new();
    let action = l.handle_events(&vec![InputEvent::KeyDown(Some(ESCAPE_KEYCODE))]);
    assert_eq!(action, FrameAction::Exit);
    assert_eq!(l.state, LoopState::Stopped);
}

#[test]
fn other_events_render_one_frame() {
    for e in [InputEvent::KeyDown(Some(UP_KEYCODE)), InputEvent::KeyDown(None), InputEvent::Other] {
        let mut l = EventLoop::new();
        assert_eq!(l.handle_events(&vec![e]), FrameAction::Render);
        assert_eq!(l.state, LoopState::Running);
    }
}

#[test]
fn no_events_render_one_frame() {
    let mut l = EventLoop::new();
    assert_eq!(l.handle_events(&vec![]), FrameAction::Render);
}

#[test]
fn stop_anywhere_in_the_batch_stops() {
    let events = vec![InputEvent::Other, InputEvent::KeyDown(Some(UP_KEYCODE)), InputEvent::Quit, InputEvent::Other];
    assert_eq!(drain(LoopState::Running, &events), LoopState::Stopped);
}

#[test]
fn stopped_stays_stopped() {
    assert_eq!(drain(LoopState::Stopped, &vec![InputEvent::Other]), LoopState::Stopped);
    assert_eq!(step(LoopState::Stopped, &InputEvent::Other), LoopState::Stopped);
}

#[test]
fn step_and_is_stop_tell_events_apart() {
    assert!(is_stop(&InputEvent::Quit));
    assert!(is_stop(&InputEvent::KeyDown(Some(27))));
    assert!(!is_stop(&InputEvent::KeyDown(Some(28))));
    assert!(!is_stop(&InputEvent::KeyDown(None)));
    assert_eq!(step(LoopState::Running, &InputEvent::Other), LoopState::Running);
    assert_eq!(step(LoopState::Running, &InputEvent::Quit), LoopState::Stopped);
}

#[test]
fn frame_delay_is_a_sixtieth_of_a_second() {
    assert_eq!(FRAME_DELAY_NANOS, 16_666_666);
}
