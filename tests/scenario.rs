use qrview::encoder::encode;
use qrview::event_loop::{EventLoop, FrameAction, InputEvent, ESCAPE_KEYCODE};
use qrview::frame::{frame_commands, DrawCommand, Layer};
use qrview::{PAYLOAD, WINDOW_SIZE};

#[test]
fn payload_encodes_renders_and_exits_on_escape() {
    assert_eq!(PAYLOAD, "https://rustpad.io/yololo");
    let encoded = encode(PAYLOAD).unwrap();
    assert!(!encoded.png.is_empty());

    let mut l = EventLoop::new();
    assert_eq!(l.handle_events(&vec![]), FrameAction::Render);
    let frame = frame_commands(WINDOW_SIZE, WINDOW_SIZE, 560, 57);
    assert_eq!(frame.len(), 4);
    assert_eq!(frame[0], DrawCommand::Clear);
    assert!(matches!(frame[1], DrawCommand::Copy { layer: Layer::Code, .. }));
    assert!(matches!(frame[2], DrawCommand::Copy { layer: Layer::Label, .. }));
    assert_eq!(frame[3], DrawCommand::Present);

    assert_eq!(l.handle_events(&vec![InputEvent::KeyDown(Some(ESCAPE_KEYCODE))]), FrameAction::Exit);
}
