use qrview::frame::{frame_commands, DrawCommand, Layer};
use qrview::layout::Placement;

#[test]
fn frame_clears_draws_code_then_label_then_presents() {
    let commands = frame_commands(600, 600, 400, 57);
    assert_eq!(
        commands,
        vec![
            DrawCommand::Clear,
            DrawCommand::Copy {
                layer: Layer::Code,
                source: Some(Placement { x: 0, y: 0, width: 600, height: 600 }),
                destination: Placement { x: 0, y: 0, width: 600, height: 600 },
            },
            DrawCommand::Copy {
                layer: Layer::Label,
                source: None,
                destination: Placement { x: 100, y: 0, width: 400, height: 57 },
            },
            DrawCommand::Present,
        ]
    );
}

#[test]
fn label_copy_comes_after_code_copy() {
    let commands = frame_commands(1024, 768, 900, 60);
    let position = |layer: Layer| {
        commands
            .iter()
            .position(|c| matches!(c, DrawCommand::Copy { layer: l, .. } if *l == layer))
            .unwrap()
    };
    assert!(position(Layer::Code) < position(Layer::Label));
}

