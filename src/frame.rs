//! What one frame draws, and in which order.
use vstd::prelude::*;
use crate::layout::{
    code_destination,
    code_destination_spec,
    label_destination,
    label_destination_spec,
    sprite,
    sprite_spec,
    Placement,
};

verus! {

/// The two images that a frame draws.
#[derive(Clone, Copy, Debug, PartialEq, Eq, Structural)]
pub enum Layer {
    /// The QR code's image.
    Code,
    /// The label's image.
    Label,
}

/// One step of drawing a frame. A later copy lands on top of an earlier one.
#[derive(Clone, Copy, Debug, PartialEq, Eq, Structural)]
pub enum DrawCommand {
    /// Fill the whole window with the background color.
    Clear,
    /// Copy a part of an image (all of it for `None`) onto a rectangle of
    /// the window.
    Copy { layer: Layer, source: Option<Placement>, destination: Placement },
    /// Show the finished frame.
    Present,
}

impl DrawCommand {
    /// Whether this step copies the given image.
    pub open spec fn copies(self, layer: Layer) -> bool {
        self matches DrawCommand::Copy { layer: l, .. } && l == layer
    }
}

/// The steps of one frame on a window of the given size, with a label of the
/// given size: clear, the code's square centered on the window, the label,
/// show.
pub open spec fn frame_spec(
    window_width: u32,
    window_height: u32,
    label_width: u32,
    label_height: u32,
) -> Seq<DrawCommand> {
    seq![
        DrawCommand::Clear,
        DrawCommand::Copy {
            layer: Layer::Code,
            source: Some(sprite_spec()),
            destination: code_destination_spec(window_width, window_height),
        },
        DrawCommand::Copy {
            layer: Layer::Label,
            source: None,
            destination: label_destination_spec(label_width, label_height),
        },
        DrawCommand::Present,
    ]
}

/// The steps of one frame, in the order they are to be carried out.
pub fn frame_commands(window_width: u32, window_height: u32, label_width: u32, label_height: u32) -> (r: Vec<DrawCommand>)
    ensures
        r@ == frame_spec(window_width, window_height, label_width, label_height),
{
    let mut commands: Vec<DrawCommand> = Vec::new();
    commands.push(DrawCommand::Clear);
    commands.push(
        DrawCommand::Copy {
            layer: Layer::Code,
            source: Some(sprite()),
            destination: code_destination(window_width, window_height),
        },
    );
    commands.push(
        DrawCommand::Copy {
            layer: Layer::Label,
            source: None,
            destination: label_destination(label_width, label_height),
        },
    );
    commands.push(DrawCommand::Present);
    assert(commands@ =~= frame_spec(window_width, window_height, label_width, label_height));
    commands
}

/// A frame starts by clearing and ends by showing, copies each image exactly
/// once, and copies the label after the code, so that the label lies on top
/// where the two meet.
pub proof fn lemma_label_drawn_after_code(
    window_width: u32,
    window_height: u32,
    label_width: u32,
    label_height: u32,
)
    ensures
        ({
            let f = frame_spec(window_width, window_height, label_width, label_height);
            &&& f[0] == DrawCommand::Clear
            &&& f[f.len() - 1] == DrawCommand::Present
            &&& exists|i: int| 0 <= i < f.len() && f[i].copies(Layer::Code)
            &&& exists|j: int| 0 <= j < f.len() && f[j].copies(Layer::Label)
            &&& forall|i: int, j: int|
                0 <= i < f.len() && 0 <= j < f.len() && f[i].copies(Layer::Code) && f[j].copies(
                    Layer::Label,
                ) ==> i < j
            &&& forall|i: int, j: int|
                0 <= i < f.len() && 0 <= j < f.len() && f[i].copies(Layer::Code) && f[j].copies(
                    Layer::Code,
                ) ==> i == j
            &&& forall|i: int, j: int|
                0 <= i < f.len() && 0 <= j < f.len() && f[i].copies(Layer::Label) && f[j].copies(
                    Layer::Label,
                ) ==> i == j
        }),
{
    let f = frame_spec(window_width, window_height, label_width, label_height);
    assert(f[1].copies(Layer::Code));
    assert(f[2].copies(Layer::Label));
}

} // verus!
