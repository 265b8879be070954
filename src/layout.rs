//! Where the two images stand on the window.
use vstd::prelude::*;

verus! {

/// A rectangle in pixels: its top-left corner and its size.
#[derive(Clone, Copy, Debug, PartialEq, Eq, Structural)]
pub struct Placement {
    pub x: i32,
    pub y: i32,
    pub width: u32,
    pub height: u32,
}

/// The side of the square taken from the code's image and drawn on the window.
pub const SPRITE_SIZE: u32 = 600;

/// The horizontal position, from the window's left edge, of the label's center.
pub const LABEL_ANCHOR_X: i32 = 300;

impl Placement {
    /// The column of the rectangle's center (half the width rounded down).
    pub open spec fn center_x(self) -> int {
        self.x + self.width / 2
    }

    /// The row of the rectangle's center (half the height rounded down).
    pub open spec fn center_y(self) -> int {
        self.y + self.height / 2
    }
}

/// The rectangle of the given size whose center is (cx, cy).
pub open spec fn centered(cx: int, cy: int, width: u32, height: u32) -> Placement {
    Placement { x: (cx - width / 2) as i32, y: (cy - height / 2) as i32, width, height }
}

/// The part of the code's image that is drawn: a square at its origin.
pub open spec fn sprite_spec() -> Placement {
    Placement { x: 0, y: 0, width: SPRITE_SIZE, height: SPRITE_SIZE }
}

/// Where the code's square goes on a window of the given size: centered on it.
pub open spec fn code_destination_spec(window_width: u32, window_height: u32) -> Placement {
    centered(window_width as int / 2, window_height as int / 2, SPRITE_SIZE, SPRITE_SIZE)
}

/// Where the label of the given size goes: centered on the fixed anchor
/// column and on half its own height, whatever the window.
pub open spec fn label_destination_spec(label_width: u32, label_height: u32) -> Placement {
    centered(LABEL_ANCHOR_X as int, label_height as int / 2, label_width, label_height)
}

/// The rectangle of the given size centered on (cx, cy).
pub fn centered_on(cx: i32, cy: i32, width: u32, height: u32) -> (r: Placement)
    requires
        cx - width / 2 >= i32::MIN,
        cy - height / 2 >= i32::MIN,
    ensures
        r == centered(cx as int, cy as int, width, height),
        r.center_x() == cx,
        r.center_y() == cy,
{
    let half_w: i32 = (width / 2) as i32;
    let half_h: i32 = (height / 2) as i32;
    Placement { x: cx - half_w, y: cy - half_h, width, height }
}

/// The part of the code's image that each frame draws.
pub fn sprite() -> (r: Placement)
    ensures
        r == sprite_spec(),
{
    Placement { x: 0, y: 0, width: SPRITE_SIZE, height: SPRITE_SIZE }
}

/// Where the code's square goes on a window of the given size.
pub fn code_destination(window_width: u32, window_height: u32) -> (r: Placement)
    ensures
        r == code_destination_spec(window_width, window_height),
{
    let cx: i32 = (window_width / 2) as i32;
    let cy: i32 = (window_height / 2) as i32;
    centered_on(cx, cy, SPRITE_SIZE, SPRITE_SIZE)
}

/// Where the label of the given size goes.
pub fn label_destination(label_width: u32, label_height: u32) -> (r: Placement)
    ensures
        r == label_destination_spec(label_width, label_height),
{
    let cy: i32 = (label_height / 2) as i32;
    centered_on(LABEL_ANCHOR_X, cy, label_width, label_height)
}

/// On a window at least as large as the code's square, the code's rectangle
/// has the window's center for its own, whatever the window's size; the
/// label's rectangle has its center on the fixed anchor column and at half
/// the label's own height, and does not depend on the window at all.
pub proof fn lemma_layout_centered(
    window_width: u32,
    window_height: u32,
    label_width: u32,
    label_height: u32,
)
    requires
        window_width >= SPRITE_SIZE,
        window_height >= SPRITE_SIZE,
    ensures
        code_destination_spec(window_width, window_height).center_x() == window_width / 2,
        code_destination_spec(window_width, window_height).center_y() == window_height / 2,
        code_destination_spec(window_width, window_height).width == SPRITE_SIZE,
        code_destination_spec(window_width, window_height).height == SPRITE_SIZE,
        label_destination_spec(label_width, label_height).center_x() == LABEL_ANCHOR_X,
        label_destination_spec(label_width, label_height).center_y() == label_height / 2,
        label_destination_spec(label_width, label_height).width == label_width,
        label_destination_spec(label_width, label_height).height == label_height,
{
}

} // verus!
