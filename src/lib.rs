//! A window that shows a QR code for a fixed address, with the address as a
//! label: the encoding of the code into a PNG image, the placement of both
//! images on the window, the order in which a frame draws them, and the
//! decision of the event loop to go on or stop.
use vstd::prelude::*;

pub mod encoder;
pub mod event_loop;
pub mod frame;
pub mod layout;

verus! {

/// The text that the QR code encodes and that the label shows.
pub const PAYLOAD: &'static str = "https://rustpad.io/yololo";

/// The title of the window.
pub const WINDOW_TITLE: &'static str = "rust-sdl2 demo";

/// The width and the height of the window, in pixels.
pub const WINDOW_SIZE: u32 = 600;

/// The font that the label is written in.
pub const FONT_PATH: &'static str = "/usr/share/fonts/TTF/DejaVuSans.ttf";

/// The size of the label's font, in points.
pub const FONT_POINT_SIZE: u16 = 48;

} // verus!
