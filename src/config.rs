use vstd::prelude::*;

verus! {

/// Width in pixels of the border drawn around every frame.
pub const BORDER_WIDTH: u32 = 3;

/// Border color of a frame that is neither focused nor marked.
pub const BORDER_COLOR: u64 = 0x222222;

/// Background color of a frame.
pub const BACKGROUND: u64 = 0x775555;

/// Border color of the focused frame.
pub const FOCUSED_BORDER_COLOR: u64 = 0xff0000;

/// Border color of a marked frame.
pub const MARKED_BORDER_COLOR: u64 = 0xffff00;

/// Pointer button grabbed on the root window for drag and resize.
pub const GRAB_BUTTON: u32 = 1;

/// Width and height of the area that the layouts tile.
pub const SCREEN_WIDTH: u32 = 800;

pub const SCREEN_HEIGHT: u32 = 600;

} // verus!
