use vstd::prelude::*;

verus! {

/// Event mask bit: pointer button pressed.
pub const BUTTON_PRESS_MASK: u32 = 0x4;

/// Event mask bit: pointer button released.
pub const BUTTON_RELEASE_MASK: u32 = 0x8;

/// Event mask bit: pointer moved.
pub const POINTER_MOTION_MASK: u32 = 0x40;

/// Grab mode in which event processing goes on while the grab is active.
pub const GRAB_MODE_ASYNC: i32 = 1;

/// A server-assigned identifier of a client window or of a frame.
pub type WindowID = u64;

/// The geometry and stacking fields of a configure request, replayed to the server.
#[derive(Clone, Copy, Debug, PartialEq, Eq)]
pub struct WindowChanges {
    pub x: i32,
    pub y: i32,
    pub width: i32,
    pub height: i32,
    pub border_width: i32,
    pub sibling: WindowID,
    pub stack_mode: i32,
}

/// One primitive operation that the manager asks of the display session.
///
/// Every operation but `CreateFrame` is fire-and-forget. `CreateFrame` yields the new
/// frame's identifier, which the session hands back to
/// `WindowManager::on_frame_created` together with `client`.
#[derive(Clone, Copy, Debug, PartialEq, Eq)]
pub enum Request {
    CreateFrame {
        client: WindowID,
        parent: WindowID,
        x: i32,
        y: i32,
        width: u32,
        height: u32,
        border_width: u32,
        border: u64,
        background: u64,
    },
    SelectInput(WindowID),
    AddToSaveSet(WindowID),
    RemoveFromSaveSet(WindowID),
    ReparentWindow { window: WindowID, parent: WindowID, x: i32, y: i32 },
    MapWindow(WindowID),
    UnmapWindow(WindowID),
    DestroyWindow(WindowID),
    MoveWindow { window: WindowID, x: i32, y: i32 },
    ResizeWindow { window: WindowID, width: u32, height: u32 },
    SetWindowBorder { window: WindowID, color: u64 },
    ConfigureWindow { window: WindowID, value_mask: u64, changes: WindowChanges },
    /// A passive grab of `button` on `window`. `confine_to` and `cursor` are 0 for
    /// none.
    GrabButton {
        button: u32,
        modifiers: u32,
        window: WindowID,
        owner_events: bool,
        event_mask: u32,
        pointer_mode: i32,
        keyboard_mode: i32,
        confine_to: WindowID,
        cursor: u64,
    },
}

} // verus!
