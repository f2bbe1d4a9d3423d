use vstd::prelude::*;

use crate::error::Error;
use crate::request::WindowID;

verus! {

/// Whether a window is mapped, and whether it is visible.
#[derive(Clone, Copy, Debug, PartialEq, Eq)]
pub enum MapState {
    Unmapped,
    Unviewable,
    Viewable,
}

/// The attributes of a window that the manager decides on.
#[derive(Clone, Copy, Debug, PartialEq, Eq)]
pub struct WindowAttributes {
    pub x: i32,
    pub y: i32,
    pub width: u32,
    pub height: u32,
    pub override_redirect: bool,
    pub map_state: MapState,
}

impl WindowAttributes {
    /// A window found at startup is framed when it did not opt out of management and
    /// is already on screen.
    pub open spec fn spec_manageable_at_scan(self) -> bool {
        !self.override_redirect && self.map_state == MapState::Viewable
    }

    pub fn manageable_at_scan(&self) -> (r: bool)
        ensures
            r == self.spec_manageable_at_scan(),
    {
        match self.map_state {
            MapState::Viewable => !self.override_redirect,
            _ => false,
        }
    }

    /// A window that asks to be mapped is framed when it did not opt out of management
    /// and is not on screen yet.
    pub open spec fn spec_manageable_on_map(self) -> bool {
        !self.override_redirect && self.map_state != MapState::Viewable
    }

    pub fn manageable_on_map(&self) -> (r: bool)
        ensures
            r == self.spec_manageable_on_map(),
    {
        match self.map_state {
            MapState::Viewable => false,
            _ => !self.override_redirect,
        }
    }
}

/// A client asks to change its geometry or stacking order.
#[derive(Clone, Copy, Debug, PartialEq, Eq)]
pub struct ConfigureRequestEvent {
    pub parent: WindowID,
    pub window: WindowID,
    pub x: i32,
    pub y: i32,
    pub width: i32,
    pub height: i32,
    pub border_width: i32,
    pub above: WindowID,
    pub detail: i32,
    pub value_mask: u64,
}

/// A client asks to be mapped. The session attaches the window's attributes, or the
/// error that querying them gave.
#[derive(Clone, Copy, Debug, PartialEq, Eq)]
pub struct MapRequestEvent {
    pub parent: WindowID,
    pub window: WindowID,
    pub attributes: Result<WindowAttributes, Error>,
}

/// `window` was unmapped; `event` is the window on which the notification was selected.
#[derive(Clone, Copy, Debug, PartialEq, Eq)]
pub struct UnmapEvent {
    pub event: WindowID,
    pub window: WindowID,
}

/// `window` was destroyed; `event` is the window on which the notification was selected.
#[derive(Clone, Copy, Debug, PartialEq, Eq)]
pub struct DestroyWindowEvent {
    pub event: WindowID,
    pub window: WindowID,
}

#[derive(Clone, Copy, Debug, PartialEq, Eq)]
pub struct CreateWindowEvent {
    pub parent: WindowID,
    pub window: WindowID,
}

#[derive(Clone, Copy, Debug, PartialEq, Eq)]
pub struct ReparentEvent {
    pub event: WindowID,
    pub window: WindowID,
    pub parent: WindowID,
}

/// A pointer button press or release, or pointer motion with a button held.
#[derive(Clone, Copy, Debug, PartialEq, Eq)]
pub struct ButtonEvent {
    pub window: WindowID,
    pub button: u32,
    pub x_root: i32,
    pub y_root: i32,
}

/// A display-server event in normalized form. Every kind that the manager does not
/// dispatch on is `Unknown`.
#[derive(Clone, Copy, Debug, PartialEq, Eq)]
pub enum Event {
    CreateNotify(CreateWindowEvent),
    ConfigureRequest(ConfigureRequestEvent),
    MapRequest(MapRequestEvent),
    DestroyNotify(DestroyWindowEvent),
    ReparentNotify(ReparentEvent),
    UnmapNotify(UnmapEvent),
    ButtonPress(ButtonEvent),
    ButtonRelease(ButtonEvent),
    MotionNotify(ButtonEvent),
    Unknown,
}

} // verus!
