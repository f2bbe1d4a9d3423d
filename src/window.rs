use vstd::prelude::*;

use crate::config::{
    BACKGROUND, BORDER_COLOR, BORDER_WIDTH, FOCUSED_BORDER_COLOR, MARKED_BORDER_COLOR,
};
use crate::event::WindowAttributes;
use crate::request::{Request, WindowID};

verus! {

/// Identifier of a node that a layout arranges.
pub type NodeID = u64;

/// Something with an identity that the manager tracks.
pub trait Node {
    spec fn node_id(&self) -> NodeID;

    fn id(&self) -> (r: NodeID)
        ensures
            r == self.node_id(),
    ;

    fn is(&self, id: NodeID) -> (r: bool)
        ensures
            r == (self.node_id() == id),
    ;
}

#[derive(Clone, Copy, Debug, PartialEq, Eq)]
pub struct Position {
    pub x: i32,
    pub y: i32,
}

#[derive(Clone, Copy, Debug, PartialEq, Eq)]
pub struct Size {
    pub width: u32,
    pub height: u32,
}

/// The extent that a layout requests for one window, border included.
#[derive(Clone, Copy, Debug, PartialEq, Eq)]
pub struct Slot {
    pub x: i32,
    pub y: i32,
    pub width: u32,
    pub height: u32,
}

impl Slot {
    /// The same extent with the horizontal and vertical roles swapped.
    pub open spec fn transposed(self) -> Slot {
        Slot { x: self.y, y: self.x, width: self.height, height: self.width }
    }
}

/// What a managed window is: its client, its frame, and the state the manager keeps.
pub struct WindowView {
    pub id: WindowID,
    pub frame: WindowID,
    pub position: Position,
    pub size: Size,
    pub focused: bool,
    pub marked: bool,
}

/// The content extent of a frame given the extent requested for it: the borders on
/// both sides are taken off, and what is left is never below one pixel.
pub open spec fn net_of_border(requested: u32) -> u32 {
    if requested > 2 * BORDER_WIDTH {
        (requested - 2 * BORDER_WIDTH) as u32
    } else {
        1
    }
}

/// The request that creates the frame of client `id`, a top-level window where the
/// client stands now.
pub open spec fn create_frame_request(root: WindowID, id: WindowID, a: WindowAttributes) -> Request {
    Request::CreateFrame {
        client: id,
        parent: root,
        x: a.x,
        y: a.y,
        width: a.width,
        height: a.height,
        border_width: BORDER_WIDTH,
        border: BORDER_COLOR,
        background: BACKGROUND,
    }
}

/// The requests that put client `id` into the newly created `frame`, in order.
pub open spec fn framing_requests(id: WindowID, frame: WindowID) -> Seq<Request> {
    seq![
        Request::SelectInput(frame),
        Request::AddToSaveSet(id),
        Request::ReparentWindow { window: id, parent: frame, x: 0, y: 0 },
        Request::MapWindow(frame),
    ]
}

impl WindowView {
    /// A window just framed, with the geometry that its attributes give.
    pub open spec fn framed(id: WindowID, frame: WindowID, a: WindowAttributes) -> WindowView {
        WindowView {
            id,
            frame,
            position: Position { x: a.x, y: a.y },
            size: Size { width: a.width, height: a.height },
            focused: false,
            marked: false,
        }
    }

    pub open spec fn moved(self, x: i32, y: i32) -> WindowView {
        WindowView { position: Position { x, y }, ..self }
    }

    pub open spec fn resized(self, width: u32, height: u32) -> WindowView {
        WindowView {
            size: Size { width: net_of_border(width), height: net_of_border(height) },
            ..self
        }
    }

    /// The window after a layout gave it `s`: resized first, then moved.
    pub open spec fn placed(self, s: Slot) -> WindowView {
        self.resized(s.width, s.height).moved(s.x, s.y)
    }

    pub open spec fn move_requests(self, x: i32, y: i32) -> Seq<Request> {
        seq![Request::MoveWindow { window: self.frame, x, y }]
    }

    pub open spec fn resize_requests(self, width: u32, height: u32) -> Seq<Request> {
        let (w, h) = (net_of_border(width), net_of_border(height));
        seq![
            Request::ResizeWindow { window: self.frame, width: w, height: h },
            Request::ResizeWindow { window: self.id, width: w, height: h },
        ]
    }

    pub open spec fn placement_requests(self, s: Slot) -> Seq<Request> {
        self.resize_requests(s.width, s.height) + self.move_requests(s.x, s.y)
    }

    /// The requests that release the frame, in their fixed order: unmap the frame,
    /// hand the client back to the root, drop it from the save-set, destroy the frame.
    pub open spec fn teardown_requests(self, root: WindowID) -> Seq<Request> {
        seq![
            Request::UnmapWindow(self.frame),
            Request::ReparentWindow { window: self.id, parent: root, x: 0, y: 0 },
            Request::RemoveFromSaveSet(self.id),
            Request::DestroyWindow(self.frame),
        ]
    }

    pub open spec fn border_request(self, color: u64) -> Seq<Request> {
        seq![Request::SetWindowBorder { window: self.frame, color }]
    }
}

/// A client window wrapped in a decorative frame.
///
/// Every change of its state goes out as requests on the display session, appended
/// to the vector that the method is given.
pub struct Window {
    id: WindowID,
    frame: WindowID,
    position: Position,
    size: Size,
    focused: bool,
    marked: bool,
}

impl View for Window {
    type V = WindowView;

    closed spec fn view(&self) -> WindowView {
        WindowView {
            id: self.id,
            frame: self.frame,
            position: self.position,
            size: self.size,
            focused: self.focused,
            marked: self.marked,
        }
    }
}

impl Window {
    /// The request that creates the frame for client `id`. The session answers it with
    /// the frame's identifier, which `Window::new` takes.
    pub fn frame_request(root: WindowID, id: WindowID, attrs: &WindowAttributes) -> (r: Request)
        ensures
            r == create_frame_request(root, id, *attrs),
    {
        Request::CreateFrame {
            client: id,
            parent: root,
            x: attrs.x,
            y: attrs.y,
            width: attrs.width,
            height: attrs.height,
            border_width: BORDER_WIDTH,
            border: BORDER_COLOR,
            background: BACKGROUND,
        }
    }

    /// Wraps client `id` into `frame`, which the session created for it.
    pub fn new(id: WindowID, frame: WindowID, attrs: &WindowAttributes, out: &mut Vec<Request>) -> (r: Window)
        ensures
            r@ == WindowView::framed(id, frame, *attrs),
            final(out)@ == old(out)@ + framing_requests(id, frame),
    {
        out.push(Request::SelectInput(frame));
        out.push(Request::AddToSaveSet(id));
        out.push(Request::ReparentWindow { window: id, parent: frame, x: 0, y: 0 });
        out.push(Request::MapWindow(frame));
        assert(out@ =~= old(out)@ + framing_requests(id, frame));
        Window {
            id,
            frame,
            position: Position { x: attrs.x, y: attrs.y },
            size: Size { width: attrs.width, height: attrs.height },
            focused: false,
            marked: false,
        }
    }

    pub fn position(&self) -> (r: &Position)
        ensures
            *r == self@.position,
    {
        &self.position
    }

    pub fn size(&self) -> (r: &Size)
        ensures
            *r == self@.size,
    {
        &self.size
    }

    pub fn frame(&self) -> (r: WindowID)
        ensures
            r == self@.frame,
    {
        self.frame
    }

    pub fn is_focused(&self) -> (r: bool)
        ensures
            r == self@.focused,
    {
        self.focused
    }

    pub fn is_marked(&self) -> (r: bool)
        ensures
            r == self@.marked,
    {
        self.marked
    }

    /// Releases the frame: the client goes back to `root` and the frame is destroyed.
    /// The window is used up, so its frame is released at most once.
    pub fn unframe(self, root: WindowID, out: &mut Vec<Request>)
        ensures
            final(out)@ == old(out)@ + self@.teardown_requests(root),
    {
        out.push(Request::UnmapWindow(self.frame));
        out.push(Request::ReparentWindow { window: self.id, parent: root, x: 0, y: 0 });
        out.push(Request::RemoveFromSaveSet(self.id));
        out.push(Request::DestroyWindow(self.frame));
        assert(out@ =~= old(out)@ + self@.teardown_requests(root));
    }

    pub fn set_position(&mut self, x: i32, y: i32, out: &mut Vec<Request>)
        ensures
            final(self)@ == old(self)@.moved(x, y),
            final(out)@ == old(out)@ + old(self)@.move_requests(x, y),
    {
        self.position = Position { x, y };
        out.push(Request::MoveWindow { window: self.frame, x, y });
        assert(out@ =~= old(out)@ + old(self)@.move_requests(x, y));
    }

    /// Gives the frame the extent `width` by `height`, border included: frame and
    /// client are resized to what is left inside the border, and never below one pixel.
    pub fn set_size(&mut self, width: u32, height: u32, out: &mut Vec<Request>)
        ensures
            final(self)@ == old(self)@.resized(width, height),
            final(out)@ == old(out)@ + old(self)@.resize_requests(width, height),
            width <= 2 * BORDER_WIDTH ==> final(self)@.size.width == 1,
            height <= 2 * BORDER_WIDTH ==> final(self)@.size.height == 1,
            width > 2 * BORDER_WIDTH ==> final(self)@.size.width == width - 2 * BORDER_WIDTH,
            height > 2 * BORDER_WIDTH ==> final(self)@.size.height == height - 2 * BORDER_WIDTH,
    {
        let w: u32 = if width > 2 * BORDER_WIDTH { width - 2 * BORDER_WIDTH } else { 1 };
        let h: u32 = if height > 2 * BORDER_WIDTH { height - 2 * BORDER_WIDTH } else { 1 };
        self.size = Size { width: w, height: h };
        out.push(Request::ResizeWindow { window: self.frame, width: w, height: h });
        out.push(Request::ResizeWindow { window: self.id, width: w, height: h });
        assert(out@ =~= old(out)@ + old(self)@.resize_requests(width, height));
    }

    pub fn focus(&mut self, out: &mut Vec<Request>)
        ensures
            final(self)@ == (WindowView { focused: true, ..old(self)@ }),
            final(out)@ == old(out)@ + old(self)@.border_request(FOCUSED_BORDER_COLOR),
    {
        self.focused = true;
        out.push(Request::SetWindowBorder { window: self.frame, color: FOCUSED_BORDER_COLOR });
        assert(out@ =~= old(out)@ + old(self)@.border_request(FOCUSED_BORDER_COLOR));
    }

    pub fn unfocus(&mut self, out: &mut Vec<Request>)
        ensures
            final(self)@ == (WindowView { focused: false, ..old(self)@ }),
            final(out)@ == old(out)@ + old(self)@.border_request(BORDER_COLOR),
    {
        self.focused = false;
        out.push(Request::SetWindowBorder { window: self.frame, color: BORDER_COLOR });
        assert(out@ =~= old(out)@ + old(self)@.border_request(BORDER_COLOR));
    }

    pub fn mark(&mut self, out: &mut Vec<Request>)
        ensures
            final(self)@ == (WindowView { marked: true, ..old(self)@ }),
            final(out)@ == old(out)@ + old(self)@.border_request(MARKED_BORDER_COLOR),
    {
        self.marked = true;
        out.push(Request::SetWindowBorder { window: self.frame, color: MARKED_BORDER_COLOR });
        assert(out@ =~= old(out)@ + old(self)@.border_request(MARKED_BORDER_COLOR));
    }

    pub fn unmark(&mut self, out: &mut Vec<Request>)
        ensures
            final(self)@ == (WindowView { marked: false, ..old(self)@ }),
            final(out)@ == old(out)@ + old(self)@.border_request(BORDER_COLOR),
    {
        self.marked = false;
        out.push(Request::SetWindowBorder { window: self.frame, color: BORDER_COLOR });
        assert(out@ =~= old(out)@ + old(self)@.border_request(BORDER_COLOR));
    }

    /// Maps the client window.
    pub fn map(&self, out: &mut Vec<Request>)
        ensures
            final(out)@ == old(out)@.push(Request::MapWindow(self@.id)),
    {
        out.push(Request::MapWindow(self.id));
    }

    pub fn reparent(&self, parent: WindowID, out: &mut Vec<Request>)
        ensures
            final(out)@ == old(out)@.push(
                Request::ReparentWindow { window: self@.id, parent, x: 0, y: 0 },
            ),
    {
        out.push(Request::ReparentWindow { window: self.id, parent, x: 0, y: 0 });
    }
}

impl Node for Window {
    open spec fn node_id(&self) -> NodeID {
        self@.id
    }

    fn id(&self) -> (r: NodeID) {
        self.id
    }

    fn is(&self, id: NodeID) -> (r: bool) {
        self.id == id
    }
}

} // verus!
