use vstd::prelude::*;

use crate::config::{FOCUSED_BORDER_COLOR, GRAB_BUTTON, SCREEN_HEIGHT, SCREEN_WIDTH};
use crate::container::{
    contains_id, index_of, lemma_without, removal_requests, unique_ids, without, Container,
};
use crate::error::Error;
use crate::event::{
    ConfigureRequestEvent, DestroyWindowEvent, Event, MapRequestEvent, UnmapEvent,
    WindowAttributes,
};
use crate::layout::{apply_is_idempotent, ColumnLayout, Layout, RowLayout};
use crate::request::{
    Request, WindowChanges, WindowID, BUTTON_PRESS_MASK, BUTTON_RELEASE_MASK, GRAB_MODE_ASYNC,
    POINTER_MOTION_MASK,
};
use crate::window::{create_frame_request, framing_requests, Window, WindowView};

verus! {

/// A client whose frame was asked for and whose framing waits for the frame's
/// identifier.
#[derive(Clone, Copy, Debug, PartialEq, Eq)]
pub struct Adoption {
    pub client: WindowID,
    pub attributes: WindowAttributes,
    /// The frame gets the focused border once it exists.
    pub focus: bool,
    /// The client asked to be mapped, and is mapped once it is framed.
    pub map_client: bool,
}

/// What a window manager is: the root window, the managed windows in order of
/// framing, the clients waiting for their frames, and the layouts with the selected one.
pub struct ManagerView {
    pub root: WindowID,
    pub windows: Seq<WindowView>,
    pub pending: Seq<Adoption>,
    pub layouts: Seq<Layout>,
    pub selected: int,
}

/// One entry of the root window's children at startup: the child and its attributes,
/// or the error that querying them gave.
pub type ChildWindow = (WindowID, Result<WindowAttributes, Error>);

/// The layouts a manager starts with; the first one is selected.
pub open spec fn initial_layouts() -> Seq<Layout> {
    seq![
        Layout::Column(ColumnLayout(SCREEN_WIDTH, SCREEN_HEIGHT)),
        Layout::Row(RowLayout(SCREEN_WIDTH, SCREEN_HEIGHT)),
    ]
}

/// The button grab on the root window for dragging and resizing: presses, releases and
/// motion are reported, and neither pointer nor keyboard is frozen while it is active.
pub open spec fn grab_request(root: WindowID) -> Request {
    Request::GrabButton {
        button: GRAB_BUTTON,
        modifiers: 0,
        window: root,
        owner_events: true,
        event_mask: BUTTON_PRESS_MASK | BUTTON_RELEASE_MASK | POINTER_MOTION_MASK,
        pointer_mode: GRAB_MODE_ASYNC,
        keyboard_mode: GRAB_MODE_ASYNC,
        confine_to: 0,
        cursor: 0,
    }
}

pub open spec fn configure_request(ev: ConfigureRequestEvent) -> Request {
    Request::ConfigureWindow {
        window: ev.window,
        value_mask: ev.value_mask,
        changes: WindowChanges {
            x: ev.x,
            y: ev.y,
            width: ev.width,
            height: ev.height,
            border_width: ev.border_width,
            sibling: ev.above,
            stack_mode: ev.detail,
        },
    }
}

impl ManagerView {
    pub open spec fn is_pending(self, id: WindowID) -> bool {
        exists|i: int| 0 <= i < self.pending.len() && self.pending[i].client == id
    }

    pub open spec fn pending_index(self, id: WindowID) -> int {
        choose|i: int| 0 <= i < self.pending.len() && self.pending[i].client == id
    }

    /// The client is managed, or its frame was asked for.
    pub open spec fn knows(self, id: WindowID) -> bool {
        contains_id(self.windows, id) || self.is_pending(id)
    }

    pub open spec fn wf(self) -> bool {
        &&& unique_ids(self.windows)
        &&& forall|i: int, j: int|
            0 <= i < self.pending.len() && 0 <= j < self.pending.len() && i != j
                ==> self.pending[i].client != self.pending[j].client
        &&& forall|i: int|
            0 <= i < self.pending.len() ==> !contains_id(self.windows, #[trigger] self.pending[i].client)
        &&& 0 <= self.selected < self.layouts.len()
        &&& forall|i: int| 0 <= i < self.layouts.len() ==> (#[trigger] self.layouts[i]).fits()
    }

    pub open spec fn layout(self) -> Layout {
        self.layouts[self.selected]
    }

    /// The selected layout applied to the managed windows.
    pub open spec fn relayout(self) -> (ManagerView, Seq<Request>) {
        (
            ManagerView { windows: self.layout().arranged(self.windows), ..self },
            self.layout().requests(self.windows),
        )
    }

    /// Asks for the frame of `client`, whose framing then waits for it.
    pub open spec fn adopt(self, client: WindowID, a: WindowAttributes, focus: bool, map_client: bool) -> (
        ManagerView,
        Seq<Request>,
    ) {
        (
            ManagerView {
                pending: self.pending.push(
                    Adoption { client, attributes: a, focus, map_client },
                ),
                ..self
            },
            seq![create_frame_request(self.root, client, a)],
        )
    }

    /// A startup child: framed when unknown and manageable, skipped otherwise.
    pub open spec fn scan_one(self, child: ChildWindow, focus: bool) -> (ManagerView, Seq<Request>) {
        match child.1 {
            Ok(a) => if !self.knows(child.0) && a.spec_manageable_at_scan() {
                self.adopt(child.0, a, focus, false)
            } else {
                (self, seq![])
            },
            Err(_) => (self, seq![]),
        }
    }

    /// The first `k` startup children taken in turn; the first one framed gets the focus.
    pub open spec fn scan_upto(self, children: Seq<ChildWindow>, k: int) -> (ManagerView, Seq<Request>)
        decreases k,
    {
        if k <= 0 {
            (self, seq![])
        } else {
            let (m, r) = self.scan_upto(children, k - 1);
            let (m2, r2) = m.scan_one(children[k - 1], m.pending.len() == self.pending.len());
            (m2, r + r2)
        }
    }

    /// The startup scan: every child taken in turn, then the layout applied once if
    /// no frame is awaited.
    pub open spec fn scan(self, children: Seq<ChildWindow>) -> (ManagerView, Seq<Request>) {
        let (m, r) = self.scan_upto(children, children.len() as int);
        if m.pending.len() == 0 {
            let (m2, r2) = m.relayout();
            (m2, r + r2)
        } else {
            (m, r)
        }
    }

    /// The requests that framing `a` into `frame` issues.
    pub open spec fn adoption_requests(a: Adoption, frame: WindowID) -> Seq<Request> {
        framing_requests(a.client, frame) + (if a.focus {
            WindowView::framed(a.client, frame, a.attributes).border_request(FOCUSED_BORDER_COLOR)
        } else {
            seq![]
        }) + (if a.map_client {
            seq![Request::MapWindow(a.client)]
        } else {
            seq![]
        })
    }

    pub open spec fn adopted_window(a: Adoption, frame: WindowID) -> WindowView {
        WindowView { focused: a.focus, ..WindowView::framed(a.client, frame, a.attributes) }
    }

    /// The frame of a waiting client exists: the client is framed and joins the managed
    /// windows; once no frame is awaited any more the layout is applied. A frame that no
    /// client waits for is destroyed.
    pub open spec fn frame_created(self, client: WindowID, frame: WindowID) -> (ManagerView, Seq<Request>) {
        if self.is_pending(client) {
            let p = self.pending_index(client);
            let a = self.pending[p];
            let m = ManagerView {
                windows: self.windows.push(ManagerView::adopted_window(a, frame)),
                pending: self.pending.remove(p),
                ..self
            };
            let r = ManagerView::adoption_requests(a, frame);
            if m.pending.len() == 0 {
                let (m2, r2) = m.relayout();
                (m2, r + r2)
            } else {
                (m, r)
            }
        } else {
            (self, seq![Request::DestroyWindow(frame)])
        }
    }

    /// A managed client goes: its frame is torn down and the layout applied to the rest.
    pub open spec fn removal(self, id: WindowID) -> (ManagerView, Seq<Request>) {
        if contains_id(self.windows, id) {
            let m = ManagerView { windows: without(self.windows, id), ..self };
            let (m2, r2) = m.relayout();
            (m2, removal_requests(self.windows, id, self.root) + r2)
        } else {
            (self, seq![])
        }
    }

    pub open spec fn map_request(self, ev: MapRequestEvent) -> (ManagerView, Seq<Request>) {
        if contains_id(self.windows, ev.window) {
            (self, seq![Request::MapWindow(ev.window)])
        } else if self.is_pending(ev.window) {
            (self, seq![])
        } else {
            match ev.attributes {
                Ok(a) => if a.spec_manageable_on_map() {
                    self.adopt(ev.window, a, false, true)
                } else {
                    (self, seq![])
                },
                Err(_) => (self, seq![]),
            }
        }
    }

    pub open spec fn unmap_notify(self, ev: UnmapEvent) -> (ManagerView, Seq<Request>) {
        if ev.event == self.root {
            (self, seq![])
        } else {
            self.removal(ev.window)
        }
    }

    pub open spec fn destroy_notify(self, ev: DestroyWindowEvent) -> (ManagerView, Seq<Request>) {
        self.removal(ev.window)
    }

    /// What the manager does on `e`: the state it moves to and the requests it issues.
    pub open spec fn step(self, e: Event) -> (ManagerView, Seq<Request>) {
        match e {
            Event::ConfigureRequest(ev) => (self, seq![configure_request(ev)]),
            Event::MapRequest(ev) => self.map_request(ev),
            Event::UnmapNotify(ev) => self.unmap_notify(ev),
            Event::DestroyNotify(ev) => self.destroy_notify(ev),
            _ => (self, seq![]),
        }
    }

    pub open spec fn select_layout(self, index: int) -> (ManagerView, Seq<Request>) {
        if 0 <= index < self.layouts.len() {
            ManagerView { selected: index, ..self }.relayout()
        } else {
            (self, seq![])
        }
    }
}

proof fn lemma_arranged_ids(l: Layout, ws: Seq<WindowView>)
    ensures
        forall|x: WindowID| contains_id(l.arranged(ws), x) == contains_id(ws, x),
        unique_ids(ws) ==> unique_ids(l.arranged(ws)),
{
    let r = l.arranged(ws);
    assert forall|x: WindowID| contains_id(r, x) == contains_id(ws, x) by {
        if contains_id(ws, x) {
            let i = choose|i: int| 0 <= i < ws.len() && ws[i].id == x;
            assert(r[i].id == x);
        }
        if contains_id(r, x) {
            let i = choose|i: int| 0 <= i < r.len() && r[i].id == x;
            assert(ws[i].id == x);
        }
    }
}

/// The window-manager engine: it decides, for each event of the display server, how
/// its managed windows change and which requests the session is to carry out.
///
/// A frame's identifier comes from the server: a `Request::CreateFrame` is answered by
/// calling `on_frame_created` with the identifier the session got back.
pub struct WindowManager {
    root: WindowID,
    windows: Container,
    pending: Vec<Adoption>,
    layouts: Vec<Layout>,
    selected_layout: usize,
}

impl View for WindowManager {
    type V = ManagerView;

    closed spec fn view(&self) -> ManagerView {
        ManagerView {
            root: self.root,
            windows: self.windows@,
            pending: self.pending@,
            layouts: self.layouts@,
            selected: self.selected_layout as int,
        }
    }
}

impl WindowManager {
    pub open spec fn wf(&self) -> bool {
        self@.wf()
    }

    /// A manager of the session whose root window is `root`, with no window yet and
    /// column layout selected.
    pub fn new(root: WindowID) -> (r: WindowManager)
        ensures
            r@ == (ManagerView {
                root,
                windows: Seq::<WindowView>::empty(),
                pending: Seq::<Adoption>::empty(),
                layouts: initial_layouts(),
                selected: 0,
            }),
            r.wf(),
    {
        let r = WindowManager {
            root,
            windows: Container::new(),
            pending: Vec::new(),
            layouts: vec![
                Layout::Column(ColumnLayout(SCREEN_WIDTH, SCREEN_HEIGHT)),
                Layout::Row(RowLayout(SCREEN_WIDTH, SCREEN_HEIGHT)),
            ],
            selected_layout: 0,
        };
        assert(r.pending@ =~= Seq::<Adoption>::empty());
        assert(r.layouts@ =~= initial_layouts());
        r
    }

    pub fn root(&self) -> (r: WindowID)
        ensures
            r == self@.root,
    {
        self.root
    }

    pub fn windows(&self) -> (r: &Container)
        ensures
            r@ == self@.windows,
    {
        &self.windows
    }

    /// The number of clients whose frames were asked for and not handed back yet.
    pub fn pending_count(&self) -> (r: usize)
        ensures
            r == self@.pending.len(),
    {
        self.pending.len()
    }

    pub fn selected_layout(&self) -> (r: usize)
        ensures
            r == self@.selected,
    {
        self.selected_layout
    }

    pub fn layout(&self) -> (r: Layout)
        requires
            self.wf(),
        ensures
            r == self@.layout(),
    {
        self.layouts[self.selected_layout]
    }

    fn apply_selected_layout(&mut self, out: &mut Vec<Request>)
        requires
            old(self).wf(),
        ensures
            final(self)@ == old(self)@.relayout().0,
            final(out)@ == old(out)@ + old(self)@.relayout().1,
            final(self).wf(),
    {
        let l = self.layouts[self.selected_layout];
        proof {
            lemma_arranged_ids(l, self@.windows);
        }
        l.apply(&mut self.windows, out);
    }

    fn find_pending(&self, id: WindowID) -> (r: Option<usize>)
        requires
            self.wf(),
        ensures
            r is None <==> !self@.is_pending(id),
            r matches Some(i) ==> i < self@.pending.len() && i == self@.pending_index(id),
    {
        let mut i: usize = 0;
        while i < self.pending.len()
            invariant
                self.wf(),
                i <= self.pending@.len(),
                forall|j: int| 0 <= j < i ==> self.pending@[j].client != id,
            decreases self.pending.len() - i,
        {
            if self.pending[i].client == id {
                proof {
                    assert(self@.is_pending(id));
                    let k = self@.pending_index(id);
                    assert(self.pending@[k].client == id);
                    if k != i as int {
                        assert(self@.pending[k].client != self@.pending[i as int].client);
                    }
                }
                return Some(i);
            }
            i = i + 1;
        }
        None
    }

    fn adopt(&mut self, client: WindowID, a: WindowAttributes, focus: bool, map_client: bool, out: &mut Vec<Request>)
        requires
            old(self).wf(),
            !old(self)@.knows(client),
        ensures
            final(self)@ == old(self)@.adopt(client, a, focus, map_client).0,
            final(out)@ == old(out)@ + old(self)@.adopt(client, a, focus, map_client).1,
            final(self).wf(),
    {
        out.push(Window::frame_request(self.root, client, &a));
        self.pending.push(Adoption { client, attributes: a, focus, map_client });
        assert(out@ =~= old(out)@ + old(self)@.adopt(client, a, focus, map_client).1);
        assert(self@ =~= old(self)@.adopt(client, a, focus, map_client).0);
    }

    fn scan_one(&mut self, child: ChildWindow, focus: bool, out: &mut Vec<Request>)
        requires
            old(self).wf(),
        ensures
            final(self)@ == old(self)@.scan_one(child, focus).0,
            final(out)@ == old(out)@ + old(self)@.scan_one(child, focus).1,
            final(self).wf(),
    {
        let (id, attributes) = child;
        match attributes {
            Ok(a) => {
                if !self.windows.contains(id) && self.find_pending(id).is_none() && a.manageable_at_scan() {
                    self.adopt(id, a, focus, false, out);
                } else {
                    assert(out@ =~= old(out)@ + old(self)@.scan_one(child, focus).1);
                }
            },
            Err(_) => {
                assert(out@ =~= old(out)@ + old(self)@.scan_one(child, focus).1);
            },
        }
    }

    /// Takes over the windows that stand on the screen at startup. `children` are the
    /// root window's children, each with its attributes or the error that querying
    /// them gave; a child that vanished is skipped. Returns how many children were
    /// considered, skipped ones included.
    pub fn scan(&mut self, children: &Vec<ChildWindow>, out: &mut Vec<Request>) -> (r: usize)
        requires
            old(self).wf(),
        ensures
            r == children@.len(),
            final(self)@ == old(self)@.scan(children@).0,
            final(out)@ == old(out)@ + old(self)@.scan(children@).1,
            final(self).wf(),
    {
        let ghost m0 = self@;
        let ghost out0 = out@;
        let waiting = self.pending.len();
        let mut i: usize = 0;
        while i < children.len()
            invariant
                i <= children@.len(),
                waiting == m0.pending.len(),
                self.wf(),
                self@ == m0.scan_upto(children@, i as int).0,
                out@ == out0 + m0.scan_upto(children@, i as int).1,
            decreases children.len() - i,
        {
            let focus = self.pending.len() == waiting;
            self.scan_one(children[i], focus, out);
            assert(out@ =~= out0 + m0.scan_upto(children@, i as int + 1).1);
            i = i + 1;
        }
        if self.pending.len() == 0 {
            self.apply_selected_layout(out);
            assert(out@ =~= out0 + m0.scan(children@).1);
        }
        children.len()
    }

    /// Frames `client` into `frame`, the identifier that the session got back for the
    /// `Request::CreateFrame` of that client. Returns whether the client was waiting
    /// for a frame; if not, the frame is destroyed and the manager is left as it was.
    pub fn on_frame_created(&mut self, client: WindowID, frame: WindowID, out: &mut Vec<Request>) -> (r: bool)
        requires
            old(self).wf(),
        ensures
            r == old(self)@.is_pending(client),
            final(self)@ == old(self)@.frame_created(client, frame).0,
            final(out)@ == old(out)@ + old(self)@.frame_created(client, frame).1,
            final(self).wf(),
    {
        let ghost m0 = self@;
        let ghost out0 = out@;
        match self.find_pending(client) {
            None => {
                out.push(Request::DestroyWindow(frame));
                assert(out@ =~= out0 + m0.frame_created(client, frame).1);
                false
            },
            Some(p) => {
                let a = self.pending.remove(p);
                let mut w = Window::new(client, frame, &a.attributes, out);
                if a.focus {
                    w.focus(out);
                }
                if a.map_client {
                    w.map(out);
                }
                assert(out@ =~= out0 + ManagerView::adoption_requests(a, frame));
                assert(w@ == ManagerView::adopted_window(a, frame));
                assert(!contains_id(self.windows@, client));
                self.windows.insert(w);
                proof {
                    let m = self@;
                    assert(m.pending =~= m0.pending.remove(p as int));
                    assert forall|i: int| 0 <= i < m.pending.len() implies !contains_id(m.windows, #[trigger] m.pending[i].client) by {
                        let c = m.pending[i].client;
                        let k = if i < p { i } else { i + 1 };
                        assert(m0.pending[k].client == c);
                        assert(c != client);
                        if contains_id(m.windows, c) {
                            let j = choose|j: int| 0 <= j < m.windows.len() && m.windows[j].id == c;
                            assert(m0.windows[j].id == c);
                        }
                    }
                    assert forall|i: int, j: int|
                        0 <= i < m.pending.len() && 0 <= j < m.pending.len() && i != j implies m.pending[i].client != m.pending[j].client by {
                        let ki = if i < p { i } else { i + 1 };
                        let kj = if j < p { j } else { j + 1 };
                        assert(m0.pending[ki].client == m.pending[i].client);
                        assert(m0.pending[kj].client == m.pending[j].client);
                    }
                }
                if self.pending.len() == 0 {
                    self.apply_selected_layout(out);
                    assert(out@ =~= out0 + m0.frame_created(client, frame).1);
                }
                true
            },
        }
    }

    fn remove_window(&mut self, id: WindowID, out: &mut Vec<Request>) -> (r: bool)
        requires
            old(self).wf(),
        ensures
            r == contains_id(old(self)@.windows, id),
            final(self)@ == old(self)@.removal(id).0,
            final(out)@ == old(out)@ + old(self)@.removal(id).1,
            final(self).wf(),
    {
        let ghost m0 = self@;
        let ghost out0 = out@;
        proof {
            lemma_without(m0.windows, id);
        }
        if self.windows.remove(id, self.root, out) {
            proof {
                let m = self@;
                assert forall|i: int| 0 <= i < m.pending.len() implies !contains_id(m.windows, #[trigger] m.pending[i].client) by {
                    assert(!contains_id(m0.windows, m0.pending[i].client));
                }
            }
            self.apply_selected_layout(out);
            assert(out@ =~= out0 + m0.removal(id).1);
            true
        } else {
            assert(out@ =~= out0 + m0.removal(id).1);
            false
        }
    }

    /// Grabs the pointer button for dragging and resizing on the root window, in
    /// asynchronous mode.
    pub fn grab_events(&self, out: &mut Vec<Request>)
        ensures
            final(out)@ == old(out)@.push(grab_request(self@.root)),
    {
        out.push(
            Request::GrabButton {
                button: GRAB_BUTTON,
                modifiers: 0,
                window: self.root,
                owner_events: true,
                event_mask: BUTTON_PRESS_MASK | BUTTON_RELEASE_MASK | POINTER_MOTION_MASK,
                pointer_mode: GRAB_MODE_ASYNC,
                keyboard_mode: GRAB_MODE_ASYNC,
                confine_to: 0,
                cursor: 0,
            },
        );
    }

    /// Grants a configure request as it was asked for.
    pub fn on_configure_request(&self, ev: ConfigureRequestEvent, out: &mut Vec<Request>)
        ensures
            final(out)@ == old(out)@.push(configure_request(ev)),
    {
        let changes = WindowChanges {
            x: ev.x,
            y: ev.y,
            width: ev.width,
            height: ev.height,
            border_width: ev.border_width,
            sibling: ev.above,
            stack_mode: ev.detail,
        };
        out.push(Request::ConfigureWindow { window: ev.window, value_mask: ev.value_mask, changes });
    }

    /// A managed client is mapped again; an unknown client that did not opt out and is
    /// not on screen yet gets its frame asked for, and is framed, mapped and laid out
    /// once the frame exists. Anything else is left alone.
    pub fn on_map_request(&mut self, ev: MapRequestEvent, out: &mut Vec<Request>)
        requires
            old(self).wf(),
        ensures
            final(self)@ == old(self)@.map_request(ev).0,
            final(out)@ == old(out)@ + old(self)@.map_request(ev).1,
            final(self).wf(),
    {
        let ghost out0 = out@;
        match self.windows.find(ev.window) {
            Some(i) => {
                self.windows.get(i).map(out);
                assert(out@ =~= out0 + old(self)@.map_request(ev).1);
                return;
            },
            None => {},
        }
        if self.find_pending(ev.window).is_some() {
            assert(out@ =~= out0 + old(self)@.map_request(ev).1);
            return;
        }
        match ev.attributes {
            Ok(a) => {
                if a.manageable_on_map() {
                    self.adopt(ev.window, a, false, true, out);
                } else {
                    assert(out@ =~= out0 + old(self)@.map_request(ev).1);
                }
            },
            Err(_) => {
                assert(out@ =~= out0 + old(self)@.map_request(ev).1);
            },
        }
    }

    /// Unmapping a managed client releases it and lays out the rest; notifications
    /// selected on the root window are ignored.
    pub fn on_unmap_notify(&mut self, ev: UnmapEvent, out: &mut Vec<Request>)
        requires
            old(self).wf(),
        ensures
            final(self)@ == old(self)@.unmap_notify(ev).0,
            final(out)@ == old(out)@ + old(self)@.unmap_notify(ev).1,
            final(self).wf(),
    {
        if ev.event == self.root {
            assert(out@ =~= old(out)@ + old(self)@.unmap_notify(ev).1);
            return;
        }
        self.remove_window(ev.window, out);
    }

    /// A destroyed managed client is released as an unmapped one would be; a client
    /// that was released already is not released again.
    pub fn on_destroy_notify(&mut self, ev: DestroyWindowEvent, out: &mut Vec<Request>)
        requires
            old(self).wf(),
        ensures
            final(self)@ == old(self)@.destroy_notify(ev).0,
            final(out)@ == old(out)@ + old(self)@.destroy_notify(ev).1,
            final(self).wf(),
    {
        self.remove_window(ev.window, out);
    }

    /// Dispatches one event by its kind.
    pub fn handle_event(&mut self, e: Event, out: &mut Vec<Request>)
        requires
            old(self).wf(),
        ensures
            final(self)@ == old(self)@.step(e).0,
            final(out)@ == old(out)@ + old(self)@.step(e).1,
            final(self).wf(),
    {
        match e {
            Event::ConfigureRequest(ev) => {
                self.on_configure_request(ev, out);
                assert(out@ =~= old(out)@ + old(self)@.step(e).1);
            },
            Event::MapRequest(ev) => self.on_map_request(ev, out),
            Event::UnmapNotify(ev) => self.on_unmap_notify(ev, out),
            Event::DestroyNotify(ev) => self.on_destroy_notify(ev, out),
            _ => {
                assert(out@ =~= old(out)@ + old(self)@.step(e).1);
            },
        }
    }

    /// Selects the layout at `index` and re-arranges the windows with it. An index
    /// past the layouts changes nothing. Returns whether the index was taken.
    pub fn select_layout(&mut self, index: usize, out: &mut Vec<Request>) -> (r: bool)
        requires
            old(self).wf(),
        ensures
            r == (index < old(self)@.layouts.len()),
            final(self)@ == old(self)@.select_layout(index as int).0,
            final(out)@ == old(out)@ + old(self)@.select_layout(index as int).1,
            final(self).wf(),
    {
        if index < self.layouts.len() {
            self.selected_layout = index;
            self.apply_selected_layout(out);
            true
        } else {
            assert(out@ =~= old(out)@ + old(self)@.select_layout(index as int).1);
            false
        }
    }
}

/// Framing a client that asked to be mapped issues, in this order, one frame creation
/// and then, once the frame exists, one input selection on the frame, one save-set
/// addition of the client, one reparenting of the client into the frame and one map
/// of the frame; the client then stands among the managed windows.
pub proof fn framing_lifecycle(m: ManagerView, ev: MapRequestEvent, a: WindowAttributes, frame: WindowID)
    requires
        m.wf(),
        !m.knows(ev.window),
        ev.attributes == Ok::<WindowAttributes, Error>(a),
        a.spec_manageable_on_map(),
    ensures
        ({
            let (m1, r1) = m.map_request(ev);
            let (m2, r2) = m1.frame_created(ev.window, frame);
            &&& r1 == seq![create_frame_request(m.root, ev.window, a)]
            &&& m1.is_pending(ev.window)
            &&& r2.len() >= 4
            &&& r2.subrange(0, 4) == seq![
                Request::SelectInput(frame),
                Request::AddToSaveSet(ev.window),
                Request::ReparentWindow { window: ev.window, parent: frame, x: 0, y: 0 },
                Request::MapWindow(frame),
            ]
            &&& contains_id(m2.windows, ev.window)
            &&& m2.windows.len() == m.windows.len() + 1
        }),
{
    let (m1, r1) = m.map_request(ev);
    let last = m1.pending.len() - 1;
    assert(m1.pending[last].client == ev.window);
    assert(m1.is_pending(ev.window));
    let p = m1.pending_index(ev.window);
    let ad = m1.pending[p];
    let r = ManagerView::adoption_requests(ad, frame);
    assert(r.subrange(0, 4) =~= framing_requests(ev.window, frame));
    let (m2, r2) = m1.frame_created(ev.window, frame);
    let mw = m1.windows.push(ManagerView::adopted_window(ad, frame));
    assert(mw[mw.len() - 1].id == ev.window);
    assert(contains_id(mw, ev.window));
    let mp = ManagerView { windows: mw, pending: m1.pending.remove(p), ..m1 };
    if mp.pending.len() == 0 {
        lemma_arranged_ids(mp.layout(), mw);
        assert(r2.subrange(0, 4) =~= r.subrange(0, 4));
    }
}

/// Releasing a managed client issues first the teardown of its frame, in its fixed
/// order: unmap the frame, reparent the client to the root, drop the client from the
/// save-set, destroy the frame. A second release of the same client, by an unmap or
/// by a destroy notification, changes nothing and issues nothing.
pub proof fn release_happens_once(m: ManagerView, id: WindowID, unmap: UnmapEvent, destroy: DestroyWindowEvent)
    requires
        m.wf(),
        contains_id(m.windows, id),
        unmap.window == id,
        unmap.event != m.root,
        destroy.window == id,
    ensures
        ({
            let (m1, r1) = m.unmap_notify(unmap);
            let frame = m.windows[index_of(m.windows, id)].frame;
            &&& r1.len() >= 4
            &&& r1.subrange(0, 4) == seq![
                Request::UnmapWindow(frame),
                Request::ReparentWindow { window: id, parent: m.root, x: 0, y: 0 },
                Request::RemoveFromSaveSet(id),
                Request::DestroyWindow(frame),
            ]
            &&& !contains_id(m1.windows, id)
            &&& m1.unmap_notify(unmap) == (m1, Seq::<Request>::empty())
            &&& m1.destroy_notify(destroy) == (m1, Seq::<Request>::empty())
        }),
{
    lemma_without(m.windows, id);
    let w = without(m.windows, id);
    let mm = ManagerView { windows: w, ..m };
    lemma_arranged_ids(mm.layout(), w);
    let (m1, r1) = m.unmap_notify(unmap);
    let t = removal_requests(m.windows, id, m.root);
    assert(r1.subrange(0, 4) =~= t);
}

/// A map request from a client that is neither managed nor awaiting a frame, that did
/// not opt out and is not on screen, frames exactly that client once its frame exists.
/// The client joins the managed windows last, unfocused; the framing requests and a
/// map of the client are issued. When no other frame is awaited, the selected layout is
/// then applied over all managed windows. Otherwise the layout waits for the last
/// awaited frame.
pub proof fn map_request_frames_new_window(
    m: ManagerView,
    ev: MapRequestEvent,
    a: WindowAttributes,
    frame: WindowID,
)
    requires
        m.wf(),
        !m.knows(ev.window),
        ev.attributes == Ok::<WindowAttributes, Error>(a),
        a.spec_manageable_on_map(),
    ensures
        ({
            let (m1, r1) = m.map_request(ev);
            let (m2, r2) = m1.frame_created(ev.window, frame);
            let w = WindowView::framed(ev.window, frame, a);
            let framed = m.windows.push(w);
            let issued = framing_requests(ev.window, frame) + seq![Request::MapWindow(ev.window)];
            &&& r1 == seq![create_frame_request(m.root, ev.window, a)]
            &&& m2.pending == m.pending
            &&& m.pending.len() == 0 ==> m2.windows == m.layout().arranged(framed)
                && r2 == issued + m.layout().requests(framed)
            &&& m.pending.len() > 0 ==> m2.windows == framed && r2 == issued
        }),
{
    let (m1, r1) = m.map_request(ev);
    let last = m1.pending.len() - 1;
    assert(m1.pending[last].client == ev.window);
    assert(m1.is_pending(ev.window));
    let p = m1.pending_index(ev.window);
    if p != last {
        assert(m1.pending[p] == m.pending[p]);
        assert(m.is_pending(ev.window));
    }
    assert(m1.pending.remove(p) =~= m.pending);
    let ad = m1.pending[p];
    assert(ManagerView::adopted_window(ad, frame) == WindowView::framed(ev.window, frame, a));
    assert(ManagerView::adoption_requests(ad, frame) =~= framing_requests(ev.window, frame)
        + seq![Request::MapWindow(ev.window)]);
}

/// Applying the selected layout twice in a row gives the same windows and issues the
/// same requests both times.
pub proof fn relayout_is_idempotent(m: ManagerView)
    ensures
        m.relayout().0.relayout().0 == m.relayout().0,
        m.relayout().0.relayout().1 == m.relayout().1,
{
    apply_is_idempotent(m.layout(), m.windows);
}

} // verus!
