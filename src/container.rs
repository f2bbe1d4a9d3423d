use vstd::prelude::*;

use crate::request::{Request, WindowID};
use crate::window::{Node, Slot, Window, WindowView};

verus! {

pub open spec fn contains_id(ws: Seq<WindowView>, id: WindowID) -> bool {
    exists|i: int| 0 <= i < ws.len() && ws[i].id == id
}

/// No two windows of `ws` wrap the same client.
pub open spec fn unique_ids(ws: Seq<WindowView>) -> bool {
    forall|i: int, j: int|
        0 <= i < ws.len() && 0 <= j < ws.len() && i != j ==> ws[i].id != ws[j].id
}

/// Where client `id` stands in `ws`, if it stands there.
pub open spec fn index_of(ws: Seq<WindowView>, id: WindowID) -> int {
    choose|i: int| 0 <= i < ws.len() && ws[i].id == id
}

/// `ws` with the window of client `id` taken out.
pub open spec fn without(ws: Seq<WindowView>, id: WindowID) -> Seq<WindowView> {
    if contains_id(ws, id) {
        ws.remove(index_of(ws, id))
    } else {
        ws
    }
}

/// The requests that taking client `id` out of `ws` issues: the teardown of its frame,
/// or nothing where it is not there.
pub open spec fn removal_requests(ws: Seq<WindowView>, id: WindowID, root: WindowID) -> Seq<Request> {
    if contains_id(ws, id) {
        ws[index_of(ws, id)].teardown_requests(root)
    } else {
        seq![]
    }
}

/// In a collection without duplicate clients, the window found at `i` is the one that
/// `index_of` names.
pub proof fn lemma_index_of_unique(ws: Seq<WindowView>, i: int)
    requires
        unique_ids(ws),
        0 <= i < ws.len(),
    ensures
        contains_id(ws, ws[i].id),
        index_of(ws, ws[i].id) == i,
{
    let id = ws[i].id;
    assert(contains_id(ws, id));
    let k = index_of(ws, id);
    assert(ws[k].id == id);
}

/// Taking a window out keeps the clients unique and leaves no window of that client.
pub proof fn lemma_without(ws: Seq<WindowView>, id: WindowID)
    requires
        unique_ids(ws),
    ensures
        unique_ids(without(ws, id)),
        !contains_id(without(ws, id), id),
        contains_id(ws, id) ==> without(ws, id).len() == ws.len() - 1,
        forall|other: WindowID| other != id ==> (contains_id(without(ws, id), other) == contains_id(ws, other)),
{
    if contains_id(ws, id) {
        let k = index_of(ws, id);
        let r = ws.remove(k);
        assert forall|other: WindowID| other != id implies (contains_id(r, other) == contains_id(ws, other)) by {
            if contains_id(ws, other) {
                let j = choose|j: int| 0 <= j < ws.len() && ws[j].id == other;
                if j < k {
                    assert(r[j].id == other);
                } else {
                    assert(j != k);
                    assert(r[j - 1].id == other);
                }
            }
            if contains_id(r, other) {
                let j = choose|j: int| 0 <= j < r.len() && r[j].id == other;
                if j < k {
                    assert(ws[j].id == other);
                } else {
                    assert(ws[j + 1].id == other);
                }
            }
        }
        if contains_id(r, id) {
            let j = choose|j: int| 0 <= j < r.len() && r[j].id == id;
            if j < k {
                assert(ws[j].id == id);
            } else {
                assert(ws[j + 1].id == id);
            }
        }
    }
}

/// The managed windows, in the order in which they were first framed.
///
/// No two windows wrap the same client. Taking a window out is the one way its frame is
/// released, and it releases it in the fixed teardown order.
pub struct Container {
    windows: Vec<Window>,
}

impl View for Container {
    type V = Seq<WindowView>;

    closed spec fn view(&self) -> Seq<WindowView> {
        self.windows@.map_values(|w: Window| w@)
    }
}

impl Container {
    pub open spec fn wf(&self) -> bool {
        unique_ids(self@)
    }

    pub fn new() -> (r: Container)
        ensures
            r@ == Seq::<WindowView>::empty(),
            r.wf(),
    {
        let r = Container { windows: Vec::new() };
        assert(r@ =~= Seq::<WindowView>::empty());
        r
    }

    pub fn len(&self) -> (r: usize)
        ensures
            r == self@.len(),
    {
        self.windows.len()
    }

    pub fn get(&self, i: usize) -> (r: &Window)
        requires
            i < self@.len(),
        ensures
            r@ == self@[i as int],
    {
        &self.windows[i]
    }

    /// The position of the window of client `id`.
    pub fn find(&self, id: WindowID) -> (r: Option<usize>)
        ensures
            r is None <==> !contains_id(self@, id),
            r matches Some(i) ==> i < self@.len() && self@[i as int].id == id,
    {
        let mut i: usize = 0;
        while i < self.windows.len()
            invariant
                i <= self@.len(),
                self@.len() == self.windows@.len(),
                forall|j: int| 0 <= j < i ==> self@[j].id != id,
            decreases self.windows.len() - i,
        {
            if self.windows[i].is(id) {
                assert(self@[i as int].id == id);
                return Some(i);
            }
            i = i + 1;
        }
        None
    }

    pub fn contains(&self, id: WindowID) -> (r: bool)
        ensures
            r == contains_id(self@, id),
    {
        self.find(id).is_some()
    }

    /// Appends a window of a client that is not managed yet.
    pub fn insert(&mut self, w: Window)
        requires
            old(self).wf(),
            !contains_id(old(self)@, w@.id),
        ensures
            final(self)@ == old(self)@.push(w@),
            final(self).wf(),
    {
        let ghost old_view = self@;
        self.windows.push(w);
        assert(self@ =~= old_view.push(w@));
        assert forall|i: int, j: int|
            0 <= i < self@.len() && 0 <= j < self@.len() && i != j implies self@[i].id != self@[j].id by {
            if i == old_view.len() as int {
                assert(old_view[j].id != w@.id);
            } else if j == old_view.len() as int {
                assert(old_view[i].id != w@.id);
            }
        }
    }

    /// Takes out the window of client `id`, if there is one, and releases its frame.
    /// Asking twice for the same client tears its frame down once.
    pub fn remove(&mut self, id: WindowID, root: WindowID, out: &mut Vec<Request>) -> (r: bool)
        requires
            old(self).wf(),
        ensures
            r == contains_id(old(self)@, id),
            final(self)@ == without(old(self)@, id),
            final(out)@ == old(out)@ + removal_requests(old(self)@, id, root),
            final(self).wf(),
    {
        proof {
            lemma_without(self@, id);
        }
        match self.find(id) {
            Some(i) => {
                proof {
                    lemma_index_of_unique(self@, i as int);
                }
                let ghost old_view = self@;
                let w = self.windows.remove(i);
                assert(self@ =~= old_view.remove(i as int));
                w.unframe(root, out);
                true
            },
            None => {
                assert(out@ =~= old(out)@ + removal_requests(old(self)@, id, root));
                false
            },
        }
    }

    /// Gives the window at `i` the extent `s`: resized first, then moved.
    pub fn place(&mut self, i: usize, s: Slot, out: &mut Vec<Request>)
        requires
            i < old(self)@.len(),
            old(self).wf(),
        ensures
            final(self)@ == old(self)@.update(i as int, old(self)@[i as int].placed(s)),
            final(out)@ == old(out)@ + old(self)@[i as int].placement_requests(s),
            final(self).wf(),
    {
        let ghost old_view = self@;
        let ghost old_out = out@;
        self.windows[i].set_size(s.width, s.height, out);
        self.windows[i].set_position(s.x, s.y, out);
        assert(self@ =~= old_view.update(i as int, old_view[i as int].placed(s)));
        assert(out@ =~= old_out + old_view[i as int].placement_requests(s));
        assert forall|a: int, b: int|
            0 <= a < self@.len() && 0 <= b < self@.len() && a != b implies self@[a].id != self@[b].id by {
            assert(self@[a].id == old_view[a].id);
            assert(self@[b].id == old_view[b].id);
        }
    }
}

} // verus!
