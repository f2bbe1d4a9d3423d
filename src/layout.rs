use vstd::prelude::*;
use vstd::arithmetic::div_mod::{lemma_fundamental_div_mod, lemma_mod_pos_bound};

use crate::container::Container;
use crate::request::Request;
use crate::window::{Position, Size, Slot, WindowView};

verus! {

/// Splits the width of a `.0` by `.1` area into equal columns, one per window, left
/// to right. Pixels left over by the division stay unused.
#[derive(Clone, Copy, Debug, PartialEq, Eq)]
pub struct ColumnLayout(pub u32, pub u32);

/// Splits the height of a `.0` by `.1` area into equal rows, one per window, top to
/// bottom. Pixels left over by the division stay unused.
#[derive(Clone, Copy, Debug, PartialEq, Eq)]
pub struct RowLayout(pub u32, pub u32);

/// The strategies a manager can arrange its windows with.
#[derive(Clone, Copy, Debug, PartialEq, Eq)]
pub enum Layout {
    Column(ColumnLayout),
    Row(RowLayout),
}

/// The number of slots an area is split into for `n` windows: zero windows are laid
/// out as if there were one.
pub open spec fn slot_count(n: nat) -> nat {
    if n == 0 {
        1
    } else {
        n
    }
}

/// The slots of `n` equal parts of `extent`, the `i`-th one starting at `i` parts.
pub proof fn lemma_part_within(extent: nat, n: nat, i: nat)
    requires
        i < n,
    ensures
        i * (extent / n) + extent / n <= extent,
        n * (extent / n) <= extent,
{
    let q = extent / n;
    lemma_fundamental_div_mod(extent as int, n as int);
    lemma_mod_pos_bound(extent as int, n as int);
    assert(i * q + q <= n * q) by (nonlinear_arith)
        requires
            i < n,
            q >= 0,
    ;
}

impl ColumnLayout {
    pub open spec fn column_width(self, n: nat) -> nat {
        self.0 as nat / slot_count(n)
    }

    pub open spec fn slot(self, n: nat, i: int) -> Slot {
        Slot {
            x: (i * self.column_width(n)) as i32,
            y: 0,
            width: self.column_width(n) as u32,
            height: self.1,
        }
    }

    pub fn apply(&self, windows: &mut Container, out: &mut Vec<Request>)
        requires
            Layout::Column(*self).fits(),
            old(windows).wf(),
        ensures
            final(windows)@ == Layout::Column(*self).arranged(old(windows)@),
            final(out)@ == old(out)@ + Layout::Column(*self).requests(old(windows)@),
            final(windows).wf(),
            old(windows)@.len() == 0 ==> final(windows)@ == old(windows)@ && final(out)@ == old(out)@,
    {
        Layout::Column(*self).apply(windows, out)
    }
}

impl RowLayout {
    pub open spec fn row_height(self, n: nat) -> nat {
        self.1 as nat / slot_count(n)
    }

    pub open spec fn slot(self, n: nat, i: int) -> Slot {
        Slot {
            x: 0,
            y: (i * self.row_height(n)) as i32,
            width: self.0,
            height: self.row_height(n) as u32,
        }
    }

    pub fn apply(&self, windows: &mut Container, out: &mut Vec<Request>)
        requires
            Layout::Row(*self).fits(),
            old(windows).wf(),
        ensures
            final(windows)@ == Layout::Row(*self).arranged(old(windows)@),
            final(out)@ == old(out)@ + Layout::Row(*self).requests(old(windows)@),
            final(windows).wf(),
            old(windows)@.len() == 0 ==> final(windows)@ == old(windows)@ && final(out)@ == old(out)@,
    {
        Layout::Row(*self).apply(windows, out)
    }
}

impl Layout {
    /// Every position the layout hands out fits a coordinate.
    pub open spec fn fits(self) -> bool {
        match self {
            Layout::Column(c) => c.0 <= i32::MAX,
            Layout::Row(r) => r.1 <= i32::MAX,
        }
    }

    /// The extent given to the `i`-th of `n` windows.
    pub open spec fn slot(self, n: nat, i: int) -> Slot {
        match self {
            Layout::Column(c) => c.slot(n, i),
            Layout::Row(r) => r.slot(n, i),
        }
    }

    /// The windows after the layout placed each of them in its slot.
    pub open spec fn arranged(self, ws: Seq<WindowView>) -> Seq<WindowView> {
        Seq::new(ws.len(), |i: int| ws[i].placed(self.slot(ws.len(), i)))
    }

    /// The requests that placing the first `k` windows of `ws` issues, in order.
    pub open spec fn requests_upto(self, ws: Seq<WindowView>, k: int) -> Seq<Request>
        decreases k,
    {
        if k <= 0 {
            seq![]
        } else {
            self.requests_upto(ws, k - 1) + ws[k - 1].placement_requests(self.slot(ws.len(), k - 1))
        }
    }

    /// The requests that arranging `ws` issues, window by window in their order.
    pub open spec fn requests(self, ws: Seq<WindowView>) -> Seq<Request> {
        self.requests_upto(ws, ws.len() as int)
    }

    fn slot_at(&self, n: usize, i: usize) -> (r: Slot)
        requires
            self.fits(),
            i < n,
        ensures
            r == self.slot(n as nat, i as int),
    {
        match self {
            Layout::Column(c) => {
                let w: usize = c.0 as usize / n;
                proof {
                    lemma_part_within(c.0 as nat, n as nat, i as nat);
                }
                Slot { x: (i * w) as i32, y: 0, width: w as u32, height: c.1 }
            },
            Layout::Row(r) => {
                let h: usize = r.1 as usize / n;
                proof {
                    lemma_part_within(r.1 as nat, n as nat, i as nat);
                }
                Slot { x: 0, y: (i * h) as i32, width: r.0, height: h as u32 }
            },
        }
    }

    /// Places every window in its slot, in the collection's order. With no windows
    /// nothing changes and nothing is issued.
    pub fn apply(&self, windows: &mut Container, out: &mut Vec<Request>)
        requires
            self.fits(),
            old(windows).wf(),
        ensures
            final(windows)@ == self.arranged(old(windows)@),
            final(out)@ == old(out)@ + self.requests(old(windows)@),
            final(windows).wf(),
            old(windows)@.len() == 0 ==> final(windows)@ == old(windows)@ && final(out)@ == old(out)@,
    {
        let ghost ws = windows@;
        let ghost out0 = out@;
        let n = windows.len();
        let mut i: usize = 0;
        while i < n
            invariant
                self.fits(),
                n == ws.len(),
                i <= n,
                windows.wf(),
                windows@.len() == n,
                forall|j: int| 0 <= j < i ==> windows@[j] == ws[j].placed(self.slot(n as nat, j)),
                forall|j: int| i <= j < n ==> windows@[j] == ws[j],
                out@ == out0 + self.requests_upto(ws, i as int),
            decreases n - i,
        {
            let s = self.slot_at(n, i);
            windows.place(i, s, out);
            assert(out@ =~= out0 + self.requests_upto(ws, i as int + 1));
            i = i + 1;
        }
        assert(windows@ =~= self.arranged(ws));
        assert(out@ =~= out0 + self.requests(ws));
        proof {
            if ws.len() == 0 {
                assert(windows@ =~= ws);
            }
        }
    }
}

/// Column layout over `n >= 1` windows in a `W` by `H` area: the `i`-th window is
/// given the width `W / n` and the full height `H`, at `x = i * (W / n)`, `y = 0`; each
/// column ends inside the area, and the widths together come to no more than `W`.
pub proof fn column_layout_geometry(l: ColumnLayout, ws: Seq<WindowView>)
    requires
        ws.len() >= 1,
        Layout::Column(l).fits(),
    ensures
        ws.len() * (l.0 as nat / ws.len()) <= l.0,
        forall|i: int|
            0 <= i < ws.len() ==> {
                let s = #[trigger] Layout::Column(l).slot(ws.len(), i);
                &&& s.width == l.0 as nat / ws.len()
                &&& s.height == l.1
                &&& s.x == i * (l.0 as nat / ws.len())
                &&& s.y == 0
                &&& s.x + s.width <= l.0
                &&& Layout::Column(l).arranged(ws)[i] == ws[i].placed(s)
            },
{
    let n = ws.len();
    lemma_part_within(l.0 as nat, n, 0);
    assert forall|i: int| 0 <= i < n implies {
        let s = #[trigger] Layout::Column(l).slot(n, i);
        &&& s.width == l.0 as nat / n
        &&& s.height == l.1
        &&& s.x == i * (l.0 as nat / n)
        &&& s.y == 0
        &&& s.x + s.width <= l.0
        &&& Layout::Column(l).arranged(ws)[i] == ws[i].placed(s)
    } by {
        lemma_part_within(l.0 as nat, n, i as nat);
    }
}

/// Row layout is column layout transposed: in a `W` by `H` area the `i`-th of `n`
/// windows gets the slot that column layout gives it in an `H` by `W` area, with the
/// roles of x and y, and of width and height, swapped.
pub proof fn row_is_transposed_column(width: u32, height: u32, ws: Seq<WindowView>)
    ensures
        forall|i: int|
            0 <= i < ws.len() ==> #[trigger] Layout::Row(RowLayout(width, height)).slot(ws.len(), i)
                == Layout::Column(ColumnLayout(height, width)).slot(ws.len(), i).transposed(),
        forall|i: int|
            0 <= i < ws.len() ==> {
                let r = #[trigger] Layout::Row(RowLayout(width, height)).arranged(ws)[i];
                let c = Layout::Column(ColumnLayout(height, width)).arranged(ws)[i];
                &&& r.position == Position { x: c.position.y, y: c.position.x }
                &&& r.size == Size { width: c.size.height, height: c.size.width }
            },
{
}

proof fn lemma_requests_depend_on_identity(l: Layout, ws: Seq<WindowView>, k: int)
    requires
        0 <= k <= ws.len(),
    ensures
        l.requests_upto(l.arranged(ws), k) == l.requests_upto(ws, k),
    decreases k,
{
    if k > 0 {
        lemma_requests_depend_on_identity(l, ws, k - 1);
    }
}

/// Arranging windows that are already arranged changes nothing: applying a layout twice
/// in a row gives the same geometry and issues the same requests both times.
pub proof fn apply_is_idempotent(l: Layout, ws: Seq<WindowView>)
    ensures
        l.arranged(l.arranged(ws)) == l.arranged(ws),
        l.requests(l.arranged(ws)) == l.requests(ws),
{
    assert(l.arranged(l.arranged(ws)) =~= l.arranged(ws));
    lemma_requests_depend_on_identity(l, ws, ws.len() as int);
}

} // verus!
