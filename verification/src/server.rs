//! The model of the display server's observable state.
//!
//! The server is the source of truth for window state; this layer never
//! caches a window list. `ServerState` records exactly what the layer can
//! observe or change through the protocol: the window tree under the root,
//! each window's event subscription and decoration, the monitor layout,
//! the logical screens, and the queue of raw events not yet delivered.

use vstd::prelude::*;

use crate::events::RawEvent;
use crate::geometry::Rectangle;
use crate::geometry::ScreenSize;

verus! {

/// Everything this layer can observe or change of one window. A missing
/// server-side title is represented by the empty string, so a name fetch
/// never yields an undefined value.
#[derive(Debug)]
pub struct WindowRecord {
    /// The server-assigned handle; unique within one server state.
    pub handle: u64,
    /// Horizontal position in server pixel coordinates.
    pub x: u32,
    /// Vertical position in server pixel coordinates.
    pub y: u32,
    /// Width in pixels.
    pub width: u32,
    /// Height in pixels.
    pub height: u32,
    /// Border width in pixels.
    pub border_width: u32,
    /// Border color as a raw pixel value.
    pub border_color: u64,
    /// The set of event classes the window currently delivers to this layer.
    pub event_mask: u64,
    /// Whether the window is currently mapped (visible).
    pub mapped: bool,
    /// The window's title; empty when the server has none.
    pub name: String,
}

/// The observable state of one display server, as seen over one
/// connection.
#[derive(Debug)]
pub struct ServerState {
    /// Whether the server can be reached at all; opening a connection to an
    /// unreachable server fails.
    pub reachable: bool,
    /// The handle of the root window of the default screen.
    pub root: u64,
    /// The windows the server knows, in server-reported order. The root may
    /// or may not appear here; enumeration filters it out either way.
    pub windows: Vec<WindowRecord>,
    /// The monitors the multi-monitor extension reports; empty when the
    /// extension is not installed, the setup is single-headed, or the query
    /// fails.
    pub monitors: Vec<Rectangle>,
    /// The logical screens of the server, indexed by screen number.
    pub screens: Vec<ScreenSize>,
    /// Raw events buffered by the server, oldest first.
    pub pending: Vec<RawEvent>,
}

impl ServerState {
    /// A server always resolves a default logical screen, so a well-formed
    /// state exposes at least one.
    pub open spec fn wf(self) -> bool {
        self.screens@.len() >= 1
    }
}

/// The record of the first window in `ws` whose handle is `w`, if any.
pub open spec fn lookup(ws: Seq<WindowRecord>, w: u64) -> Option<WindowRecord>
    decreases ws.len(),
{
    if ws.len() == 0 {
        None
    } else if ws[0].handle == w {
        Some(ws[0])
    } else {
        lookup(ws.skip(1), w)
    }
}

/// The event subscription mask the server associates with window `w`;
/// zero when the server does not know `w`.
pub open spec fn mask_of(ws: Seq<WindowRecord>, w: u64) -> u64 {
    match lookup(ws, w) {
        Some(r) => r.event_mask,
        None => 0,
    }
}

/// The title the server associates with window `w`; empty when the window
/// is unknown or has no title.
pub open spec fn name_of(ws: Seq<WindowRecord>, w: u64) -> Seq<char> {
    match lookup(ws, w) {
        Some(r) => r.name@,
        None => Seq::empty(),
    }
}

/// The handles of the server's windows in server-reported order, with the
/// root excluded even if the server includes it.
pub open spec fn children_of(ws: Seq<WindowRecord>, root: u64) -> Seq<u64>
    decreases ws.len(),
{
    if ws.len() == 0 {
        Seq::empty()
    } else {
        let rest = children_of(ws.drop_last(), root);
        if ws.last().handle == root {
            rest
        } else {
            rest.push(ws.last().handle)
        }
    }
}

/// Window enumeration never contains the root handle, for any server
/// state.
pub proof fn lemma_children_exclude_root(ws: Seq<WindowRecord>, root: u64)
    ensures
        forall|j: int|
            0 <= j < children_of(ws, root).len() ==> #[trigger] children_of(ws, root)[j] != root,
    decreases ws.len(),
{
    if ws.len() > 0 {
        lemma_children_exclude_root(ws.drop_last(), root);
        let rest = children_of(ws.drop_last(), root);
        let all = children_of(ws, root);
        assert forall|j: int| 0 <= j < all.len() implies #[trigger] all[j] != root by {
            if ws.last().handle != root && j == all.len() - 1 {
                assert(all[j] == ws.last().handle);
            } else {
                assert(all[j] == rest[j]);
            }
        }
    }
}

/// `r` with its event subscription mask replaced when it is window `w`,
/// unchanged otherwise.
pub open spec fn mask_update(r: WindowRecord, w: u64, mask: u64) -> WindowRecord {
    if r.handle == w {
        WindowRecord { event_mask: mask, ..r }
    } else {
        r
    }
}

/// `r` with its border width replaced when it is window `w`.
pub open spec fn border_width_update(r: WindowRecord, w: u64, bw: u32) -> WindowRecord {
    if r.handle == w {
        WindowRecord { border_width: bw, ..r }
    } else {
        r
    }
}

/// `r` with its border color replaced when it is window `w`.
pub open spec fn border_color_update(r: WindowRecord, w: u64, color: u64) -> WindowRecord {
    if r.handle == w {
        WindowRecord { border_color: color, ..r }
    } else {
        r
    }
}

/// `r` with its width and height replaced when it is window `w`.
pub open spec fn size_update(r: WindowRecord, w: u64, width: u32, height: u32) -> WindowRecord {
    if r.handle == w {
        WindowRecord { width: width, height: height, ..r }
    } else {
        r
    }
}

/// `r` moved to `(x, y)` when it is window `w`.
pub open spec fn position_update(r: WindowRecord, w: u64, x: u32, y: u32) -> WindowRecord {
    if r.handle == w {
        WindowRecord { x: x, y: y, ..r }
    } else {
        r
    }
}

/// `r` marked mapped when it is window `w`.
pub open spec fn map_update(r: WindowRecord, w: u64) -> WindowRecord {
    if r.handle == w {
        WindowRecord { mapped: true, ..r }
    } else {
        r
    }
}

/// The two states agree on everything but the window records.
pub open spec fn same_except_windows(a: ServerState, b: ServerState) -> bool {
    &&& b.reachable == a.reachable
    &&& b.root == a.root
    &&& b.monitors@ == a.monitors@
    &&& b.screens@ == a.screens@
    &&& b.pending@ == a.pending@
}

/// The two states agree on reachability, root and geometry; the window
/// records and the pending queue may differ.
pub open spec fn same_config(a: ServerState, b: ServerState) -> bool {
    &&& b.reachable == a.reachable
    &&& b.root == a.root
    &&& b.monitors@ == a.monitors@
    &&& b.screens@ == a.screens@
}

/// After a pointwise mask update for window `w`, a window the server knows
/// carries exactly the new mask.
pub proof fn lemma_mask_update_sets_mask(
    ws1: Seq<WindowRecord>,
    ws2: Seq<WindowRecord>,
    w: u64,
    mask: u64,
)
    requires
        ws2.len() == ws1.len(),
        forall|i: int| 0 <= i < ws1.len() ==> ws2[i] == mask_update(#[trigger] ws1[i], w, mask),
        lookup(ws1, w) is Some,
    ensures
        lookup(ws2, w) is Some,
        mask_of(ws2, w) == mask,
    decreases ws1.len(),
{
    assert(ws1.len() > 0);
    if ws1[0].handle == w {
        assert(ws2[0] == mask_update(ws1[0], w, mask));
    } else {
        assert(ws2[0] == mask_update(ws1[0], w, mask));
        assert(ws2[0].handle != w);
        let t1 = ws1.skip(1);
        let t2 = ws2.skip(1);
        assert forall|i: int| 0 <= i < t1.len() implies t2[i] == mask_update(
            #[trigger] t1[i],
            w,
            mask,
        ) by {
            assert(t1[i] == ws1[i + 1]);
            assert(t2[i] == ws2[i + 1]);
        }
        lemma_mask_update_sets_mask(t1, t2, w, mask);
    }
}

/// A pointwise mask update for window `w` leaves every other window's
/// record untouched.
pub proof fn lemma_mask_update_preserves_others(
    ws1: Seq<WindowRecord>,
    ws2: Seq<WindowRecord>,
    w: u64,
    mask: u64,
    v: u64,
)
    requires
        ws2.len() == ws1.len(),
        forall|i: int| 0 <= i < ws1.len() ==> ws2[i] == mask_update(#[trigger] ws1[i], w, mask),
        v != w,
    ensures
        lookup(ws2, v) == lookup(ws1, v),
    decreases ws1.len(),
{
    if ws1.len() > 0 {
        assert(ws2[0] == mask_update(ws1[0], w, mask));
        assert(ws2[0].handle == ws1[0].handle);
        if ws1[0].handle != v {
            let t1 = ws1.skip(1);
            let t2 = ws2.skip(1);
            assert forall|i: int| 0 <= i < t1.len() implies t2[i] == mask_update(
                #[trigger] t1[i],
                w,
                mask,
            ) by {
                assert(t1[i] == ws1[i + 1]);
                assert(t2[i] == ws2[i + 1]);
            }
            lemma_mask_update_preserves_others(t1, t2, w, mask, v);
        }
    }
}

impl ServerState {
    /// Replace window `w`'s event subscription mask, as the protocol's
    /// select-input request does. Every record of `w` is rewritten; all
    /// other records and all other state are untouched.
    pub fn select_input(&mut self, w: u64, mask: u64)
        ensures
            same_except_windows(*old(self), *final(self)),
            final(self).windows@.len() == old(self).windows@.len(),
            forall|i: int|
                0 <= i < old(self).windows@.len() ==> final(self).windows@[i] == mask_update(
                    #[trigger] old(self).windows@[i],
                    w,
                    mask,
                ),
    {
        let n = self.windows.len();
        let mut i: usize = 0;
        while i < n
            invariant
                i <= n,
                n == self.windows@.len(),
                same_except_windows(*old(self), *self),
                self.windows@.len() == old(self).windows@.len(),
                forall|j: int|
                    0 <= j < i ==> self.windows@[j] == mask_update(
                        #[trigger] old(self).windows@[j],
                        w,
                        mask,
                    ),
                forall|j: int|
                    i <= j < self.windows@.len() ==> self.windows@[j] == old(self).windows@[j],
            decreases n - i,
        {
            if self.windows[i].handle == w {
                self.windows[i].event_mask = mask;
            }
            i = i + 1;
        }
    }

    /// Set window `w`'s border width, as the protocol's border-width
    /// request does.
    pub fn set_border_width(&mut self, w: u64, bw: u32)
        ensures
            same_except_windows(*old(self), *final(self)),
            final(self).windows@.len() == old(self).windows@.len(),
            forall|i: int|
                0 <= i < old(self).windows@.len() ==> final(self).windows@[i]
                    == border_width_update(#[trigger] old(self).windows@[i], w, bw),
    {
        let n = self.windows.len();
        let mut i: usize = 0;
        while i < n
            invariant
                i <= n,
                n == self.windows@.len(),
                same_except_windows(*old(self), *self),
                self.windows@.len() == old(self).windows@.len(),
                forall|j: int|
                    0 <= j < i ==> self.windows@[j] == border_width_update(
                        #[trigger] old(self).windows@[j],
                        w,
                        bw,
                    ),
                forall|j: int|
                    i <= j < self.windows@.len() ==> self.windows@[j] == old(self).windows@[j],
            decreases n - i,
        {
            if self.windows[i].handle == w {
                self.windows[i].border_width = bw;
            }
            i = i + 1;
        }
    }

    /// Set window `w`'s border color, as the protocol's border request
    /// does.
    pub fn set_border_color(&mut self, w: u64, color: u64)
        ensures
            same_except_windows(*old(self), *final(self)),
            final(self).windows@.len() == old(self).windows@.len(),
            forall|i: int|
                0 <= i < old(self).windows@.len() ==> final(self).windows@[i]
                    == border_color_update(#[trigger] old(self).windows@[i], w, color),
    {
        let n = self.windows.len();
        let mut i: usize = 0;
        while i < n
            invariant
                i <= n,
                n == self.windows@.len(),
                same_except_windows(*old(self), *self),
                self.windows@.len() == old(self).windows@.len(),
                forall|j: int|
                    0 <= j < i ==> self.windows@[j] == border_color_update(
                        #[trigger] old(self).windows@[j],
                        w,
                        color,
                    ),
                forall|j: int|
                    i <= j < self.windows@.len() ==> self.windows@[j] == old(self).windows@[j],
            decreases n - i,
        {
            if self.windows[i].handle == w {
                self.windows[i].border_color = color;
            }
            i = i + 1;
        }
    }

    /// Set window `w`'s width and height, as the protocol's resize request
    /// does.
    pub fn resize(&mut self, w: u64, width: u32, height: u32)
        ensures
            same_except_windows(*old(self), *final(self)),
            final(self).windows@.len() == old(self).windows@.len(),
            forall|i: int|
                0 <= i < old(self).windows@.len() ==> final(self).windows@[i] == size_update(
                    #[trigger] old(self).windows@[i],
                    w,
                    width,
                    height,
                ),
    {
        let n = self.windows.len();
        let mut i: usize = 0;
        while i < n
            invariant
                i <= n,
                n == self.windows@.len(),
                same_except_windows(*old(self), *self),
                self.windows@.len() == old(self).windows@.len(),
                forall|j: int|
                    0 <= j < i ==> self.windows@[j] == size_update(
                        #[trigger] old(self).windows@[j],
                        w,
                        width,
                        height,
                    ),
                forall|j: int|
                    i <= j < self.windows@.len() ==> self.windows@[j] == old(self).windows@[j],
            decreases n - i,
        {
            if self.windows[i].handle == w {
                self.windows[i].width = width;
                self.windows[i].height = height;
            }
            i = i + 1;
        }
    }

    /// Move window `w` to `(x, y)`, as the protocol's move request does.
    pub fn move_to(&mut self, w: u64, x: u32, y: u32)
        ensures
            same_except_windows(*old(self), *final(self)),
            final(self).windows@.len() == old(self).windows@.len(),
            forall|i: int|
                0 <= i < old(self).windows@.len() ==> final(self).windows@[i] == position_update(
                    #[trigger] old(self).windows@[i],
                    w,
                    x,
                    y,
                ),
    {
        let n = self.windows.len();
        let mut i: usize = 0;
        while i < n
            invariant
                i <= n,
                n == self.windows@.len(),
                same_except_windows(*old(self), *self),
                self.windows@.len() == old(self).windows@.len(),
                forall|j: int|
                    0 <= j < i ==> self.windows@[j] == position_update(
                        #[trigger] old(self).windows@[j],
                        w,
                        x,
                        y,
                    ),
                forall|j: int|
                    i <= j < self.windows@.len() ==> self.windows@[j] == old(self).windows@[j],
            decreases n - i,
        {
            if self.windows[i].handle == w {
                self.windows[i].x = x;
                self.windows[i].y = y;
            }
            i = i + 1;
        }
    }

    /// Mark window `w` mapped (visible), as the protocol's map request
    /// does. Position and stacking are untouched.
    pub fn map_window(&mut self, w: u64)
        ensures
            same_except_windows(*old(self), *final(self)),
            final(self).windows@.len() == old(self).windows@.len(),
            forall|i: int|
                0 <= i < old(self).windows@.len() ==> final(self).windows@[i] == map_update(
                    #[trigger] old(self).windows@[i],
                    w,
                ),
    {
        let n = self.windows.len();
        let mut i: usize = 0;
        while i < n
            invariant
                i <= n,
                n == self.windows@.len(),
                same_except_windows(*old(self), *self),
                self.windows@.len() == old(self).windows@.len(),
                forall|j: int|
                    0 <= j < i ==> self.windows@[j] == map_update(
                        #[trigger] old(self).windows@[j],
                        w,
                    ),
                forall|j: int|
                    i <= j < self.windows@.len() ==> self.windows@[j] == old(self).windows@[j],
            decreases n - i,
        {
            if self.windows[i].handle == w {
                self.windows[i].mapped = true;
            }
            i = i + 1;
        }
    }
}

} // verus!
