//! The connection-facing surface of the layer: one owned connection to a
//! display server, verified against the server model.

use vstd::prelude::*;

use crate::events::MANAGED_EVENT_MASK;
use crate::events::MAP_REQUEST;
use crate::events::ROOT_EVENT_MASK;
use crate::events::WindowSystemEvent;
use crate::events::decode;
use crate::events::decode_event;
use crate::geometry::Rectangle;
use crate::server::ServerState;
use crate::server::border_color_update;
use crate::server::border_width_update;
use crate::server::children_of;
use crate::server::lemma_children_exclude_root;
use crate::server::lemma_mask_update_preserves_others;
use crate::server::lemma_mask_update_sets_mask;
use crate::server::lookup;
use crate::server::map_update;
use crate::server::mask_of;
use crate::server::mask_update;
use crate::server::name_of;
use crate::server::position_update;
use crate::server::same_config;
use crate::server::same_except_windows;
use crate::server::size_update;

verus! {

/// The display server could not be reached when the connection was
/// opened. Unrecoverable: it must surface as a fatal condition at process
/// startup, before any other component runs.
#[derive(Clone, Copy, PartialEq, Eq, Structural, Debug)]
pub struct ConnectionError;

/// The synthetic single screen covering the default logical screen,
/// returned when the multi-monitor query yields no entries.
pub open spec fn fallback_screen(s: ServerState) -> Rectangle {
    Rectangle(0, 0, s.screens@[0].width, s.screens@[0].height)
}

/// One open connection to a display server. It owns the connection
/// resource and the root window handle; exactly one exists per process in
/// this design, created at startup and living for the process lifetime.
pub struct XlibWindowSystem {
    /// The observable state of the server this connection talks to.
    pub server: ServerState,
    /// The root window handle, resolved when the connection was opened.
    pub root: u64,
}

impl XlibWindowSystem {
    /// The root handle is the one the server reported, and the server
    /// state is well formed.
    pub open spec fn wf(self) -> bool {
        &&& self.server.wf()
        &&& self.root == self.server.root
    }

    /// Open the connection: resolve the default screen and its root
    /// window, and subscribe the root to the baseline event classes needed
    /// to observe new top-level windows and pointer enter/leave
    /// transitions. Fails exactly when the server cannot be reached.
    pub fn new(server: ServerState) -> (r: Result<XlibWindowSystem, ConnectionError>)
        requires
            server.wf(),
        ensures
            r is Ok <==> server.reachable,
            r matches Ok(ws) ==> {
                &&& ws.wf()
                &&& ws.root == server.root
                &&& same_except_windows(server, ws.server)
                &&& ws.server.windows@.len() == server.windows@.len()
                &&& forall|i: int|
                    0 <= i < server.windows@.len() ==> ws.server.windows@[i] == mask_update(
                        #[trigger] server.windows@[i],
                        server.root,
                        ROOT_EVENT_MASK,
                    )
            },
    {
        if !server.reachable {
            return Err(ConnectionError);
        }
        let root = server.root;
        let mut server = server;
        server.select_input(root, ROOT_EVENT_MASK);
        Ok(XlibWindowSystem { server, root })
    }

    /// The monitors the multi-monitor extension reports, in reported
    /// order; when the query yields no entries, a single synthetic screen
    /// spanning the default logical screen. Never empty: downstream layout
    /// logic assumes at least one screen exists.
    pub fn get_screen_infos(&self) -> (r: Vec<Rectangle>)
        requires
            self.wf(),
        ensures
            r@.len() > 0,
            self.server.monitors@.len() == 0 ==> r@ == seq![fallback_screen(self.server)],
            self.server.monitors@.len() > 0 ==> r@ == self.server.monitors@,
    {
        if self.server.monitors.len() == 0 {
            let width = self.server.screens[0].width;
            let height = self.server.screens[0].height;
            let mut v: Vec<Rectangle> = Vec::new();
            v.push(Rectangle(0, 0, width, height));
            proof {
                assert(v@ =~= seq![fallback_screen(self.server)]);
            }
            v
        } else {
            let n = self.server.monitors.len();
            let mut v: Vec<Rectangle> = Vec::new();
            let mut i: usize = 0;
            while i < n
                invariant
                    i <= n,
                    n == self.server.monitors@.len(),
                    v@ == self.server.monitors@.subrange(0, i as int),
                decreases n - i,
            {
                v.push(self.server.monitors[i]);
                proof {
                    assert(v@ =~= self.server.monitors@.subrange(0, i + 1 as int));
                }
                i = i + 1;
            }
            proof {
                assert(v@ =~= self.server.monitors@);
            }
            v
        }
    }

    /// The number of logical screens the server exposes; distinct from the
    /// multi-monitor count reported by [`Self::get_screen_infos`].
    pub fn get_number_of_screens(&self) -> (n: usize)
        ensures
            n == self.server.screens@.len(),
    {
        self.server.screens.len()
    }

    /// Pixel width of the logical screen with the given index; rejects an
    /// out-of-range index instead of leaving the result undefined.
    pub fn get_display_width(&self, screen: usize) -> (r: Option<u32>)
        ensures
            screen < self.server.screens@.len() ==> r == Some(
                self.server.screens@[screen as int].width,
            ),
            screen >= self.server.screens@.len() ==> r is None,
    {
        if screen < self.server.screens.len() {
            Some(self.server.screens[screen].width)
        } else {
            None
        }
    }

    /// Pixel height of the logical screen with the given index; rejects an
    /// out-of-range index instead of leaving the result undefined.
    pub fn get_display_height(&self, screen: usize) -> (r: Option<u32>)
        ensures
            screen < self.server.screens@.len() ==> r == Some(
                self.server.screens@[screen as int].height,
            ),
            screen >= self.server.screens@.len() ==> r is None,
    {
        if screen < self.server.screens.len() {
            Some(self.server.screens[screen].height)
        } else {
            None
        }
    }

    /// The window's display title. For the root handle the sentinel text
    /// `"root"` is returned without consulting the server, whatever its
    /// state; for any other handle the server-side title, or the empty
    /// string when the server has none or does not know the window.
    pub fn get_window_name(&self, window: u64) -> (r: String)
        ensures
            window == self.root ==> r@ == "root"@,
            window != self.root ==> r@ == name_of(self.server.windows@, window),
    {
        if window == self.root {
            return "root".to_owned();
        }
        let ws = &self.server.windows;
        let n = ws.len();
        let mut i: usize = 0;
        proof {
            assert(ws@.skip(0) =~= ws@);
        }
        while i < n
            invariant
                i <= n,
                n == ws@.len(),
                ws == self.server.windows,
                window != self.root,
                name_of(self.server.windows@, window) == name_of(ws@.skip(i as int), window),
            decreases n - i,
        {
            if ws[i].handle == window {
                proof {
                    assert(ws@.skip(i as int)[0] == ws@[i as int]);
                }
                return ws[i].name.clone();
            }
            proof {
                assert(ws@.skip(i as int).skip(1) =~= ws@.skip(i + 1 as int));
            }
            i = i + 1;
        }
        String::new()
    }

    /// The direct children of the root window in server-reported order,
    /// with the root itself excluded even if the server includes it. Each
    /// handle is unique per query, so no deduplication is done; the
    /// result never contains the root handle.
    pub fn get_windows(&self) -> (r: Vec<u64>)
        ensures
            r@ == children_of(self.server.windows@, self.root),
            forall|j: int| 0 <= j < r@.len() ==> #[trigger] r@[j] != self.root,
    {
        let ws = &self.server.windows;
        let n = ws.len();
        let mut v: Vec<u64> = Vec::new();
        let mut i: usize = 0;
        while i < n
            invariant
                i <= n,
                n == ws@.len(),
                ws == self.server.windows,
                v@ == children_of(ws@.subrange(0, i as int), self.root),
            decreases n - i,
        {
            proof {
                assert(ws@.subrange(0, i + 1 as int).drop_last() =~= ws@.subrange(0, i as int));
                assert(ws@.subrange(0, i + 1 as int).last() == ws@[i as int]);
            }
            if ws[i].handle != self.root {
                v.push(ws[i].handle);
            }
            i = i + 1;
        }
        proof {
            assert(ws@.subrange(0, n as int) =~= ws@);
            lemma_children_exclude_root(self.server.windows@, self.root);
        }
        v
    }

    /// Set the window's border width. A no-op when the handle is the root
    /// window, leaving the whole connection state unchanged however often
    /// it is called; otherwise the request is forwarded to the server,
    /// fire-and-forget.
    pub fn set_window_border_width(&mut self, window: u64, border_width: u32)
        ensures
            window == old(self).root ==> *final(self) == *old(self),
            window != old(self).root ==> {
                &&& final(self).root == old(self).root
                &&& same_except_windows(old(self).server, final(self).server)
                &&& final(self).server.windows@.len() == old(self).server.windows@.len()
                &&& forall|i: int|
                    0 <= i < old(self).server.windows@.len() ==> final(self).server.windows@[i]
                        == border_width_update(
                        #[trigger] old(self).server.windows@[i],
                        window,
                        border_width,
                    )
            },
    {
        if window == self.root {
            return ;
        }
        self.server.set_border_width(window, border_width);
    }

    /// Set the window's border color. A no-op when the handle is the root
    /// window, leaving the whole connection state unchanged however often
    /// it is called; otherwise the request is forwarded to the server,
    /// fire-and-forget.
    pub fn set_window_border_color(&mut self, window: u64, border_color: u64)
        ensures
            window == old(self).root ==> *final(self) == *old(self),
            window != old(self).root ==> {
                &&& final(self).root == old(self).root
                &&& same_except_windows(old(self).server, final(self).server)
                &&& final(self).server.windows@.len() == old(self).server.windows@.len()
                &&& forall|i: int|
                    0 <= i < old(self).server.windows@.len() ==> final(self).server.windows@[i]
                        == border_color_update(
                        #[trigger] old(self).server.windows@[i],
                        window,
                        border_color,
                    )
            },
    {
        if window == self.root {
            return ;
        }
        self.server.set_border_color(window, border_color);
    }

    /// Resize the window. Unconditional, root included: callers are
    /// trusted not to resize the root in practice.
    pub fn resize_window(&mut self, window: u64, width: u32, height: u32)
        ensures
            final(self).root == old(self).root,
            same_except_windows(old(self).server, final(self).server),
            final(self).server.windows@.len() == old(self).server.windows@.len(),
            forall|i: int|
                0 <= i < old(self).server.windows@.len() ==> final(self).server.windows@[i]
                    == size_update(#[trigger] old(self).server.windows@[i], window, width, height),
    {
        self.server.resize(window, width, height);
    }

    /// Move the window to `(x, y)`. Unconditional, root included.
    pub fn move_window(&mut self, window: u64, x: u32, y: u32)
        ensures
            final(self).root == old(self).root,
            same_except_windows(old(self).server, final(self).server),
            final(self).server.windows@.len() == old(self).server.windows@.len(),
            forall|i: int|
                0 <= i < old(self).server.windows@.len() ==> final(self).server.windows@[i]
                    == position_update(#[trigger] old(self).server.windows@[i], window, x, y),
    {
        self.server.move_to(window, x, y);
    }

    /// Ask the server to make the window visible (map it). Position and
    /// stacking order are untouched.
    pub fn show_window(&mut self, window: u64)
        ensures
            final(self).root == old(self).root,
            same_except_windows(old(self).server, final(self).server),
            final(self).server.windows@.len() == old(self).server.windows@.len(),
            forall|i: int|
                0 <= i < old(self).server.windows@.len() ==> final(self).server.windows@[i]
                    == map_update(#[trigger] old(self).server.windows@[i], window),
    {
        self.server.map_window(window);
    }

    /// Whether the server has buffered at least one event; the
    /// non-blocking check the window-manager core polls before committing
    /// to the blocking fetch.
    pub fn event_pending(&self) -> (b: bool)
        ensures
            b == (self.server.pending@.len() > 0),
    {
        self.server.pending.len() > 0
    }

    /// Take the next raw event off the server's queue and classify it.
    ///
    /// A map request first narrows the window's event subscription to the
    /// managed mask — before the event is returned, or the core could miss
    /// enter/leave transitions — and then yields `WindowCreated`; pointer
    /// enter and leave events yield `Enter` and `Leave`; every other class
    /// yields `UnknownEvent`, so classification is total and never fails.
    /// The live transport blocks until an event arrives; on the model that
    /// is expressed by requiring a buffered event, which the caller
    /// establishes by polling [`Self::event_pending`].
    pub fn get_event(&mut self) -> (e: WindowSystemEvent)
        requires
            old(self).server.pending@.len() > 0,
        ensures
            e == decode(old(self).server.pending@[0].class, old(self).server.pending@[0].window),
            final(self).root == old(self).root,
            same_config(old(self).server, final(self).server),
            final(self).server.pending@ == old(self).server.pending@.skip(1),
            old(self).server.pending@[0].class == MAP_REQUEST ==> {
                &&& final(self).server.windows@.len() == old(self).server.windows@.len()
                &&& forall|i: int|
                    0 <= i < old(self).server.windows@.len() ==> final(self).server.windows@[i]
                        == mask_update(
                        #[trigger] old(self).server.windows@[i],
                        old(self).server.pending@[0].window,
                        MANAGED_EVENT_MASK,
                    )
            },
            old(self).server.pending@[0].class != MAP_REQUEST ==> final(self).server.windows@
                == old(self).server.windows@,
            old(self).server.pending@[0].class == MAP_REQUEST && lookup(
                old(self).server.windows@,
                old(self).server.pending@[0].window,
            ) is Some ==> mask_of(
                final(self).server.windows@,
                old(self).server.pending@[0].window,
            ) == MANAGED_EVENT_MASK,
            forall|v: u64|
                v != old(self).server.pending@[0].window ==> #[trigger] lookup(
                    final(self).server.windows@,
                    v,
                ) == lookup(old(self).server.windows@, v),
    {
        let ev = self.server.pending.remove(0);
        proof {
            assert(old(self).server.pending@.remove(0) =~= old(self).server.pending@.skip(1));
        }
        let e = decode_event(ev.class, ev.window);
        if ev.class == MAP_REQUEST {
            self.server.select_input(ev.window, MANAGED_EVENT_MASK);
            proof {
                if lookup(old(self).server.windows@, ev.window) is Some {
                    lemma_mask_update_sets_mask(
                        old(self).server.windows@,
                        self.server.windows@,
                        ev.window,
                        MANAGED_EVENT_MASK,
                    );
                }
                assert forall|v: u64| v != ev.window implies #[trigger] lookup(
                    self.server.windows@,
                    v,
                ) == lookup(old(self).server.windows@, v) by {
                    lemma_mask_update_preserves_others(
                        old(self).server.windows@,
                        self.server.windows@,
                        ev.window,
                        MANAGED_EVENT_MASK,
                        v,
                    );
                }
            }
        }
        e
    }
}

} // verus!
