//! Platform abstraction layer for a tiling window manager.
//!
//! The layer owns a connection to a display server, discovers monitor
//! geometry, enumerates and mutates top-level windows, and translates the
//! server's raw event stream into a small tagged event algebra consumed by
//! the window-manager core.
//!
//! The observable state of the display server is modeled explicitly by
//! [`server::ServerState`]: a list of window records, the monitor layout,
//! the logical screens and the queue of raw events still to be delivered.
//! Every operation of [`window_system::XlibWindowSystem`] is specified and
//! verified against that model; the unverified transport that feeds the
//! model from a live server lives outside this crate.

pub mod events;
pub mod geometry;
pub mod server;
pub mod window_system;
