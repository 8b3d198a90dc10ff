//! Raw protocol events and their translation into the event algebra the
//! window-manager core consumes.

use vstd::prelude::*;

verus! {

/// Protocol class number of a map request: a window asking to become
/// visible, intercepted by the window manager before the server honors it.
pub const MAP_REQUEST: u32 = 20;

/// Protocol class number of the pointer entering a window.
pub const ENTER_NOTIFY: u32 = 7;

/// Protocol class number of the pointer leaving a window.
pub const LEAVE_NOTIFY: u32 = 8;

/// Subscription bit: deliver pointer-enter events for the window.
pub const ENTER_WINDOW_MASK: u64 = 0x10;

/// Subscription bit: deliver pointer-leave events for the window.
pub const LEAVE_WINDOW_MASK: u64 = 0x20;

/// Subscription bit: deliver structural-change notifications for the
/// window's children.
pub const SUBSTRUCTURE_NOTIFY_MASK: u64 = 0x80000;

/// Subscription bit: redirect structural-change requests of the window's
/// children to this client, so map requests can be intercepted.
pub const SUBSTRUCTURE_REDIRECT_MASK: u64 = 0x100000;

/// Baseline subscription installed on the root window when the connection
/// is opened: structural events of the root's children plus pointer
/// enter/leave transitions (bit pattern 0x180030).
pub const ROOT_EVENT_MASK: u64 = SUBSTRUCTURE_REDIRECT_MASK | SUBSTRUCTURE_NOTIFY_MASK
    | ENTER_WINDOW_MASK | LEAVE_WINDOW_MASK;

/// Narrowed subscription for a window once it is managed: pointer
/// enter/leave transitions only (bit pattern 0x30); structural-change
/// notifications are dropped for already-mapped windows.
pub const MANAGED_EVENT_MASK: u64 = ENTER_WINDOW_MASK | LEAVE_WINDOW_MASK;

/// A raw event as delivered by the display server: the event-class
/// discriminant and the window the event concerns. Reading the
/// discriminant first and then only the fields valid for it replaces the
/// untyped scratch buffer a direct protocol binding would reinterpret.
#[derive(Clone, Copy, PartialEq, Eq, Structural, Debug)]
pub struct RawEvent {
    pub class: u32,
    pub window: u64,
}

/// The closed event algebra handed to the window-manager core. Exactly one
/// variant is produced per decoded raw event; values are transient and
/// never stored by this layer.
#[derive(Clone, Copy, PartialEq, Eq, Structural, Debug)]
pub enum WindowSystemEvent {
    /// A window asked to become visible and is now managed.
    WindowCreated(u64),
    /// Reserved for structural teardown notifications; never produced by
    /// [`decode`] today.
    WindowDestroyed(u64),
    /// The pointer entered the window.
    Enter(u64),
    /// The pointer left the window.
    Leave(u64),
    /// Any event class outside the recognized set.
    UnknownEvent,
}

/// Classification of a raw event. Total over every class value: anything
/// outside the recognized set falls through to `UnknownEvent`.
pub open spec fn decode(class: u32, window: u64) -> WindowSystemEvent {
    if class == MAP_REQUEST {
        WindowSystemEvent::WindowCreated(window)
    } else if class == ENTER_NOTIFY {
        WindowSystemEvent::Enter(window)
    } else if class == LEAVE_NOTIFY {
        WindowSystemEvent::Leave(window)
    } else {
        WindowSystemEvent::UnknownEvent
    }
}

/// Decoding is total: every event class outside the recognized set
/// {map request, enter, leave} yields `UnknownEvent`, and no class value
/// is left unclassified.
pub proof fn lemma_decode_total(class: u32, window: u64)
    ensures
        class != MAP_REQUEST && class != ENTER_NOTIFY && class != LEAVE_NOTIFY ==> decode(
            class,
            window,
        ) == WindowSystemEvent::UnknownEvent,
        class == MAP_REQUEST ==> decode(class, window) == WindowSystemEvent::WindowCreated(window),
        class == ENTER_NOTIFY ==> decode(class, window) == WindowSystemEvent::Enter(window),
        class == LEAVE_NOTIFY ==> decode(class, window) == WindowSystemEvent::Leave(window),
{
}

/// Executable classification of a raw event; agrees with [`decode`] on
/// every input.
pub fn decode_event(class: u32, window: u64) -> (e: WindowSystemEvent)
    ensures
        e == decode(class, window),
{
    if class == MAP_REQUEST {
        WindowSystemEvent::WindowCreated(window)
    } else if class == ENTER_NOTIFY {
        WindowSystemEvent::Enter(window)
    } else if class == LEAVE_NOTIFY {
        WindowSystemEvent::Leave(window)
    } else {
        WindowSystemEvent::UnknownEvent
    }
}

} // verus!
