//! End-to-end tests driving the library against mock server states.

use xlib_window_system::events::RawEvent;
use xlib_window_system::events::WindowSystemEvent;
use xlib_window_system::events::ENTER_NOTIFY;
use xlib_window_system::events::LEAVE_NOTIFY;
use xlib_window_system::events::MANAGED_EVENT_MASK;
use xlib_window_system::events::MAP_REQUEST;
use xlib_window_system::events::ROOT_EVENT_MASK;
use xlib_window_system::geometry::Rectangle;
use xlib_window_system::geometry::ScreenSize;
use xlib_window_system::server::ServerState;
use xlib_window_system::server::WindowRecord;
use xlib_window_system::window_system::XlibWindowSystem;

const ROOT: u64 = 1;

fn window(handle: u64, name: &str) -> WindowRecord {
    WindowRecord {
        handle,
        x: 0,
        y: 0,
        width: 100,
        height: 100,
        border_width: 0,
        border_color: 0,
        event_mask: 0,
        mapped: false,
        name: name.to_owned(),
    }
}

fn server(windows: Vec<WindowRecord>, pending: Vec<RawEvent>) -> ServerState {
    ServerState {
        reachable: true,
        root: ROOT,
        windows,
        monitors: vec![],
        screens: vec![ScreenSize { width: 1920, height: 1080 }],
        pending,
    }
}

fn connect(windows: Vec<WindowRecord>, pending: Vec<RawEvent>) -> XlibWindowSystem {
    XlibWindowSystem::new(server(windows, pending)).unwrap()
}

fn mask_in(ws: &XlibWindowSystem, handle: u64) -> u64 {
    ws.server
        .windows
        .iter()
        .find(|r| r.handle == handle)
        .expect("window should exist")
        .event_mask
}

#[test]
fn connection_failure_is_fatal() {
    let mut s = server(vec![], vec![]);
    s.reachable = false;
    assert!(XlibWindowSystem::new(s).is_err());
}

#[test]
fn open_subscribes_root_to_baseline_mask() {
    let ws = connect(vec![window(ROOT, ""), window(7, "term")], vec![]);
    assert_eq!(mask_in(&ws, ROOT), ROOT_EVENT_MASK);
    assert_eq!(mask_in(&ws, ROOT), 0x180030);
    assert_eq!(mask_in(&ws, 7), 0);
}

#[test]
fn screens_fall_back_to_single_synthetic_screen() {
    let ws = connect(vec![], vec![]);
    let screens = ws.get_screen_infos();
    let w = ws.get_display_width(0).unwrap();
    let h = ws.get_display_height(0).unwrap();
    assert_eq!(screens, vec![Rectangle(0, 0, w, h)]);
    assert_eq!(screens, vec![Rectangle(0, 0, 1920, 1080)]);
}

#[test]
fn screens_report_two_monitors_in_order() {
    let mut s = server(vec![], vec![]);
    s.monitors = vec![Rectangle(0, 0, 1920, 1080), Rectangle(1920, 0, 1920, 1080)];
    s.screens = vec![ScreenSize { width: 3840, height: 1080 }];
    let ws = XlibWindowSystem::new(s).unwrap();
    assert_eq!(
        ws.get_screen_infos(),
        vec![Rectangle(0, 0, 1920, 1080), Rectangle(1920, 0, 1920, 1080)]
    );
    // The logical-screen count is independent of the monitor count.
    assert_eq!(ws.get_number_of_screens(), 1);
}

#[test]
fn display_dimensions_are_checked_per_screen() {
    let mut s = server(vec![], vec![]);
    s.screens = vec![
        ScreenSize { width: 1920, height: 1080 },
        ScreenSize { width: 1280, height: 1024 },
    ];
    let ws = XlibWindowSystem::new(s).unwrap();
    assert_eq!(ws.get_number_of_screens(), 2);
    assert_eq!(ws.get_display_width(0), Some(1920));
    assert_eq!(ws.get_display_height(0), Some(1080));
    assert_eq!(ws.get_display_width(1), Some(1280));
    assert_eq!(ws.get_display_height(1), Some(1024));
    assert_eq!(ws.get_display_width(2), None);
    assert_eq!(ws.get_display_height(2), None);
}

#[test]
fn windows_exclude_root_even_if_reported() {
    let ws = connect(
        vec![window(5, "a"), window(ROOT, ""), window(9, "b")],
        vec![],
    );
    assert_eq!(ws.get_windows(), vec![5, 9]);
}

#[test]
fn windows_empty_when_server_reports_none() {
    let ws = connect(vec![window(ROOT, "")], vec![]);
    assert_eq!(ws.get_windows(), Vec::<u64>::new());
}

#[test]
fn window_name_of_root_is_sentinel() {
    // Even a server-side title on the root record is never consulted.
    let ws = connect(vec![window(ROOT, "not the sentinel")], vec![]);
    assert_eq!(ws.get_window_name(ROOT), "root");
}

#[test]
fn window_name_fetches_server_title() {
    let ws = connect(vec![window(5, "editor"), window(9, "")], vec![]);
    assert_eq!(ws.get_window_name(5), "editor");
    // Untitled window: empty text, not an undefined value.
    assert_eq!(ws.get_window_name(9), "");
    // Unknown window: same documented fallback.
    assert_eq!(ws.get_window_name(42), "");
}

#[test]
fn decoding_is_total_over_unknown_classes() {
    let classes: Vec<u32> = vec![0, 1, 2, 6, 12, 19, 21, 33, 34, 99, u32::MAX];
    let pending: Vec<RawEvent> = classes
        .iter()
        .map(|&class| RawEvent { class, window: 7 })
        .collect();
    let mut ws = connect(vec![window(7, "x")], pending);
    for _ in &classes {
        assert!(ws.event_pending());
        assert_eq!(ws.get_event(), WindowSystemEvent::UnknownEvent);
    }
    assert!(!ws.event_pending());
}

#[test]
fn map_request_narrows_subscription_before_returning() {
    let mut ws = connect(
        vec![window(ROOT, ""), window(7, "new"), window(8, "other")],
        vec![RawEvent { class: MAP_REQUEST, window: 7 }],
    );
    let before_other = mask_in(&ws, 8);
    let e = ws.get_event();
    assert_eq!(e, WindowSystemEvent::WindowCreated(7));
    // Enter/leave bits only: structural notifications are dropped.
    assert_eq!(mask_in(&ws, 7), MANAGED_EVENT_MASK);
    assert_eq!(mask_in(&ws, 7), 0x30);
    // Other windows keep their subscriptions.
    assert_eq!(mask_in(&ws, 8), before_other);
    assert_eq!(mask_in(&ws, ROOT), ROOT_EVENT_MASK);
}

#[test]
fn enter_and_leave_events_decode_to_their_windows() {
    let mut ws = connect(
        vec![window(5, "a"), window(9, "b")],
        vec![
            RawEvent { class: ENTER_NOTIFY, window: 5 },
            RawEvent { class: LEAVE_NOTIFY, window: 9 },
        ],
    );
    assert_eq!(ws.get_event(), WindowSystemEvent::Enter(5));
    assert_eq!(ws.get_event(), WindowSystemEvent::Leave(9));
    assert!(!ws.event_pending());
}

#[test]
fn border_requests_on_root_are_no_ops() {
    let mut ws = connect(vec![window(ROOT, ""), window(5, "a")], vec![]);
    let root_width = ws.server.windows[0].border_width;
    let root_color = ws.server.windows[0].border_color;
    for n in 0..4u32 {
        ws.set_window_border_width(ROOT, n + 1);
        ws.set_window_border_color(ROOT, 0xff0000);
    }
    assert_eq!(ws.server.windows[0].border_width, root_width);
    assert_eq!(ws.server.windows[0].border_color, root_color);
    assert_eq!(ws.server.windows[1].border_width, 0);
    assert_eq!(ws.server.windows[1].border_color, 0);
}

#[test]
fn border_requests_forward_for_managed_windows() {
    let mut ws = connect(vec![window(ROOT, ""), window(5, "a")], vec![]);
    ws.set_window_border_width(5, 2);
    ws.set_window_border_color(5, 0x00ff00);
    assert_eq!(ws.server.windows[1].border_width, 2);
    assert_eq!(ws.server.windows[1].border_color, 0x00ff00);
    assert_eq!(ws.server.windows[0].border_width, 0);
    assert_eq!(ws.server.windows[0].border_color, 0);
}

#[test]
fn geometry_requests_are_unconditional() {
    let mut ws = connect(vec![window(ROOT, ""), window(5, "a")], vec![]);
    ws.resize_window(5, 640, 480);
    ws.move_window(5, 10, 20);
    assert_eq!(ws.server.windows[1].width, 640);
    assert_eq!(ws.server.windows[1].height, 480);
    assert_eq!(ws.server.windows[1].x, 10);
    assert_eq!(ws.server.windows[1].y, 20);
    // The root window is not shielded from geometry requests.
    ws.resize_window(ROOT, 800, 600);
    assert_eq!(ws.server.windows[0].width, 800);
    assert_eq!(ws.server.windows[0].height, 600);
}

#[test]
fn show_window_maps_without_moving() {
    let mut ws = connect(vec![window(5, "a")], vec![]);
    assert!(!ws.server.windows[0].mapped);
    ws.show_window(5);
    assert!(ws.server.windows[0].mapped);
    assert_eq!(ws.server.windows[0].x, 0);
    assert_eq!(ws.server.windows[0].y, 0);
    assert_eq!(ws.server.windows[0].width, 100);
    assert_eq!(ws.server.windows[0].height, 100);
}

#[test]
fn events_are_delivered_in_server_order() {
    let mut ws = connect(
        vec![window(7, "a")],
        vec![
            RawEvent { class: MAP_REQUEST, window: 7 },
            RawEvent { class: ENTER_NOTIFY, window: 7 },
            RawEvent { class: 77, window: 7 },
        ],
    );
    assert!(ws.event_pending());
    assert_eq!(ws.get_event(), WindowSystemEvent::WindowCreated(7));
    assert_eq!(ws.get_event(), WindowSystemEvent::Enter(7));
    assert_eq!(ws.get_event(), WindowSystemEvent::UnknownEvent);
    assert!(!ws.event_pending());
}
