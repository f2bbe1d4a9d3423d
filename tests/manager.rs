use rwm::config::{BACKGROUND, BORDER_COLOR, BORDER_WIDTH, FOCUSED_BORDER_COLOR, GRAB_BUTTON};
use rwm::error::{session_outcome, Error, BAD_ACCESS};
use rwm::event::{
    ButtonEvent, ConfigureRequestEvent, CreateWindowEvent, DestroyWindowEvent, Event,
    MapRequestEvent, MapState, UnmapEvent, WindowAttributes,
};
use rwm::layout::{ColumnLayout, Layout, RowLayout};
use rwm::request::{Request, WindowChanges, WindowID, GRAB_MODE_ASYNC};
use rwm::window::{Node, Position, Size};
use rwm::window_manager::{ChildWindow, WindowManager};

const ROOT: WindowID = 1;

fn attrs(map_state: MapState, override_redirect: bool) -> WindowAttributes {
    WindowAttributes { x: 10, y: 20, width: 300, height: 200, override_redirect, map_state }
}

/// Hands every frame creation back to the manager, the way the session does, with
/// frame identifiers counted up from `next_frame`.
fn carry_out(wm: &mut WindowManager, requests: Vec<Request>, next_frame: &mut WindowID) -> Vec<Request> {
    let mut done = Vec::new();
    for r in requests {
        done.push(r);
        if let Request::CreateFrame { client, .. } = r {
            let frame = *next_frame;
            *next_frame += 1;
            let mut more = Vec::new();
            assert!(wm.on_frame_created(client, frame, &mut more));
            done.extend(more);
        }
    }
    done
}

fn managed(wm: &WindowManager) -> Vec<(WindowID, WindowID, Position, Size)> {
    let c = wm.windows();
    (0..c.len())
        .map(|i| {
            let w = c.get(i);
            (w.id(), w.frame(), *w.position(), *w.size())
        })
        .collect()
}

fn scanned_three() -> WindowManager {
    let mut wm = WindowManager::new(ROOT);
    let children: Vec<ChildWindow> = vec![
        (10, Ok(attrs(MapState::Viewable, false))),
        (11, Ok(attrs(MapState::Viewable, false))),
        (12, Ok(attrs(MapState::Viewable, false))),
    ];
    let mut out = Vec::new();
    wm.scan(&children, &mut out);
    let mut next = 100;
    carry_out(&mut wm, out, &mut next);
    wm
}

#[test]
fn scan_frames_three_viewable_windows() {
    let mut wm = WindowManager::new(ROOT);
    let children: Vec<ChildWindow> = vec![
        (10, Ok(attrs(MapState::Viewable, false))),
        (11, Ok(attrs(MapState::Viewable, false))),
        (12, Ok(attrs(MapState::Viewable, false))),
    ];
    let mut out = Vec::new();
    let n = wm.scan(&children, &mut out);
    assert_eq!(n, 3);
    assert_eq!(out.len(), 3);
    assert_eq!(
        out[0],
        Request::CreateFrame {
            client: 10,
            parent: ROOT,
            x: 10,
            y: 20,
            width: 300,
            height: 200,
            border_width: BORDER_WIDTH,
            border: BORDER_COLOR,
            background: BACKGROUND,
        }
    );
    assert_eq!(wm.pending_count(), 3);
    let mut next = 100;
    let done = carry_out(&mut wm, out, &mut next);
    assert_eq!(wm.pending_count(), 0);
    assert_eq!(
        managed(&wm),
        vec![
            (10, 100, Position { x: 0, y: 0 }, Size { width: 260, height: 594 }),
            (11, 101, Position { x: 266, y: 0 }, Size { width: 260, height: 594 }),
            (12, 102, Position { x: 532, y: 0 }, Size { width: 260, height: 594 }),
        ]
    );
    // the first window framed gets the focus
    assert!(wm.windows().get(0).is_focused());
    assert!(!wm.windows().get(1).is_focused());
    assert!(done.contains(&Request::SetWindowBorder { window: 100, color: FOCUSED_BORDER_COLOR }));
    // the layout runs once, after the last frame: three windows, three requests each
    let moves = done.iter().filter(|r| matches!(r, Request::MoveWindow { .. })).count();
    assert_eq!(moves, 3);
}

#[test]
fn scan_skips_unmanageable_and_vanished_windows() {
    let mut wm = WindowManager::new(ROOT);
    let children: Vec<ChildWindow> = vec![
        (10, Ok(attrs(MapState::Viewable, true))),
        (11, Ok(attrs(MapState::Unmapped, false))),
        (12, Err(Error::NoSuchWindow)),
        (13, Ok(attrs(MapState::Viewable, false))),
        (14, Err(Error::AttributeQueryFailed)),
    ];
    let mut out = Vec::new();
    assert_eq!(wm.scan(&children, &mut out), 5);
    assert_eq!(out.len(), 1);
    let mut next = 100;
    carry_out(&mut wm, out, &mut next);
    assert_eq!(
        managed(&wm),
        vec![(13, 100, Position { x: 0, y: 0 }, Size { width: 794, height: 594 })]
    );
}

#[test]
fn scan_of_empty_tree_frames_nothing() {
    let mut wm = WindowManager::new(ROOT);
    let mut out = Vec::new();
    assert_eq!(wm.scan(&Vec::new(), &mut out), 0);
    assert!(out.is_empty());
    assert_eq!(wm.windows().len(), 0);
}

#[test]
fn map_request_for_new_window_frames_it() {
    let mut wm = scanned_three();
    let ev = MapRequestEvent { parent: ROOT, window: 20, attributes: Ok(attrs(MapState::Unmapped, false)) };
    let mut out = Vec::new();
    wm.on_map_request(ev, &mut out);
    assert_eq!(out.len(), 1);
    assert!(matches!(out[0], Request::CreateFrame { client: 20, .. }));
    let mut next = 200;
    let done = carry_out(&mut wm, out, &mut next);
    assert_eq!(wm.windows().len(), 4);
    assert_eq!(
        done[1..6].to_vec(),
        vec![
            Request::SelectInput(200),
            Request::AddToSaveSet(20),
            Request::ReparentWindow { window: 20, parent: 200, x: 0, y: 0 },
            Request::MapWindow(200),
            Request::MapWindow(20),
        ]
    );
    // layout re-applied over four windows: 800 / 4 = 200 per column
    assert_eq!(
        managed(&wm)[3],
        (20, 200, Position { x: 600, y: 0 }, Size { width: 194, height: 594 })
    );
    assert_eq!(done.len(), 6 + 4 * 3);
}

#[test]
fn map_request_for_managed_window_only_maps_it() {
    let mut wm = scanned_three();
    let before = managed(&wm);
    let ev = MapRequestEvent { parent: 101, window: 11, attributes: Ok(attrs(MapState::Unmapped, false)) };
    let mut out = Vec::new();
    wm.on_map_request(ev, &mut out);
    assert_eq!(out, vec![Request::MapWindow(11)]);
    assert_eq!(managed(&wm), before);
}

#[test]
fn map_request_for_override_redirect_or_vanished_window_is_ignored() {
    let mut wm = scanned_three();
    let before = managed(&wm);
    let mut out = Vec::new();
    wm.on_map_request(
        MapRequestEvent { parent: ROOT, window: 30, attributes: Ok(attrs(MapState::Unmapped, true)) },
        &mut out,
    );
    wm.on_map_request(
        MapRequestEvent { parent: ROOT, window: 31, attributes: Ok(attrs(MapState::Viewable, false)) },
        &mut out,
    );
    wm.on_map_request(MapRequestEvent { parent: ROOT, window: 32, attributes: Err(Error::NoSuchWindow) }, &mut out);
    assert!(out.is_empty());
    assert_eq!(managed(&wm), before);
    assert_eq!(wm.pending_count(), 0);
}

#[test]
fn unmap_notify_from_root_is_ignored() {
    let mut wm = scanned_three();
    let before = managed(&wm);
    let mut out = Vec::new();
    wm.on_unmap_notify(UnmapEvent { event: ROOT, window: 11 }, &mut out);
    assert!(out.is_empty());
    assert_eq!(managed(&wm), before);
}

#[test]
fn unmap_notify_releases_window_and_relays_out() {
    let mut wm = scanned_three();
    let mut out = Vec::new();
    wm.on_unmap_notify(UnmapEvent { event: 101, window: 11 }, &mut out);
    assert_eq!(
        out[0..4].to_vec(),
        vec![
            Request::UnmapWindow(101),
            Request::ReparentWindow { window: 11, parent: ROOT, x: 0, y: 0 },
            Request::RemoveFromSaveSet(11),
            Request::DestroyWindow(101),
        ]
    );
    assert_eq!(out.len(), 4 + 2 * 3);
    assert_eq!(
        managed(&wm),
        vec![
            (10, 100, Position { x: 0, y: 0 }, Size { width: 394, height: 594 }),
            (12, 102, Position { x: 400, y: 0 }, Size { width: 394, height: 594 }),
        ]
    );
    // a destroy notification for the same client finds nothing left to release
    let mut again = Vec::new();
    wm.on_destroy_notify(DestroyWindowEvent { event: 101, window: 11 }, &mut again);
    wm.on_unmap_notify(UnmapEvent { event: 101, window: 11 }, &mut again);
    assert!(again.is_empty());
    assert_eq!(wm.windows().len(), 2);
}

#[test]
fn destroy_notify_releases_window() {
    let mut wm = scanned_three();
    let mut out = Vec::new();
    wm.on_destroy_notify(DestroyWindowEvent { event: ROOT, window: 12 }, &mut out);
    assert_eq!(out[3], Request::DestroyWindow(102));
    assert_eq!(wm.windows().len(), 2);
    assert!(!wm.windows().contains(12));
}

#[test]
fn unmap_notify_for_unknown_window_changes_nothing() {
    let mut wm = scanned_three();
    let mut out = Vec::new();
    wm.on_unmap_notify(UnmapEvent { event: 300, window: 301 }, &mut out);
    assert!(out.is_empty());
    assert_eq!(wm.windows().len(), 3);
}

#[test]
fn configure_request_is_replayed_verbatim() {
    let wm = WindowManager::new(ROOT);
    let ev = ConfigureRequestEvent {
        parent: ROOT,
        window: 40,
        x: 1,
        y: 2,
        width: 3,
        height: 4,
        border_width: 5,
        above: 6,
        detail: 7,
        value_mask: 0x7f,
    };
    let mut out = Vec::new();
    wm.on_configure_request(ev, &mut out);
    assert_eq!(
        out,
        vec![Request::ConfigureWindow {
            window: 40,
            value_mask: 0x7f,
            changes: WindowChanges { x: 1, y: 2, width: 3, height: 4, border_width: 5, sibling: 6, stack_mode: 7 },
        }]
    );
}

#[test]
fn handle_event_dispatches_by_kind() {
    let mut wm = scanned_three();
    let mut out = Vec::new();
    wm.handle_event(Event::CreateNotify(CreateWindowEvent { parent: ROOT, window: 50 }), &mut out);
    wm.handle_event(Event::ButtonPress(ButtonEvent { window: ROOT, button: 1, x_root: 0, y_root: 0 }), &mut out);
    wm.handle_event(Event::Unknown, &mut out);
    assert!(out.is_empty());
    wm.handle_event(
        Event::MapRequest(MapRequestEvent { parent: ROOT, window: 10, attributes: Err(Error::NoSuchWindow) }),
        &mut out,
    );
    assert_eq!(out, vec![Request::MapWindow(10)]);
    out.clear();
    wm.handle_event(Event::UnmapNotify(UnmapEvent { event: 100, window: 10 }), &mut out);
    assert_eq!(out[0], Request::UnmapWindow(100));
    assert_eq!(wm.windows().len(), 2);
}

#[test]
fn grab_events_grabs_button_on_root() {
    let wm = WindowManager::new(ROOT);
    let mut out = Vec::new();
    wm.grab_events(&mut out);
    assert_eq!(
        out,
        vec![Request::GrabButton {
            button: GRAB_BUTTON,
            modifiers: 0,
            window: ROOT,
            owner_events: true,
            event_mask: 0x4 | 0x8 | 0x40,
            pointer_mode: GRAB_MODE_ASYNC,
            keyboard_mode: GRAB_MODE_ASYNC,
            confine_to: 0,
            cursor: 0,
        }]
    );
}

#[test]
fn new_manager_starts_with_column_layout() {
    let wm = WindowManager::new(ROOT);
    assert_eq!(wm.root(), ROOT);
    assert_eq!(wm.selected_layout(), 0);
    assert_eq!(wm.layout(), Layout::Column(ColumnLayout(800, 600)));
    assert_eq!(wm.windows().len(), 0);
}

#[test]
fn select_layout_rearranges_windows() {
    let mut wm = scanned_three();
    let mut out = Vec::new();
    assert!(wm.select_layout(1, &mut out));
    assert_eq!(wm.layout(), Layout::Row(RowLayout(800, 600)));
    assert_eq!(out.len(), 9);
    assert_eq!(managed(&wm)[2], (12, 102, Position { x: 0, y: 400 }, Size { width: 794, height: 194 }));
    let mut none = Vec::new();
    assert!(!wm.select_layout(2, &mut none));
    assert!(none.is_empty());
    assert_eq!(wm.selected_layout(), 1);
}

#[test]
fn frame_for_unknown_client_is_destroyed() {
    let mut wm = WindowManager::new(ROOT);
    let mut out = Vec::new();
    assert!(!wm.on_frame_created(77, 700, &mut out));
    assert_eq!(out, vec![Request::DestroyWindow(700)]);
    assert_eq!(wm.windows().len(), 0);
}

#[test]
fn session_outcome_reports_each_error() {
    assert_eq!(session_outcome(false, None), Err(Error::ConnectionFailed));
    assert_eq!(session_outcome(false, Some(BAD_ACCESS)), Err(Error::ConnectionFailed));
    assert_eq!(session_outcome(true, Some(BAD_ACCESS)), Err(Error::AlreadyManaged));
    assert_eq!(session_outcome(true, Some(3)), Ok(()));
    assert_eq!(session_outcome(true, None), Ok(()));
}

#[test]
fn error_messages_and_fatality() {
    assert_eq!(Error::ConnectionFailed.message(), "Cannot open Display");
    assert_eq!(Error::AlreadyManaged.message(), "Another WM is running");
    assert!(Error::ConnectionFailed.is_fatal());
    assert!(Error::AlreadyManaged.is_fatal());
    assert!(!Error::NoSuchWindow.is_fatal());
    assert!(!Error::AttributeQueryFailed.is_fatal());
}
