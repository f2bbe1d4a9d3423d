use rwm::config::{
    BACKGROUND, BORDER_COLOR, BORDER_WIDTH, FOCUSED_BORDER_COLOR, MARKED_BORDER_COLOR,
};
use rwm::container::Container;
use rwm::event::{MapState, WindowAttributes};
use rwm::request::Request;
use rwm::window::{Node, Position, Size, Window};

fn attrs(x: i32, y: i32, width: u32, height: u32) -> WindowAttributes {
    WindowAttributes {
        x,
        y,
        width,
        height,
        override_redirect: false,
        map_state: MapState::Viewable,
    }
}

#[test]
fn frame_request_describes_the_frame() {
    let r = Window::frame_request(1, 10, &attrs(5, 7, 300, 200));
    assert_eq!(
        r,
        Request::CreateFrame {
            client: 10,
            parent: 1,
            x: 5,
            y: 7,
            width: 300,
            height: 200,
            border_width: BORDER_WIDTH,
            border: BORDER_COLOR,
            background: BACKGROUND,
        }
    );
}

#[test]
fn new_window_frames_client_in_order() {
    let mut out = Vec::new();
    let w = Window::new(10, 100, &attrs(5, 7, 300, 200), &mut out);
    assert_eq!(
        out,
        vec![
            Request::SelectInput(100),
            Request::AddToSaveSet(10),
            Request::ReparentWindow { window: 10, parent: 100, x: 0, y: 0 },
            Request::MapWindow(100),
        ]
    );
    assert_eq!(w.id(), 10);
    assert!(w.is(10));
    assert!(!w.is(100));
    assert_eq!(w.frame(), 100);
    assert_eq!(*w.position(), Position { x: 5, y: 7 });
    assert_eq!(*w.size(), Size { width: 300, height: 200 });
    assert!(!w.is_focused());
    assert!(!w.is_marked());
}

#[test]
fn unframe_tears_down_in_fixed_order() {
    let mut out = Vec::new();
    let w = Window::new(10, 100, &attrs(0, 0, 50, 50), &mut out);
    out.clear();
    w.unframe(1, &mut out);
    assert_eq!(
        out,
        vec![
            Request::UnmapWindow(100),
            Request::ReparentWindow { window: 10, parent: 1, x: 0, y: 0 },
            Request::RemoveFromSaveSet(10),
            Request::DestroyWindow(100),
        ]
    );
}

#[test]
fn set_size_subtracts_both_borders() {
    let mut out = Vec::new();
    let mut w = Window::new(10, 100, &attrs(0, 0, 50, 50), &mut out);
    out.clear();
    w.set_size(400, 300, &mut out);
    assert_eq!(*w.size(), Size { width: 394, height: 294 });
    assert_eq!(
        out,
        vec![
            Request::ResizeWindow { window: 100, width: 394, height: 294 },
            Request::ResizeWindow { window: 10, width: 394, height: 294 },
        ]
    );
}

#[test]
fn set_size_clamps_to_one_pixel() {
    let mut out = Vec::new();
    let mut w = Window::new(10, 100, &attrs(0, 0, 50, 50), &mut out);
    w.set_size(6, 0, &mut out);
    assert_eq!(*w.size(), Size { width: 1, height: 1 });
    w.set_size(2 * BORDER_WIDTH + 1, 3, &mut out);
    assert_eq!(*w.size(), Size { width: 1, height: 1 });
    w.set_size(8, 2 * BORDER_WIDTH + 2, &mut out);
    assert_eq!(*w.size(), Size { width: 2, height: 2 });
}

#[test]
fn set_position_moves_the_frame() {
    let mut out = Vec::new();
    let mut w = Window::new(10, 100, &attrs(0, 0, 50, 50), &mut out);
    out.clear();
    w.set_position(-4, 9, &mut out);
    assert_eq!(*w.position(), Position { x: -4, y: 9 });
    assert_eq!(out, vec![Request::MoveWindow { window: 100, x: -4, y: 9 }]);
}

#[test]
fn focus_and_mark_set_border_colors_last_call_wins() {
    let mut out = Vec::new();
    let mut w = Window::new(10, 100, &attrs(0, 0, 50, 50), &mut out);
    out.clear();
    w.focus(&mut out);
    w.mark(&mut out);
    w.unmark(&mut out);
    w.unfocus(&mut out);
    assert!(!w.is_focused());
    assert!(!w.is_marked());
    assert_eq!(
        out,
        vec![
            Request::SetWindowBorder { window: 100, color: FOCUSED_BORDER_COLOR },
            Request::SetWindowBorder { window: 100, color: MARKED_BORDER_COLOR },
            Request::SetWindowBorder { window: 100, color: BORDER_COLOR },
            Request::SetWindowBorder { window: 100, color: BORDER_COLOR },
        ]
    );
    w.focus(&mut out);
    w.mark(&mut out);
    assert!(w.is_focused());
    assert!(w.is_marked());
}

#[test]
fn map_and_reparent_address_the_client() {
    let mut out = Vec::new();
    let w = Window::new(10, 100, &attrs(0, 0, 50, 50), &mut out);
    out.clear();
    w.map(&mut out);
    w.reparent(55, &mut out);
    assert_eq!(
        out,
        vec![
            Request::MapWindow(10),
            Request::ReparentWindow { window: 10, parent: 55, x: 0, y: 0 },
        ]
    );
}

#[test]
fn container_remove_twice_tears_down_once() {
    let mut out = Vec::new();
    let mut c = Container::new();
    c.insert(Window::new(10, 100, &attrs(0, 0, 50, 50), &mut out));
    c.insert(Window::new(11, 101, &attrs(0, 0, 50, 50), &mut out));
    out.clear();
    assert!(c.remove(10, 1, &mut out));
    assert_eq!(out.len(), 4);
    assert_eq!(out[3], Request::DestroyWindow(100));
    assert!(!c.remove(10, 1, &mut out));
    assert_eq!(out.len(), 4);
    assert_eq!(c.len(), 1);
    assert_eq!(c.find(11), Some(0));
    assert_eq!(c.find(10), None);
    assert!(c.contains(11));
    assert!(!c.contains(10));
}
