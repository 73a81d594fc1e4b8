use floatwin::dim::{Point, Rect, Size};
use floatwin::hit_test::HitTest;
use floatwin::interaction::CursorShape;
use floatwin::layout::{WinId, WindowInitialState};
use floatwin::session::{Captured, PointerSession};
use floatwin::WindowingState;

fn two_windows() -> (WindowingState, WinId, WinId) {
    let mut s = WindowingState::new();
    s.set_dimensions(Size { w: 800, h: 600 }, 1000);
    let mut ids = Vec::new();
    for pos in [[100, 100], [150, 120]] {
        let id = s.next_id();
        s.ensure_init(id, || WindowInitialState {
            client_size: Size { w: 150, h: 100 },
            position: Some(Point { x: pos[0], y: pos[1] }),
            min_size: None,
            is_collapsed: false,
        });
        ids.push(id);
    }
    (s, ids[0], ids[1])
}

#[test]
fn press_raises_the_window_it_went_to() {
    let (mut s, a, b) = two_windows();
    assert_eq!(s.topmost_win(), Some(b));
    s.handle_press(Captured::Window(a), Point { x: 0, y: 0 }, false);
    assert_eq!(s.topmost_win(), Some(a));
    s.handle_press(Captured::Elsewhere, Point { x: 0, y: 0 }, false);
    assert_eq!(s.topmost_win(), Some(a));
}

#[test]
fn press_on_the_area_with_the_modifier_raises_the_window_under_it() {
    let (mut s, a, b) = two_windows();
    s.handle_press(Captured::Area, Point { x: 110, y: 110 }, true);
    assert_eq!(s.topmost_win(), Some(a));
    s.handle_press(Captured::Area, Point { x: 300, y: 240 }, true);
    assert_eq!(s.topmost_win(), Some(b));
    s.handle_press(Captured::Area, Point { x: 700, y: 500 }, true);
    assert_eq!(s.topmost_win(), Some(b));
}

#[test]
fn a_gesture_on_the_title_bar_moves_the_window() {
    let (mut s, _a, b) = two_windows();
    let mut session = PointerSession::new();
    let origin = Point { x: 200, y: 130 };
    s.handle_drag(&mut session, Captured::Window(b), origin, Point { x: 10, y: 20 }, false);
    assert_eq!(session.dragging, Some(true));
    assert_eq!(s.current_dragging_win(), Some((b, HitTest::TitleBarOrDragArea)));
    s.handle_drag(&mut session, Captured::Window(b), origin, Point { x: 30, y: 40 }, false);
    assert_eq!(s.win_normal_rect_int(b), Some(Rect { x: 180, y: 160, w: 158, h: 127 }));
    assert_eq!(s.pointer_shape(&session, None, false), Some(CursorShape::Grab));
    s.handle_release(&mut session);
    assert_eq!(session.dragging, None);
    assert_eq!(s.current_dragging_win(), None);
}

#[test]
fn a_gesture_that_drags_no_window_is_ignored_to_its_end() {
    let (mut s, _a, b) = two_windows();
    let mut session = PointerSession::new();
    // Outside the topmost window: no part under the origin.
    s.handle_drag(&mut session, Captured::Area, Point { x: 700, y: 500 }, Point { x: 5, y: 5 }, false);
    assert_eq!(session.dragging, Some(false));
    s.handle_drag(&mut session, Captured::Window(b), Point { x: 200, y: 130 }, Point { x: 5, y: 5 }, false);
    assert_eq!(s.win_normal_rect_int(b), Some(Rect { x: 150, y: 120, w: 158, h: 127 }));
    s.handle_release(&mut session);
    assert_eq!(session.dragging, None);
}

#[test]
fn drags_to_other_widgets_are_not_ours() {
    let (mut s, a, _b) = two_windows();
    let mut session = PointerSession::new();
    s.handle_drag(&mut session, Captured::Elsewhere, Point { x: 200, y: 130 }, Point { x: 5, y: 5 }, false);
    assert_eq!(session.dragging, None);
    // Between gestures only the topmost window's frame counts.
    s.handle_drag(&mut session, Captured::Window(a), Point { x: 110, y: 110 }, Point { x: 5, y: 5 }, false);
    assert_eq!(session.dragging, None);
}

#[test]
fn with_the_modifier_any_part_moves_the_window() {
    let (mut s, _a, b) = two_windows();
    let mut session = PointerSession::new();
    s.handle_drag(&mut session, Captured::Area, Point { x: 250, y: 200 }, Point { x: -20, y: 10 }, true);
    assert_eq!(s.win_normal_rect_int(b), Some(Rect { x: 130, y: 130, w: 158, h: 127 }));
    assert_eq!(s.current_dragging_win(), Some((b, HitTest::TitleBarOrDragArea)));
}

#[test]
fn windows_are_kept_in_reach_only_between_drags() {
    let (mut s, a, _b) = two_windows();
    s.set_win_normal_rect_int(a, Rect { x: -1000, y: 100, w: 158, h: 127 });
    let dragging = PointerSession { dragging: Some(true) };
    s.finish_events(&dragging);
    assert_eq!(s.win_normal_rect_int(a).unwrap().x, -1000);
    s.finish_events(&PointerSession::new());
    assert_eq!(s.win_normal_rect_int(a).unwrap().x, -8);
}

#[test]
fn pointer_shape_follows_the_hovered_part() {
    let (mut s, a, _b) = two_windows();
    let idle = PointerSession::new();
    assert_eq!(s.pointer_shape(&idle, Some((a, HitTest::LeftBorder)), false), Some(CursorShape::ResizeHorizontal));
    assert_eq!(s.pointer_shape(&idle, Some((a, HitTest::LeftBorder)), true), Some(CursorShape::Grab));
    assert_eq!(s.pointer_shape(&idle, Some((a, HitTest::Content)), false), None);
    assert_eq!(s.pointer_shape(&idle, None, false), None);
    s.set_win_collapsed(a, true);
    assert_eq!(s.pointer_shape(&idle, Some((a, HitTest::LeftBorder)), false), None);
}
