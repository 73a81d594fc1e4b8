use floatwin::dim::{Point, Rect, Size};
use floatwin::hit_test::HitTest;
use floatwin::interaction::{collapse_toggled, cursor_for, hover_part, CursorShape, WindowRequest};
use floatwin::WindowingState;

#[test]
fn cursor_shapes_per_part() {
    assert_eq!(cursor_for(HitTest::Content), None);
    assert_eq!(cursor_for(HitTest::TitleBarOrDragArea), Some(CursorShape::Grab));
    assert_eq!(cursor_for(HitTest::TopBorder), Some(CursorShape::ResizeVertical));
    assert_eq!(cursor_for(HitTest::BottomBorder), Some(CursorShape::ResizeVertical));
    assert_eq!(cursor_for(HitTest::LeftBorder), Some(CursorShape::ResizeHorizontal));
    assert_eq!(cursor_for(HitTest::RightBorder), Some(CursorShape::ResizeHorizontal));
    assert_eq!(cursor_for(HitTest::TopLeftCorner), Some(CursorShape::ResizeTopLeftBottomRight));
    assert_eq!(cursor_for(HitTest::BottomRightCorner), Some(CursorShape::ResizeTopLeftBottomRight));
    assert_eq!(cursor_for(HitTest::TopRightCorner), Some(CursorShape::ResizeTopRightBottomLeft));
    assert_eq!(cursor_for(HitTest::BottomLeftCorner), Some(CursorShape::ResizeTopRightBottomLeft));
}

#[test]
fn hover_over_collapsed_or_moving() {
    assert_eq!(hover_part(HitTest::LeftBorder, true, false), HitTest::TitleBarOrDragArea);
    assert_eq!(hover_part(HitTest::LeftBorder, false, true), HitTest::Content);
    assert_eq!(hover_part(HitTest::TitleBarOrDragArea, false, true), HitTest::TitleBarOrDragArea);
    assert_eq!(hover_part(HitTest::LeftBorder, false, false), HitTest::LeftBorder);
}

#[test]
fn clicks_toggle_collapse_on_odd_counts() {
    assert!(collapse_toggled(true, None, 1, 0));
    assert!(!collapse_toggled(true, None, 1, 1));
    assert!(collapse_toggled(true, None, 2, 1));
    assert!(!collapse_toggled(false, None, 1, 0));
    assert!(!collapse_toggled(true, Some(false), 1, 0));
    assert!(collapse_toggled(true, None, u32::MAX, 0));
}

#[test]
fn a_request_makes_and_shapes_the_window() {
    let mut s = WindowingState::new();
    s.set_dimensions(Size { w: 800, h: 600 }, 1000);
    let a = s.next_id();
    s.make_window(a, WindowRequest::new());
    assert_eq!(s.win_normal_rect_int(a), Some(Rect { x: 32, y: 32, w: 208, h: 227 }));
    assert!(s.window(a).unwrap().is_needed);

    let req = WindowRequest { is_collapsed: Some(true), ..WindowRequest::new() };
    s.make_window(a, req);
    assert!(s.win_is_collapsed(a));

    let req = WindowRequest { is_collapsible: false, ..WindowRequest::new() };
    s.make_window(a, req);
    assert!(!s.win_is_collapsed(a));

    let req = WindowRequest { min_size: Some(Size { w: 400, h: 300 }), ..WindowRequest::new() };
    s.make_window(a, req);
    assert_eq!(s.win_normal_rect_int(a).unwrap().size(), Size { w: 408, h: 326 });

    let req = WindowRequest { is_hidden: true, ..WindowRequest::new() };
    s.make_window(a, req);
    assert!(s.win_is_hidden(a));
}

#[test]
fn a_request_with_a_place_and_size() {
    let mut s = WindowingState::new();
    s.set_dimensions(Size { w: 1600, h: 1200 }, 2000);
    let a = s.next_id();
    let req = WindowRequest {
        initial_position: Some(Point { x: 40, y: 60 }),
        initial_size: Some(Size { w: 500, h: 400 }),
        ..WindowRequest::new()
    };
    s.make_window(a, req);
    assert_eq!(s.win_normal_rect_int(a), Some(Rect { x: 40, y: 60, w: 516, h: 454 }));
}
