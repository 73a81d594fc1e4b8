use floatwin::debug::LineSegment;
use floatwin::dim::{Point, Rect, Size};
use floatwin::hit_test::HitTest;
use floatwin::layout::{WinId, WindowInitialState, WindowingState};
use floatwin::snapping::Anchor;

fn area(w: i32, h: i32, scale: u32) -> WindowingState {
    let mut s = WindowingState::new();
    s.set_dimensions(Size { w, h }, scale);
    s
}

fn make(s: &mut WindowingState, client: [i32; 2], pos: [i32; 2], min: Option<[i32; 2]>) -> WinId {
    let id = s.next_id();
    s.ensure_init(id, || WindowInitialState {
            client_size: Size { w: client[0], h: client[1] },
            position: Some(Point { x: pos[0], y: pos[1] }),
            min_size: min.map(|m| Size { w: m[0], h: m[1] }),
            is_collapsed: false,
        });
    id
}

fn drag_by(s: &mut WindowingState, id: WinId, ht: HitTest, dx: i32, dy: i32) -> Rect {
    assert!(s.win_drag_start(id, ht));
    assert!(s.win_drag_update(Point { x: dx, y: dy }));
    s.win_drag_end(false);
    s.win_normal_rect_int(id).unwrap()
}

#[test]
fn abort_puts_the_window_back() {
    let mut s = area(800, 600, 1000);
    let a = make(&mut s, [150, 100], [100, 100], None);
    let before = s.win_normal_rect_int(a);
    assert!(s.win_drag_start(a, HitTest::BottomRightCorner));
    assert!(s.win_drag_update(Point { x: 37, y: -20 }));
    assert_ne!(s.win_normal_rect_int(a), before);
    s.win_drag_end(true);
    assert_eq!(s.win_normal_rect_int(a), before);
    assert_eq!(s.current_dragging_win(), None);
}

#[test]
fn start_then_abort_changes_nothing() {
    let mut s = area(800, 600, 1000);
    let a = make(&mut s, [150, 100], [100, 100], None);
    let before = s.win_normal_rect_int(a);
    assert!(s.win_drag_start(a, HitTest::LeftBorder));
    assert_eq!(s.current_dragging_win(), Some((a, HitTest::LeftBorder)));
    s.win_drag_end(true);
    assert_eq!(s.win_normal_rect_int(a), before);
}

#[test]
fn update_without_a_drag_does_nothing() {
    let mut s = area(800, 600, 1000);
    let a = make(&mut s, [150, 100], [100, 100], None);
    assert!(!s.win_drag_update(Point { x: 10, y: 10 }));
    assert_eq!(s.win_normal_rect_int(a), Some(Rect { x: 100, y: 100, w: 158, h: 127 }));
}

#[test]
fn resizing_stops_at_the_least_size() {
    let mut s = area(800, 600, 1000);
    let a = make(&mut s, [150, 100], [100, 100], Some([50, 50]));
    let r = drag_by(&mut s, a, HitTest::BottomRightCorner, -200, -200);
    assert_eq!(r, Rect { x: 100, y: 100, w: 58, h: 76 });
    let r = drag_by(&mut s, a, HitTest::TopLeftCorner, 300, 300);
    assert_eq!(r, Rect { x: 100, y: 100, w: 58, h: 76 });
}

#[test]
fn resizing_by_an_edge_moves_only_that_edge() {
    let mut s = area(800, 600, 1000);
    let a = make(&mut s, [150, 100], [100, 100], None);
    let r = drag_by(&mut s, a, HitTest::LeftBorder, -30, 50);
    assert_eq!(r, Rect { x: 70, y: 100, w: 188, h: 127 });
    let r = drag_by(&mut s, a, HitTest::BottomBorder, 40, 33);
    assert_eq!(r, Rect { x: 70, y: 100, w: 188, h: 160 });
}

#[test]
fn collapsed_window_cannot_be_resized() {
    let mut s = area(800, 600, 1000);
    let a = make(&mut s, [150, 100], [100, 100], None);
    s.set_win_collapsed(a, true);
    assert!(!s.win_drag_start(a, HitTest::RightBorder));
    assert_eq!(s.current_dragging_win(), None);
    assert!(s.win_drag_start(a, HitTest::TitleBarOrDragArea));
}

#[test]
fn hidden_window_cannot_be_dragged() {
    let mut s = area(800, 600, 1000);
    let a = make(&mut s, [150, 100], [100, 100], None);
    s.set_win_hidden(a, true);
    assert!(!s.win_drag_start(a, HitTest::TitleBarOrDragArea));
}

#[test]
fn moving_snaps_to_the_area_edges_and_anchors() {
    let mut s = area(800, 600, 1000);
    let a = make(&mut s, [150, 100], [100, 100], None);
    let r = drag_by(&mut s, a, HitTest::TitleBarOrDragArea, -95, 0);
    assert_eq!((r.x, r.y), (8, 100));
    assert_eq!(s.window(a).unwrap().anchor_x, Anchor::LowerEdge);
    assert_eq!(s.window(a).unwrap().anchor_y, Anchor::NoEdge);
    let r = drag_by(&mut s, a, HitTest::TitleBarOrDragArea, 622, 0);
    assert_eq!(r.x, 634);
    assert_eq!(s.window(a).unwrap().anchor_x, Anchor::UpperEdge);
    s.set_dimensions(Size { w: 1000, h: 600 }, 1000);
    assert_eq!(s.win_normal_rect_int(a).unwrap().x, 834);
}

#[test]
fn anchored_to_both_edges_stretches() {
    let mut s = area(800, 600, 1000);
    let a = make(&mut s, [150, 100], [100, 100], None);
    drag_by(&mut s, a, HitTest::LeftBorder, -95, 0);
    let r = drag_by(&mut s, a, HitTest::RightBorder, 540, 0);
    assert_eq!((r.x, r.w), (8, 784));
    assert_eq!(s.window(a).unwrap().anchor_x, Anchor::LowerAndUpperEdges);
    s.set_dimensions(Size { w: 1000, h: 600 }, 1000);
    let r = s.win_normal_rect_int(a).unwrap();
    assert_eq!((r.x, r.w), (8, 984));
    s.set_dimensions(Size { w: 100, h: 600 }, 1000);
    let r = s.win_normal_rect_int(a).unwrap();
    assert_eq!((r.x, r.w), (8, 158));
}

#[test]
fn moving_snaps_next_to_another_window() {
    let mut s = area(800, 600, 1000);
    let a = make(&mut s, [150, 100], [100, 100], None);
    let _b = make(&mut s, [150, 100], [400, 100], None);
    assert!(s.win_drag_start(a, HitTest::TitleBarOrDragArea));
    assert!(s.win_drag_update(Point { x: 130, y: 0 }));
    assert_eq!(s.win_normal_rect_int(a).unwrap().x, 234);
    assert!(s.win_drag_update(Point { x: 131, y: 0 }));
    assert_eq!(s.win_normal_rect_int(a).unwrap().x, 234);
    assert!(s.win_drag_update(Point { x: 123, y: 0 }));
    assert_eq!(s.win_normal_rect_int(a).unwrap().x, 234);
    assert!(s.win_drag_update(Point { x: 121, y: 0 }));
    assert_eq!(s.win_normal_rect_int(a).unwrap().x, 221);
    assert_eq!(s.topmost_win(), Some(a));
}

#[test]
fn snapped_line_is_kept_over_an_earlier_one() {
    let mut s = area(800, 600, 1000);
    let a = make(&mut s, [150, 100], [100, 100], None);
    let _b = make(&mut s, [150, 100], [400, 100], None);
    let _c = make(&mut s, [150, 100], [410, 150], None);
    assert!(s.win_drag_start(a, HitTest::TitleBarOrDragArea));
    // Lines offered: 234 by b, then 244 by c.
    assert!(s.win_drag_update(Point { x: 150, y: 0 }));
    assert_eq!(s.win_normal_rect_int(a).unwrap().x, 244);
    // Now b's line is as near, and comes first, but c's line is kept.
    assert!(s.win_drag_update(Point { x: 139, y: 0 }));
    assert_eq!(s.win_normal_rect_int(a).unwrap().x, 244);
    s.win_drag_end(true);
    // A fresh drag to the same place takes b's line.
    assert!(s.win_drag_start(a, HitTest::TitleBarOrDragArea));
    assert!(s.win_drag_update(Point { x: 139, y: 0 }));
    assert_eq!(s.win_normal_rect_int(a).unwrap().x, 234);
}

#[test]
fn a_window_out_of_reach_across_offers_no_line() {
    let mut s = area(800, 600, 1000);
    let a = make(&mut s, [150, 100], [100, 100], None);
    let _b = make(&mut s, [150, 100], [400, 400], None);
    let r = drag_by(&mut s, a, HitTest::TitleBarOrDragArea, 130, 0);
    assert_eq!(r.x, 230);
}

#[test]
fn debug_lists_the_snap_lines() {
    let mut s = area(800, 600, 1000);
    let a = make(&mut s, [150, 100], [100, 100], None);
    let _b = make(&mut s, [150, 100], [400, 100], None);
    assert_eq!(s.debug().snap_x_segments(), Vec::<LineSegment>::new());
    assert!(s.win_drag_start(a, HitTest::TitleBarOrDragArea));
    assert_eq!(
        s.debug().snap_x_segments(),
        vec![
            LineSegment { x1: 234, y1: 100, x2: 234, y2: 227 },
            LineSegment { x1: 566, y1: 100, x2: 566, y2: 227 },
        ]
    );
    assert_eq!(
        s.debug().snap_y_segments(),
        vec![
            LineSegment { x1: 400, y1: -35, x2: 558, y2: -35 },
            LineSegment { x1: 400, y1: 235, x2: 558, y2: 235 },
        ]
    );
}

#[test]
fn starting_a_new_drag_finishes_the_old_one() {
    let mut s = area(800, 600, 1000);
    let a = make(&mut s, [150, 100], [100, 100], None);
    let b = make(&mut s, [150, 100], [400, 300], None);
    assert!(s.win_drag_start(a, HitTest::TitleBarOrDragArea));
    assert!(s.win_drag_update(Point { x: 20, y: 30 }));
    assert!(s.win_drag_start(b, HitTest::TitleBarOrDragArea));
    assert_eq!(s.win_normal_rect_int(a).unwrap().pos(), Point { x: 120, y: 130 });
    assert_eq!(s.current_dragging_win(), Some((b, HitTest::TitleBarOrDragArea)));
}
