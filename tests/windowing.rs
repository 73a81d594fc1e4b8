use floatwin::dim::{Point, Rect, Size};
use floatwin::hit_test::HitTest;
use floatwin::layout::{WinId, WindowInitialState, WindowingState};
use floatwin::snapping::Anchor;

fn area(w: i32, h: i32, scale: u32) -> WindowingState {
    let mut s = WindowingState::new();
    s.set_dimensions(Size { w, h }, scale);
    s
}

fn make(s: &mut WindowingState, client: [i32; 2], pos: Option<[i32; 2]>) -> WinId {
    let id = s.next_id();
    s.ensure_init(id, || WindowInitialState {
            client_size: Size { w: client[0], h: client[1] },
            position: pos.map(|p| Point { x: p[0], y: p[1] }),
            min_size: None,
            is_collapsed: false,
        });
    id
}

#[test]
fn scenario_create_drag_collapse() {
    let mut s = area(800, 600, 1000);
    let a = make(&mut s, [150, 100], Some([100, 100]));
    let m = s.frame_metrics();
    let r = s.win_normal_rect_int(a).unwrap();
    assert_eq!(r.w, 150 + 2 * m.border_thickness);
    assert_eq!(r.h, 100 + 2 * m.border_thickness + m.title_bar_height + m.gap_below_title_bar);
    assert_eq!(r, Rect { x: 100, y: 100, w: 158, h: 127 });

    assert!(s.win_drag_start(a, HitTest::TitleBarOrDragArea));
    assert!(s.win_drag_update(Point { x: 5, y: 5 }));
    s.win_drag_end(false);
    let r = s.win_normal_rect_int(a).unwrap();
    assert_eq!((r.x, r.y), (105, 105));

    s.set_win_collapsed(a, true);
    assert_eq!(s.win_display_rect_int(a).unwrap().w, m.collapsed_win_width);
    assert_eq!(s.win_display_rect_int(a).unwrap().h, m.title_bar_height + 2 * m.border_thickness);
    assert_eq!(s.win_normal_rect_int(a).unwrap().w, 158);
}

#[test]
fn collapsed_display_rect_differs_from_normal_at_scale_two() {
    let mut s = area(1600, 1200, 2000);
    let a = make(&mut s, [400, 300], Some([10, 20]));
    s.set_win_collapsed(a, true);
    assert!(s.win_is_collapsed(a));
    assert_eq!(s.win_display_rect_int(a), Some(Rect { x: 10, y: 20, w: 316, h: 52 }));
    assert_eq!(s.win_normal_rect_int(a), Some(Rect { x: 10, y: 20, w: 416, h: 354 }));
}

#[test]
fn collapse_round_trip_keeps_the_rect() {
    let mut s = area(800, 600, 1000);
    let a = make(&mut s, [150, 100], Some([100, 100]));
    let before = s.win_normal_rect_int(a);
    s.set_win_collapsed(a, true);
    s.set_win_collapsed(a, false);
    assert_eq!(s.win_normal_rect_int(a), before);
    assert!(!s.win_is_collapsed(a));
}

#[test]
fn z_order_follows_creation_and_raising() {
    let mut s = area(800, 600, 1000);
    let a = make(&mut s, [150, 100], Some([0, 0]));
    let b = make(&mut s, [150, 100], Some([10, 10]));
    let c = make(&mut s, [150, 100], Some([20, 20]));
    assert_eq!(s.topmost_win(), Some(c));
    assert_eq!((s.win_z_order(a), s.win_z_order(b), s.win_z_order(c)), (0, 1, 2));
    s.bring_to_top(a);
    assert_eq!(s.topmost_win(), Some(a));
    assert_eq!((s.win_z_order(a), s.win_z_order(b), s.win_z_order(c)), (2, 0, 1));
    s.bring_to_top(a);
    assert_eq!((s.win_z_order(a), s.win_z_order(b), s.win_z_order(c)), (2, 0, 1));
    assert_eq!(s.win_count(), 3);
}

#[test]
fn empty_state_has_no_topmost() {
    let s = WindowingState::new();
    assert_eq!(s.topmost_win(), None);
    assert_eq!(s.win_count(), 0);
    assert_eq!(s.win_hit_test(Point { x: 0, y: 0 }), None);
}

#[test]
fn uninitialized_slot_answers_empty() {
    let mut s = area(800, 600, 1000);
    let a = s.next_id();
    assert_eq!(s.win_normal_rect_int(a), None);
    assert_eq!(s.win_display_rect_int(a), None);
    assert!(s.win_is_hidden(a));
    assert!(!s.win_is_collapsed(a));
    s.set_win_collapsed(a, true);
    assert!(!s.win_is_collapsed(a));
    assert!(!s.win_drag_start(a, HitTest::TitleBarOrDragArea));
}

#[test]
fn hit_test_takes_the_topmost_window() {
    let mut s = area(800, 600, 1000);
    let a = make(&mut s, [150, 100], Some([100, 100]));
    let b = make(&mut s, [150, 100], Some([150, 120]));
    let p = Point { x: 200, y: 150 };
    assert_eq!(s.win_hit_test(p), Some((b, HitTest::Content)));
    s.bring_to_top(a);
    assert_eq!(s.win_hit_test(p), Some((a, HitTest::Content)));
    assert_eq!(s.specific_win_hit_test(b, p), Some(HitTest::Content));
    assert_eq!(s.win_hit_test_filtered(p, |id: WinId| id == b), Some((b, HitTest::Content)));
    assert_eq!(s.win_hit_test_filtered(p, |_: WinId| false), None);
    assert_eq!(s.win_hit_test(Point { x: 700, y: 500 }), None);
}

#[test]
fn hidden_window_is_not_hit() {
    let mut s = area(800, 600, 1000);
    let a = make(&mut s, [150, 100], Some([100, 100]));
    s.set_win_hidden(a, true);
    assert!(s.win_is_hidden(a));
    assert_eq!(s.win_display_rect_int(a), None);
    assert_eq!(s.specific_win_hit_test(a, Point { x: 150, y: 150 }), None);
    assert_eq!(s.win_hit_test(Point { x: 150, y: 150 }), None);
    s.set_win_hidden(a, false);
    assert_eq!(s.specific_win_hit_test(a, Point { x: 150, y: 150 }), Some(HitTest::Content));
}

#[test]
fn sweep_frees_unneeded_windows() {
    let mut s = area(800, 600, 1000);
    let a = make(&mut s, [150, 100], Some([100, 100]));
    let b = make(&mut s, [150, 100], Some([300, 100]));
    s.set_all_needed(false);
    s.set_needed(a, true);
    s.sweep_unneeded();
    assert!(s.window(a).is_some());
    assert!(s.window(b).is_none());
    assert_eq!(s.win_normal_rect_int(b), None);
    assert!(s.win_is_hidden(b));
    assert_eq!(s.win_count(), 2);
}

#[test]
fn auto_position_cascades_and_wraps() {
    let mut s = area(800, 600, 1000);
    let mut got = Vec::new();
    for _ in 0..5 {
        let id = make(&mut s, [150, 500], None);
        let r = s.win_normal_rect_int(id).unwrap();
        got.push((r.x, r.y));
    }
    assert_eq!(got, vec![(32, 32), (48, 48), (64, 64), (56, 32), (72, 48)]);
}

#[test]
fn small_requests_grow_to_the_least_size() {
    let mut s = area(800, 600, 1000);
    let a = make(&mut s, [-20, 10], Some([0, 0]));
    assert_eq!(s.win_normal_rect_int(a).unwrap().size(), Size { w: 158, h: 77 });
}

#[test]
fn raising_the_least_size_grows_the_window() {
    let mut s = area(800, 600, 1000);
    let a = make(&mut s, [150, 100], Some([100, 100]));
    s.set_win_min_size(a, Size { w: 300, h: 200 });
    assert_eq!(s.win_normal_rect_int(a).unwrap().size(), Size { w: 308, h: 226 });
    assert_eq!(s.window(a).unwrap().min_size, Size { w: 300, h: 200 });
    s.set_win_min_size(a, Size { w: 10, h: 10 });
    assert_eq!(s.win_normal_rect_int(a).unwrap().size(), Size { w: 308, h: 226 });
}

#[test]
fn windows_are_kept_within_reach() {
    let mut s = area(800, 600, 1000);
    let a = make(&mut s, [150, 100], Some([-1000, -500]));
    let b = make(&mut s, [150, 100], Some([5000, 5000]));
    s.ensure_all_win_in_area();
    assert_eq!(s.win_normal_rect_int(a), Some(Rect { x: -8, y: -4, w: 158, h: 127 }));
    assert_eq!(s.win_normal_rect_int(b), Some(Rect { x: 646, y: 578, w: 158, h: 127 }));
}

#[test]
fn a_new_scale_carries_windows_over() {
    let mut s = area(800, 600, 1000);
    let a = make(&mut s, [150, 100], Some([100, 100]));
    s.set_dimensions(Size { w: 1600, h: 1200 }, 2000);
    assert_eq!(s.scale_milli(), 2000);
    assert_eq!(s.area_size(), Size { w: 1600, h: 1200 });
    assert_eq!(s.frame_metrics().border_thickness, 8);
    assert_eq!(s.win_normal_rect_int(a), Some(Rect { x: 200, y: 200, w: 316, h: 254 }));
    assert_eq!(s.window(a).unwrap().min_size, Size { w: 300, h: 100 });
}

#[test]
fn setting_a_rect_keeps_it() {
    let mut s = area(800, 600, 1000);
    let a = make(&mut s, [150, 100], Some([100, 100]));
    s.set_win_normal_rect_int(a, Rect { x: 1, y: 2, w: 300, h: 400 });
    assert_eq!(s.win_normal_rect_int(a), Some(Rect { x: 1, y: 2, w: 300, h: 400 }));
    assert_eq!(s.window(a).unwrap().anchor_x, Anchor::NoEdge);
}

#[test]
fn ensure_init_leaves_a_live_window_alone() {
    let mut s = area(800, 600, 1000);
    let a = make(&mut s, [150, 100], Some([100, 100]));
    let mut called = false;
    s.ensure_init(a, || {
        called = true;
        WindowInitialState {
            client_size: Size { w: 500, h: 500 },
            position: None,
            min_size: None,
            is_collapsed: true,
        }
    });
    assert!(!called);
    assert_eq!(s.win_normal_rect_int(a), Some(Rect { x: 100, y: 100, w: 158, h: 127 }));
    assert!(!s.win_is_collapsed(a));
}
