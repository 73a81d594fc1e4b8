//! The windowing state as a mathematical value, and what each operation
//! makes of it.
use crate::dim::{Horizontal, Point, Rect, Size, Vertical};
use crate::hit_test::{spec_window_hit_test, HitTest};
use crate::layout::{
    clamp_coord, clamp_min_extent, min_size_ok, rect_ok, rescaled, stored_rect, WinId,
    WindowInitialState, WindowState, COORD_LIMIT, MAX_WINDOWS,
};
use crate::metrics::{scaled, spec_snap_margin, valid_scale, FrameMetrics};
use crate::snapping::{Anchor, SnapSegment};
use vstd::math::{max, min};
use vstd::prelude::*;

verus! {

/// A drag in progress, as a mathematical value.
pub struct DragModel {
    pub win_id: WinId,
    pub hit_test: HitTest,
    pub starting_rect: Rect,
    pub candidates_x: Seq<(WinId, SnapSegment<Vertical>)>,
    pub last_snapped_x: Option<u32>,
    pub candidates_y: Seq<(WinId, SnapSegment<Horizontal>)>,
    pub last_snapped_y: Option<u32>,
}

/// The windowing state as a mathematical value.
pub struct WindowingModel {
    /// The size of the area, in device pixels.
    pub area_size: Size,
    /// The display scale, in thousandths.
    pub scale_milli: u32,
    /// One slot per handle given out; a freed slot is `None`.
    pub windows: Seq<Option<WindowState>>,
    /// The rank of each slot in the z-order.
    pub z_orders: Seq<u32>,
    /// The slots from bottom to top.
    pub bottom_to_top: Seq<WinId>,
    pub metrics: FrameMetrics,
    pub drag: Option<DragModel>,
    /// Where the next window without a position goes, in logical units.
    pub next_auto_position: Point,
}

impl WindowingModel {
    pub open spec fn len(self) -> nat {
        self.windows.len()
    }

    pub open spec fn valid_id(self, id: WinId) -> bool {
        id.0 < self.len()
    }

    pub open spec fn win(self, id: WinId) -> Option<WindowState> {
        self.windows[id.0 as int]
    }

    /// The z-order list and the ranks are inverse to each other.
    pub open spec fn z_order_consistent(self) -> bool {
        &&& self.z_orders.len() == self.len()
        &&& self.bottom_to_top.len() == self.len()
        &&& forall|w: int|
            0 <= w < self.len() ==> #[trigger] self.z_orders[w] < self.len()
                && self.bottom_to_top[self.z_orders[w] as int].0 == w
        &&& forall|i: int|
            0 <= i < self.len() ==> #[trigger] self.bottom_to_top[i].0 < self.len()
                && self.z_orders[self.bottom_to_top[i].0 as int] == i
    }

    pub open spec fn window_ok(ws: WindowState) -> bool {
        rect_ok(ws.rect) && min_size_ok(ws.min_size)
    }

    pub open spec fn drag_ok(self) -> bool {
        match self.drag {
            None => true,
            Some(d) => {
                &&& self.valid_id(d.win_id)
                &&& rect_ok(d.starting_rect)
                &&& (d.last_snapped_x matches Some(i) ==> i < d.candidates_x.len())
                &&& (d.last_snapped_y matches Some(i) ==> i < d.candidates_y.len())
                &&& d.candidates_x.len() <= 2 * self.len()
                &&& d.candidates_y.len() <= 2 * self.len()
            },
        }
    }

    pub open spec fn wf(self) -> bool {
        &&& self.len() <= MAX_WINDOWS
        &&& self.z_order_consistent()
        &&& valid_scale(self.scale_milli)
        &&& self.metrics == FrameMetrics::spec_with_hidpi_factor(self.scale_milli as int)
        &&& 0 <= self.area_size.w <= COORD_LIMIT
        &&& 0 <= self.area_size.h <= COORD_LIMIT
        &&& -COORD_LIMIT <= self.next_auto_position.x <= COORD_LIMIT
        &&& -COORD_LIMIT <= self.next_auto_position.y <= COORD_LIMIT
        &&& forall|i: int|
            0 <= i < self.len() ==> (#[trigger] self.windows[i] matches Some(ws) ==> Self::window_ok(ws))
        &&& self.drag_ok()
    }

    /// The rectangle a window shows: its normal one, or a title bar alone,
    /// `collapsed_win_width` wide, at the same place when collapsed. Hidden
    /// and freed windows show none.
    pub open spec fn display_rect(self, id: WinId) -> Option<Rect> {
        match self.win(id) {
            None => None,
            Some(ws) => if ws.is_hidden {
                None
            } else if ws.is_collapsed {
                Some(Rect {
                    x: ws.rect.x,
                    y: ws.rect.y,
                    w: self.metrics.collapsed_win_width,
                    h: (self.metrics.title_bar_height + 2 * self.metrics.border_thickness) as i32,
                })
            } else {
                Some(ws.rect)
            },
        }
    }

    pub open spec fn topmost(self) -> Option<WinId> {
        if self.bottom_to_top.len() == 0 {
            None
        } else {
            Some(self.bottom_to_top.last())
        }
    }

    /// Raises a window to the top; the windows above it move down one rank.
    pub open spec fn bring_to_top(self, id: WinId) -> WindowingModel {
        if self.topmost() == Some(id) {
            self
        } else {
            let z = self.z_orders[id.0 as int] as int;
            let n = self.len() as int;
            WindowingModel {
                bottom_to_top: self.bottom_to_top.subrange(0, z) + self.bottom_to_top.subrange(
                    z + 1,
                    n,
                ).push(id),
                z_orders: Seq::new(
                    n as nat,
                    |w: int|
                        if w == id.0 {
                            (n - 1) as u32
                        } else if self.z_orders[w] > z {
                            (self.z_orders[w] - 1) as u32
                        } else {
                            self.z_orders[w]
                        },
                ),
                ..self
            }
        }
    }

    pub open spec fn normal_rect(self, id: WinId) -> Option<Rect> {
        match self.win(id) {
            None => None,
            Some(ws) => Some(ws.rect),
        }
    }

    /// The state with the window's rectangle replaced, if the slot is live.
    pub open spec fn set_rect(self, id: WinId, r: Rect) -> WindowingModel {
        match self.win(id) {
            None => self,
            Some(ws) => self.with_win(id, Some(WindowState { rect: r, ..ws })),
        }
    }

    /// The least total width of the window: its least content width and
    /// both side borders.
    pub open spec fn min_total_w(self, ws: WindowState) -> int {
        2 * self.metrics.border_thickness + ws.min_size.w
    }

    /// The least total height: its least content height, both borders and
    /// the title bar.
    pub open spec fn min_total_h(self, ws: WindowState) -> int {
        2 * self.metrics.border_thickness + self.metrics.title_bar_height + ws.min_size.h
    }

    /// The place and extent along one axis that an anchor asks for, given the
    /// current ones, the shown extent, the least extent and the area's extent.
    pub open spec fn anchored_dim(
        anchor: Anchor,
        pos: int,
        extent: int,
        shown: int,
        least: int,
        area: int,
        margin: int,
    ) -> (int, int) {
        match anchor {
            Anchor::NoEdge => (pos, extent),
            Anchor::LowerEdge => (margin, extent),
            Anchor::UpperEdge => (area - shown - margin, extent),
            Anchor::LowerAndUpperEdges => (margin, max(least, area - margin - margin)),
        }
    }

    /// The rectangle of a shown window pinned to the edges its anchors name.
    pub open spec fn anchored_rect(self, id: WinId) -> Rect {
        let ws = self.win(id).unwrap();
        let shown = self.display_rect(id).unwrap();
        let margin = spec_snap_margin(self.scale_milli as int);
        let (x, w) = Self::anchored_dim(
            ws.anchor_x,
            ws.rect.x as int,
            ws.rect.w as int,
            shown.w as int,
            self.min_total_w(ws),
            self.area_size.w as int,
            margin,
        );
        let (y, h) = Self::anchored_dim(
            ws.anchor_y,
            ws.rect.y as int,
            ws.rect.h as int,
            shown.h as int,
            self.min_total_h(ws),
            self.area_size.h as int,
            margin,
        );
        stored_rect(x, y, w, h)
    }

    /// Moves a shown, anchored window to where its anchors pin it.
    pub open spec fn recompute_snapping(self, id: WinId) -> WindowingModel {
        match self.win(id) {
            None => self,
            Some(ws) => if ws.is_hidden || (ws.anchor_x == Anchor::NoEdge && ws.anchor_y
                == Anchor::NoEdge) {
                self
            } else {
                self.set_rect(id, self.anchored_rect(id))
            },
        }
    }

    pub open spec fn set_hidden(self, id: WinId, is_hidden: bool) -> WindowingModel {
        match self.win(id) {
            None => self,
            Some(ws) => if ws.is_hidden == is_hidden {
                self
            } else {
                self.with_win(id, Some(WindowState { is_hidden, ..ws })).recompute_snapping(id)
            },
        }
    }

    pub open spec fn set_collapsed(self, id: WinId, is_collapsed: bool) -> WindowingModel {
        match self.win(id) {
            None => self,
            Some(ws) => if ws.is_collapsed == is_collapsed {
                self
            } else {
                self.with_win(id, Some(WindowState { is_collapsed, ..ws })).recompute_snapping(id)
            },
        }
    }

    pub open spec fn set_needed(self, id: WinId, is_needed: bool) -> WindowingModel {
        match self.win(id) {
            None => self,
            Some(ws) => self.with_win(id, Some(WindowState { is_needed, ..ws })),
        }
    }

    pub open spec fn set_all_needed(self, is_needed: bool) -> WindowingModel {
        WindowingModel {
            windows: Seq::new(
                self.len(),
                |i: int|
                    match self.windows[i] {
                        None => None,
                        Some(ws) => Some(WindowState { is_needed, ..ws }),
                    },
            ),
            ..self
        }
    }

    /// Frees every slot whose window was not asked for.
    pub open spec fn sweep_unneeded(self) -> WindowingModel {
        WindowingModel {
            windows: Seq::new(
                self.len(),
                |i: int|
                    match self.windows[i] {
                        Some(ws) => if ws.is_needed {
                            Some(ws)
                        } else {
                            None
                        },
                        None => None,
                    },
            ),
            ..self
        }
    }

    /// Sets the least content size. When the new one is larger than the old
    /// one along either axis, a window smaller than the new least total size
    /// grows to it.
    pub open spec fn set_min_size(self, id: WinId, min_size: Size) -> WindowingModel {
        match self.win(id) {
            None => self,
            Some(ws) => {
                let ns = Size {
                    w: clamp_min_extent(min_size.w as int) as i32,
                    h: clamp_min_extent(min_size.h as int) as i32,
                };
                let grown = WindowState { min_size: ns, ..ws };
                let rect = if ws.min_size.w < ns.w || ws.min_size.h < ns.h {
                    Rect {
                        w: max(ws.rect.w as int, self.min_total_w(grown)) as i32,
                        h: max(ws.rect.h as int, self.min_total_h(grown)) as i32,
                        ..ws.rect
                    }
                } else {
                    ws.rect
                };
                self.with_win(id, Some(WindowState { rect, ..grown }))
            },
        }
    }

    /// Every shown, anchored window moved to where its anchors pin it.
    pub open spec fn recompute_all(self) -> WindowingModel {
        WindowingModel {
            windows: Seq::new(
                self.len(),
                |i: int| self.recompute_snapping(WinId(i as u32)).windows[i],
            ),
            ..self
        }
    }

    /// A window's rectangle and least size carried over to another scale.
    pub open spec fn rescale_window(ws: WindowState, from: int, to: int) -> WindowState {
        WindowState {
            rect: stored_rect(
                rescaled(ws.rect.x as int, from, to),
                rescaled(ws.rect.y as int, from, to),
                rescaled(ws.rect.w as int, from, to),
                rescaled(ws.rect.h as int, from, to),
            ),
            min_size: Size {
                w: clamp_min_extent(rescaled(ws.min_size.w as int, from, to)) as i32,
                h: clamp_min_extent(rescaled(ws.min_size.h as int, from, to)) as i32,
            },
            ..ws
        }
    }

    /// Takes a new area size and scale. On a new scale the frame metrics are
    /// derived anew and every window is carried over to the new pixel grid;
    /// on any change the anchored windows are pinned again.
    pub open spec fn set_dimensions(self, area_size: Size, scale_milli: u32) -> WindowingModel {
        if area_size == self.area_size && scale_milli == self.scale_milli {
            self
        } else if scale_milli == self.scale_milli {
            WindowingModel { area_size, ..self }.recompute_all()
        } else {
            WindowingModel {
                area_size,
                scale_milli,
                metrics: FrameMetrics::spec_with_hidpi_factor(scale_milli as int),
                windows: Seq::new(
                    self.len(),
                    |i: int|
                        match self.windows[i] {
                            None => None,
                            Some(ws) => Some(
                                Self::rescale_window(
                                    ws,
                                    self.scale_milli as int,
                                    scale_milli as int,
                                ),
                            ),
                        },
                ),
                ..self
            }.recompute_all()
        }
    }

    /// A shown window moved so that enough of it stays within the area to
    /// be grabbed.
    pub open spec fn kept_in_area(self, ws: WindowState) -> WindowState {
        if ws.is_hidden {
            ws
        } else {
            let b = self.metrics.border_thickness as int;
            let t = self.metrics.title_bar_height as int;
            let cw = self.metrics.collapsed_win_width as int;
            let width_to_test = if ws.is_collapsed {
                cw - b
            } else {
                min(cw, ws.rect.w as int) - b
            };
            let display_w = if ws.is_collapsed {
                cw
            } else {
                ws.rect.w as int
            };
            let x = ws.rect.x as int;
            let y = ws.rect.y as int;
            let nx = if x <= width_to_test - display_w - b {
                width_to_test - display_w - b
            } else if x > self.area_size.w - width_to_test {
                self.area_size.w - width_to_test
            } else {
                x
            };
            let ny = if y <= -b {
                -b
            } else if y > self.area_size.h - (b + t) {
                self.area_size.h - (b + t)
            } else {
                y
            };
            WindowState {
                rect: stored_rect(nx, ny, ws.rect.w as int, ws.rect.h as int),
                ..ws
            }
        }
    }

    pub open spec fn ensure_all_in_area(self) -> WindowingModel {
        WindowingModel {
            windows: Seq::new(
                self.len(),
                |i: int|
                    match self.windows[i] {
                        None => None,
                        Some(ws) => Some(self.kept_in_area(ws)),
                    },
            ),
            ..self
        }
    }

    /// The least content size of a window made without one.
    pub open spec fn default_min_size(self) -> Size {
        Size {
            w: scaled(150, self.scale_milli as int) as i32,
            h: scaled(50, self.scale_milli as int) as i32,
        }
    }

    /// Where a window of total height `h` without a given position goes, in
    /// logical units, and where the one after it will go. A window that
    /// would reach below the area starts a new diagonal at the top, to the
    /// right of the last one.
    pub open spec fn auto_place(self, h: int) -> (Point, Point) {
        let p = self.next_auto_position;
        let q = if scaled(p.y as int, self.scale_milli as int) + h > self.area_size.h {
            Point { x: clamp_coord(32 + (p.x - p.y) + 24) as i32, y: 32 }
        } else {
            p
        };
        (q, Point { x: clamp_coord(q.x + 16) as i32, y: clamp_coord(q.y + 16) as i32 })
    }

    /// Initializes a slot that holds no window yet and raises it to the top;
    /// a no-op on a live window. Sizes gain the frame's borders and title
    /// bar, and are at least the least size.
    pub open spec fn init_window(self, id: WinId, init: WindowInitialState) -> WindowingModel {
        if self.win(id) is Some {
            self
        } else {
            let least = match init.min_size {
                Some(s) => Size {
                    w: clamp_min_extent(s.w as int) as i32,
                    h: clamp_min_extent(s.h as int) as i32,
                },
                None => self.default_min_size(),
            };
            let b2 = 2 * self.metrics.border_thickness;
            let w = max(init.client_size.w as int, least.w as int) + b2;
            let h = max(init.client_size.h as int, least.h as int) + b2
                + self.metrics.title_bar_height + self.metrics.gap_below_title_bar;
            let (x, y, next) = match init.position {
                Some(p) => (p.x as int, p.y as int, self.next_auto_position),
                None => {
                    let (q, next) = self.auto_place(h);
                    (
                        scaled(q.x as int, self.scale_milli as int),
                        scaled(q.y as int, self.scale_milli as int),
                        next,
                    )
                },
            };
            let ws = WindowState {
                rect: stored_rect(x, y, w, h),
                min_size: least,
                is_hidden: false,
                is_collapsed: init.is_collapsed,
                is_needed: true,
                anchor_x: Anchor::NoEdge,
                anchor_y: Anchor::NoEdge,
            };
            WindowingModel {
                next_auto_position: next,
                ..self.with_win(id, Some(ws))
            }.bring_to_top(id)
        }
    }

    /// The part of the window under `pos`, if it is shown and under it.
    pub open spec fn specific_hit(self, id: WinId, pos: Point) -> Option<HitTest> {
        match self.display_rect(id) {
            None => None,
            Some(r) => spec_window_hit_test(
                r.w as int,
                r.h as int,
                pos.x - r.x,
                pos.y - r.y,
                self.metrics.border_thickness as int,
                self.metrics.title_bar_height as int,
            ),
        }
    }

    /// The highest of the lowest `k` windows of the z-order under `pos`.
    pub open spec fn hit_below(self, pos: Point, k: int) -> Option<(WinId, HitTest)>
        decreases k,
    {
        if k <= 0 {
            None
        } else {
            let id = self.bottom_to_top[k - 1];
            match self.specific_hit(id, pos) {
                Some(ht) => Some((id, ht)),
                None => self.hit_below(pos, k - 1),
            }
        }
    }

    /// The window at rank `j` was passed over by a filtered hit test: the
    /// filter turned it down, or it does not lie under `pos`.
    pub open spec fn passed_over<F: Fn(WinId) -> bool>(self, f: F, j: int, pos: Point) -> bool {
        f.ensures((self.bottom_to_top[j],), false) || self.specific_hit(self.bottom_to_top[j], pos)
            is None
    }

    /// The state with the window's slot replaced.
    pub open spec fn with_win(self, id: WinId, ws: Option<WindowState>) -> WindowingModel {
        WindowingModel { windows: self.windows.update(id.0 as int, ws), ..self }
    }
}

/// In every well-formed state the z-order list and the ranks are inverse to
/// each other, and raising the topmost window changes nothing.
pub proof fn lemma_z_order_invariant(m: WindowingModel, w: WinId)
    requires
        m.wf(),
        m.valid_id(w),
    ensures
        m.bottom_to_top[m.z_orders[w.0 as int] as int] == w,
        m.z_orders[w.0 as int] < m.len(),
        m.topmost() == Some(w) ==> m.bring_to_top(w) == m,
{
    assert(m.bottom_to_top[m.z_orders[w.0 as int] as int].0 == w.0);
}

/// Collapsing a window and expanding it again gives back the state it was
/// in, its normal rectangle included, unless the window is shown, anchored,
/// and not where its anchors pin it.
pub proof fn lemma_collapse_round_trip(m: WindowingModel, id: WinId)
    requires
        m.wf(),
        m.valid_id(id),
        m.win(id) matches Some(ws) && !ws.is_collapsed && (ws.is_hidden || (ws.anchor_x
            == Anchor::NoEdge && ws.anchor_y == Anchor::NoEdge) || m.anchored_rect(id)
            == ws.rect),
    ensures
        m.set_collapsed(id, true).set_collapsed(id, false) == m,
{
    let ws = m.win(id).unwrap();
    let m1 = m.set_collapsed(id, true);
    let m2 = m1.set_collapsed(id, false);
    let ws1 = m1.win(id).unwrap();
    assert(ws1 == WindowState { is_collapsed: true, rect: ws1.rect, ..ws });
    if !(ws.is_hidden || (ws.anchor_x == Anchor::NoEdge && ws.anchor_y == Anchor::NoEdge)) {
        let mid = m.with_win(id, Some(WindowState { is_collapsed: true, ..ws }));
        assert(m1 == mid.set_rect(id, mid.anchored_rect(id)));
        let back = m1.with_win(id, Some(WindowState { is_collapsed: false, ..ws1 }));
        assert(back.anchored_rect(id) == m.anchored_rect(id));
    }
    assert(m2.windows =~= m.windows);
}

} // verus!
