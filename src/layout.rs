//! The windowing state: window slots, z-order, geometry queries, and the
//! per-frame bookkeeping of which windows are still wanted.
use crate::dim::{Horizontal, Point, Rect, Size, Vertical};
use crate::hit_test::{window_hit_test, HitTest};
use crate::metrics::{
    scale_small, scaled, snap_margin, valid_scale, FrameMetrics,
};
use crate::model::{DragModel, WindowingModel};
use crate::snapping::{Anchor, SnapSegment};
use vstd::math::{max, min};
use vstd::prelude::*;

verus! {

/// `v` pixels at the scale `from` carried over to the scale `to`, rounded
/// to the nearest pixel, halves away from zero.
pub open spec fn rescaled(v: int, from: int, to: int) -> int {
    if v >= 0 {
        (2 * v * to + from) / (2 * from)
    } else {
        -((-2 * v * to + from) / (2 * from))
    }
}

/// Coordinates and extents of stored rectangles are kept within this many
/// device pixels of zero.
pub const COORD_LIMIT: i32 = 268435456;

/// The most window slots a state hands out.
pub const MAX_WINDOWS: u32 = 2147483647;

/// Minimum sizes are kept at most this large.
pub const MAX_MIN_SIZE: i32 = 134217728;

pub open spec fn clamp_coord(v: int) -> int {
    max(-COORD_LIMIT as int, min(COORD_LIMIT as int, v))
}

pub open spec fn clamp_extent(v: int) -> int {
    max(0, min(COORD_LIMIT as int, v))
}

pub open spec fn clamp_min_extent(v: int) -> int {
    max(0, min(MAX_MIN_SIZE as int, v))
}

/// The rectangle that is stored for the given values: coordinates and
/// extents brought within the limits.
pub open spec fn stored_rect(x: int, y: int, w: int, h: int) -> Rect {
    Rect {
        x: clamp_coord(x) as i32,
        y: clamp_coord(y) as i32,
        w: clamp_extent(w) as i32,
        h: clamp_extent(h) as i32,
    }
}

pub open spec fn rect_ok(r: Rect) -> bool {
    &&& -COORD_LIMIT <= r.x <= COORD_LIMIT
    &&& -COORD_LIMIT <= r.y <= COORD_LIMIT
    &&& 0 <= r.w <= COORD_LIMIT
    &&& 0 <= r.h <= COORD_LIMIT
}

pub open spec fn min_size_ok(s: Size) -> bool {
    0 <= s.w <= MAX_MIN_SIZE && 0 <= s.h <= MAX_MIN_SIZE
}

pub(crate) fn clamp_coord_exec(v: i64) -> (r: i32)
    ensures
        r == clamp_coord(v as int),
{
    if v < -(COORD_LIMIT as i64) {
        -COORD_LIMIT
    } else if v > COORD_LIMIT as i64 {
        COORD_LIMIT
    } else {
        v as i32
    }
}

pub(crate) fn clamp_extent_exec(v: i64) -> (r: i32)
    ensures
        r == clamp_extent(v as int),
{
    if v < 0 {
        0
    } else if v > COORD_LIMIT as i64 {
        COORD_LIMIT
    } else {
        v as i32
    }
}

pub(crate) fn clamp_min_extent_exec(v: i32) -> (r: i32)
    ensures
        r == clamp_min_extent(v as int),
{
    if v < 0 {
        0
    } else if v > MAX_MIN_SIZE {
        MAX_MIN_SIZE
    } else {
        v
    }
}

pub(crate) fn make_stored_rect(x: i64, y: i64, w: i64, h: i64) -> (r: Rect)
    ensures
        r == stored_rect(x as int, y as int, w as int, h as int),
        rect_ok(r),
{
    Rect {
        x: clamp_coord_exec(x),
        y: clamp_coord_exec(y),
        w: clamp_extent_exec(w),
        h: clamp_extent_exec(h),
    }
}

/// `v` pixels at the scale `from` carried over to the scale `to`.
pub(crate) fn rescale_exec(v: i32, from: u32, to: u32) -> (r: i64)
    requires
        -COORD_LIMIT <= v <= COORD_LIMIT,
        valid_scale(from),
        valid_scale(to),
    ensures
        r == rescaled(v as int, from as int, to as int),
{
    let a: i64 = if v >= 0 {
        v as i64
    } else {
        -(v as i64)
    };
    assert(2 * a * to <= 2 * COORD_LIMIT * 64000) by (nonlinear_arith)
        requires
            0 <= a <= COORD_LIMIT,
            to <= 64000,
    ;
    let q = (2 * a * to as i64 + from as i64) / (2 * from as i64);
    if v >= 0 {
        q
    } else {
        -q
    }
}

/// `v` logical units on the device grid at the scale `scale_milli`.
pub(crate) fn scale_exec(v: i32, scale_milli: u32) -> (r: i64)
    requires
        valid_scale(scale_milli),
    ensures
        r == scaled(v as int, scale_milli as int),
        -140000000000 <= r <= 140000000000,
{
    let a: i64 = if v >= 0 {
        v as i64
    } else {
        -(v as i64)
    };
    assert(a * scale_milli <= 2147483648 * 64000) by (nonlinear_arith)
        requires
            0 <= a <= 2147483648,
            scale_milli <= 64000,
    ;
    let q = (a * scale_milli as i64 + 500) / 1000;
    if v >= 0 {
        q
    } else {
        -q
    }
}

/// The handle of a window slot.
#[derive(Clone, Copy, PartialEq, Eq, Structural, Debug)]
pub struct WinId(pub u32);

/// What the engine keeps of one window.
#[derive(Clone, Copy, PartialEq, Eq, Structural, Debug)]
pub struct WindowState {
    /// The rectangle of the window when not collapsed, also kept while it is.
    pub rect: Rect,
    /// The least size of the window's content.
    pub min_size: Size,
    pub is_hidden: bool,
    pub is_collapsed: bool,
    /// Whether the window was asked for since the last sweep.
    pub is_needed: bool,
    pub anchor_x: Anchor,
    pub anchor_y: Anchor,
}

/// What a window is made with, in device pixels.
#[derive(Clone, Copy, PartialEq, Eq, Structural, Debug)]
pub struct WindowInitialState {
    pub client_size: Size,
    pub position: Option<Point>,
    pub min_size: Option<Size>,
    pub is_collapsed: bool,
}

/// A drag in progress.
pub struct DraggingState {
    pub win_id: WinId,
    pub dragging_hit_test: HitTest,
    /// The window's rectangle when the drag started.
    pub starting_rect: Rect,
    /// Lines that the window's left or right edge may snap to.
    pub snap_candidates_x: Vec<(WinId, SnapSegment<Vertical>)>,
    pub last_snapped_x: Option<u32>,
    /// Lines that the window's top or bottom edge may snap to.
    pub snap_candidates_y: Vec<(WinId, SnapSegment<Horizontal>)>,
    pub last_snapped_y: Option<u32>,
}


impl View for DraggingState {
    type V = DragModel;

    open spec fn view(&self) -> DragModel {
        DragModel {
            win_id: self.win_id,
            hit_test: self.dragging_hit_test,
            starting_rect: self.starting_rect,
            candidates_x: self.snap_candidates_x@,
            last_snapped_x: self.last_snapped_x,
            candidates_y: self.snap_candidates_y@,
            last_snapped_y: self.last_snapped_y,
        }
    }
}


/// The engine's state: all windows of one area.
pub struct WindowingState {
    pub(crate) area_size: Size,
    pub(crate) scale_milli: u32,
    pub(crate) window_states: Vec<Option<WindowState>>,
    pub(crate) window_z_orders: Vec<u32>,
    pub(crate) bottom_to_top_list: Vec<WinId>,
    pub(crate) frame_metrics: FrameMetrics,
    pub(crate) maybe_dragging_window: Option<DraggingState>,
    pub(crate) next_auto_position: Point,
}

impl View for WindowingState {
    type V = WindowingModel;

    closed spec fn view(&self) -> WindowingModel {
        WindowingModel {
            area_size: self.area_size,
            scale_milli: self.scale_milli,
            windows: self.window_states@,
            z_orders: self.window_z_orders@,
            bottom_to_top: self.bottom_to_top_list@,
            metrics: self.frame_metrics,
            drag: match self.maybe_dragging_window {
                None => None,
                Some(d) => Some(d@),
            },
            next_auto_position: self.next_auto_position,
        }
    }
}

impl WindowingState {
    pub open spec fn wf(&self) -> bool {
        self@.wf()
    }

    /// An empty state: no windows, a scale of one, and an area of 2^24
    /// pixels each way until the first `set_dimensions`.
    pub fn new() -> (r: WindowingState)
        ensures
            r.wf(),
            r@.len() == 0,
            r@.area_size == (Size { w: 16777216, h: 16777216 }),
            r@.scale_milli == 1000,
            r@.drag is None,
            r@.next_auto_position == (Point { x: 32, y: 32 }),
    {
        WindowingState {
            area_size: Size { w: 16777216, h: 16777216 },
            scale_milli: 1000,
            window_states: Vec::new(),
            window_z_orders: Vec::new(),
            bottom_to_top_list: Vec::new(),
            frame_metrics: FrameMetrics::with_hidpi_factor(1000),
            maybe_dragging_window: None,
            next_auto_position: Point { x: 32, y: 32 },
        }
    }

    pub fn frame_metrics(&self) -> (r: FrameMetrics)
        ensures
            r == self@.metrics,
    {
        self.frame_metrics
    }

    /// The display scale, in thousandths.
    pub fn scale_milli(&self) -> (r: u32)
        ensures
            r == self@.scale_milli,
    {
        self.scale_milli
    }

    /// The size of the area, in device pixels.
    pub fn area_size(&self) -> (r: Size)
        ensures
            r == self@.area_size,
    {
        self.area_size
    }

    /// The number of slots handed out, freed ones included.
    pub fn win_count(&self) -> (r: usize)
        ensures
            r == self@.len(),
    {
        self.window_states.len()
    }

    /// Hands out a new slot, not yet initialized, appended to the end of the
    /// bottom-to-top list.
    pub fn next_id(&mut self) -> (r: WinId)
        requires
            old(self).wf(),
            old(self)@.len() < MAX_WINDOWS,
        ensures
            final(self).wf(),
            r.0 == old(self)@.len(),
            final(self)@ == (WindowingModel {
                windows: old(self)@.windows.push(None),
                z_orders: old(self)@.z_orders.push(r.0),
                bottom_to_top: old(self)@.bottom_to_top.push(r),
                ..old(self)@
            }),
    {
        let id = self.window_states.len() as u32;
        self.window_states.push(None);
        self.window_z_orders.push(id);
        let win_id = WinId(id);
        self.bottom_to_top_list.push(win_id);
        proof {
            let m = self@;
            assert(m.z_order_consistent()) by {
                assert forall|w: int| 0 <= w < m.len() implies #[trigger] m.z_orders[w] < m.len()
                    && m.bottom_to_top[m.z_orders[w] as int].0 == w by {
                    if w < m.len() - 1 {
                        assert(old(self)@.z_orders[w] < old(self)@.len());
                    }
                }
                assert forall|i: int| 0 <= i < m.len() implies #[trigger] m.bottom_to_top[i].0
                    < m.len() && m.z_orders[m.bottom_to_top[i].0 as int] == i by {
                    if i < m.len() - 1 {
                        assert(old(self)@.bottom_to_top[i].0 < old(self)@.len());
                    }
                }
            }
            assert forall|i: int| 0 <= i < m.len() implies (#[trigger] m.windows[i] matches Some(
                ws,
            ) ==> WindowingModel::window_ok(ws)) by {
                if i < m.len() - 1 {
                    assert(m.windows[i] == old(self)@.windows[i]);
                }
            }
        }
        win_id
    }

    pub fn topmost_win(&self) -> (r: Option<WinId>)
        ensures
            r == self@.topmost(),
    {
        let n = self.bottom_to_top_list.len();
        if n == 0 {
            None
        } else {
            Some(self.bottom_to_top_list[n - 1])
        }
    }

    pub fn win_z_order(&self, win_id: WinId) -> (r: u32)
        requires
            self.wf(),
            self@.valid_id(win_id),
        ensures
            r == self@.z_orders[win_id.0 as int],
    {
        self.window_z_orders[win_id.0 as usize]
    }

    /// Raises the window to the top of the z-order; a no-op on the topmost
    /// window.
    pub fn bring_to_top(&mut self, win_id: WinId)
        requires
            old(self).wf(),
            old(self)@.valid_id(win_id),
        ensures
            final(self).wf(),
            final(self)@ == old(self)@.bring_to_top(win_id),
            old(self)@.topmost() == Some(win_id) ==> final(self)@ == old(self)@,
            final(self)@.topmost() == Some(win_id),
    {
        let ghost m0 = self@;
        let n = self.bottom_to_top_list.len();
        if self.bottom_to_top_list[n - 1] == win_id {
            return;
        }
        let z = self.window_z_orders[win_id.0 as usize] as usize;
        let mut i = z;
        while i + 1 < n
            invariant
                m0.wf(),
                n == m0.len(),
                z == m0.z_orders[win_id.0 as int],
                z <= i < n,
                m0.bottom_to_top[z as int] == win_id,
                self.bottom_to_top_list@.len() == n,
                self.window_z_orders@.len() == n,
                self@.windows == m0.windows,
                self@.area_size == m0.area_size,
                self@.scale_milli == m0.scale_milli,
                self@.metrics == m0.metrics,
                self@.drag == m0.drag,
                self@.next_auto_position == m0.next_auto_position,
                forall|k: int| 0 <= k < z ==> self.bottom_to_top_list@[k] == m0.bottom_to_top[k],
                forall|k: int| z <= k < i ==> self.bottom_to_top_list@[k] == m0.bottom_to_top[k + 1],
                forall|k: int| i <= k < n ==> self.bottom_to_top_list@[k] == m0.bottom_to_top[k],
                forall|w: int|
                    0 <= w < n ==> #[trigger] self.window_z_orders@[w] == if m0.z_orders[w] > z
                        && m0.z_orders[w] <= i {
                        (m0.z_orders[w] - 1) as u32
                    } else {
                        m0.z_orders[w]
                    },
            decreases n - i,
        {
            let next = self.bottom_to_top_list[i + 1];
            proof {
                assert(m0.bottom_to_top[i + 1].0 < n);
                assert(m0.z_orders[next.0 as int] == i + 1);
            }
            self.bottom_to_top_list.set(i, next);
            self.window_z_orders.set(next.0 as usize, i as u32);
            i = i + 1;
        }
        self.bottom_to_top_list.set(n - 1, win_id);
        self.window_z_orders.set(win_id.0 as usize, (n - 1) as u32);
        proof {
            let m1 = m0.bring_to_top(win_id);
            assert(self@.bottom_to_top =~= m1.bottom_to_top);
            assert(self@.z_orders =~= m1.z_orders);
            assert(self@ == m1);
            let m = self@;
            assert forall|w: int| 0 <= w < m.len() implies #[trigger] m.z_orders[w] < m.len()
                && m.bottom_to_top[m.z_orders[w] as int].0 == w by {
                assert(m0.z_orders[w] < n);
                assert(m0.bottom_to_top[m0.z_orders[w] as int].0 == w);
            }
            assert forall|k: int| 0 <= k < m.len() implies #[trigger] m.bottom_to_top[k].0 < m.len()
                && m.z_orders[m.bottom_to_top[k].0 as int] == k by {
                if k < z {
                    assert(m0.z_orders[m0.bottom_to_top[k].0 as int] == k);
                } else if k < n - 1 {
                    assert(m0.z_orders[m0.bottom_to_top[k + 1].0 as int] == k + 1);
                }
            }
        }
    }

    /// What the engine keeps of the window, if its slot is live.
    pub fn window(&self, win_id: WinId) -> (r: Option<WindowState>)
        requires
            self.wf(),
            self@.valid_id(win_id),
        ensures
            r == self@.win(win_id),
    {
        self.window_states[win_id.0 as usize]
    }

    /// The drag in progress.
    pub(crate) fn dragging(&self) -> (r: &Option<DraggingState>)
        ensures
            match *r {
                None => self@.drag is None,
                Some(d) => self@.drag == Some(d@),
            },
    {
        &self.maybe_dragging_window
    }

    /// Takes the drag in progress out of the state.
    pub(crate) fn take_drag(&mut self) -> (r: Option<DraggingState>)
        requires
            old(self).wf(),
        ensures
            final(self).wf(),
            final(self)@ == (WindowingModel { drag: None, ..old(self)@ }),
            match r {
                None => old(self)@.drag is None,
                Some(d) => old(self)@.drag == Some(d@),
            },
    {
        self.maybe_dragging_window.take()
    }

    /// Puts a drag in progress into the state.
    pub(crate) fn put_drag(&mut self, d: DraggingState)
        requires
            old(self).wf(),
            (WindowingModel { drag: Some(d@), ..old(self)@ }).wf(),
        ensures
            final(self).wf(),
            final(self)@ == (WindowingModel { drag: Some(d@), ..old(self)@ }),
    {
        self.maybe_dragging_window = Some(d);
    }

    pub fn win_normal_rect_int(&self, win_id: WinId) -> (r: Option<Rect>)
        requires
            self.wf(),
            self@.valid_id(win_id),
        ensures
            r == self@.normal_rect(win_id),
    {
        match &self.window_states[win_id.0 as usize] {
            None => None,
            Some(ws) => Some(ws.rect),
        }
    }

    pub fn win_display_rect_int(&self, win_id: WinId) -> (r: Option<Rect>)
        requires
            self.wf(),
            self@.valid_id(win_id),
        ensures
            r == self@.display_rect(win_id),
    {
        match &self.window_states[win_id.0 as usize] {
            None => None,
            Some(ws) => if ws.is_hidden {
                None
            } else if ws.is_collapsed {
                Some(
                    Rect {
                        x: ws.rect.x,
                        y: ws.rect.y,
                        w: self.frame_metrics.collapsed_win_width,
                        h: self.frame_metrics.title_bar_height + 2
                            * self.frame_metrics.border_thickness,
                    },
                )
            } else {
                Some(ws.rect)
            },
        }
    }

    /// Whether the window is hidden; a freed slot counts as hidden.
    pub fn win_is_hidden(&self, win_id: WinId) -> (r: bool)
        requires
            self.wf(),
            self@.valid_id(win_id),
        ensures
            r == match self@.win(win_id) {
                None => true,
                Some(ws) => ws.is_hidden,
            },
    {
        match &self.window_states[win_id.0 as usize] {
            None => true,
            Some(ws) => ws.is_hidden,
        }
    }

    /// Whether the window is collapsed; a freed slot counts as not.
    pub fn win_is_collapsed(&self, win_id: WinId) -> (r: bool)
        requires
            self.wf(),
            self@.valid_id(win_id),
        ensures
            r == match self@.win(win_id) {
                None => false,
                Some(ws) => ws.is_collapsed,
            },
    {
        match &self.window_states[win_id.0 as usize] {
            None => false,
            Some(ws) => ws.is_collapsed,
        }
    }

    proof fn lemma_with_win_wf(m: WindowingModel, id: WinId, w: Option<WindowState>)
        requires
            m.wf(),
            m.valid_id(id),
            w matches Some(ws) ==> WindowingModel::window_ok(ws),
        ensures
            m.with_win(id, w).wf(),
    {
        let m1 = m.with_win(id, w);
        assert forall|i: int| 0 <= i < m1.len() implies (#[trigger] m1.windows[i] matches Some(
            ws,
        ) ==> WindowingModel::window_ok(ws)) by {
            if i != id.0 {
                assert(m1.windows[i] == m.windows[i]);
            }
        }
    }

    /// Replaces the window's slot, keeping everything else.
    pub(crate) fn put_win(&mut self, win_id: WinId, w: Option<WindowState>)
        requires
            old(self).wf(),
            old(self)@.valid_id(win_id),
            w matches Some(ws) ==> WindowingModel::window_ok(ws),
        ensures
            final(self).wf(),
            final(self)@ == old(self)@.with_win(win_id, w),
    {
        proof {
            Self::lemma_with_win_wf(self@, win_id, w);
        }
        self.window_states.set(win_id.0 as usize, w);
        proof {
            assert(self@.windows =~= old(self)@.with_win(win_id, w).windows);
        }
    }

    /// Sets the window's rectangle, brought within the limits; a no-op on a
    /// freed slot.
    pub fn set_win_normal_rect_int(&mut self, win_id: WinId, rect: Rect)
        requires
            old(self).wf(),
            old(self)@.valid_id(win_id),
        ensures
            final(self).wf(),
            final(self)@ == old(self)@.set_rect(
                win_id,
                stored_rect(rect.x as int, rect.y as int, rect.w as int, rect.h as int),
            ),
    {
        let stored = make_stored_rect(rect.x as i64, rect.y as i64, rect.w as i64, rect.h as i64);
        match self.window_states[win_id.0 as usize] {
            None => {},
            Some(ws) => {
                self.put_win(win_id, Some(WindowState { rect: stored, ..ws }));
            },
        }
    }

    pub fn set_needed(&mut self, win_id: WinId, is_needed: bool)
        requires
            old(self).wf(),
            old(self)@.valid_id(win_id),
        ensures
            final(self).wf(),
            final(self)@ == old(self)@.set_needed(win_id, is_needed),
    {
        match self.window_states[win_id.0 as usize] {
            None => {},
            Some(ws) => {
                self.put_win(win_id, Some(WindowState { is_needed, ..ws }));
            },
        }
    }

    pub fn set_all_needed(&mut self, is_needed: bool)
        requires
            old(self).wf(),
        ensures
            final(self).wf(),
            final(self)@ == old(self)@.set_all_needed(is_needed),
    {
        let ghost m0 = self@;
        let n = self.window_states.len();
        let mut i: usize = 0;
        while i < n
            invariant
                m0.wf(),
                n == m0.len(),
                i <= n,
                self.wf(),
                self@ == (WindowingModel { windows: self@.windows, ..m0 }),
                self@.len() == n,
                forall|k: int|
                    0 <= k < i ==> #[trigger] self@.windows[k] == m0.set_all_needed(
                        is_needed,
                    ).windows[k],
                forall|k: int| i <= k < n ==> #[trigger] self@.windows[k] == m0.windows[k],
            decreases n - i,
        {
            let id = WinId(i as u32);
            match self.window_states[i] {
                None => {},
                Some(ws) => {
                    self.put_win(id, Some(WindowState { is_needed, ..ws }));
                },
            }
            i = i + 1;
        }
        proof {
            assert(self@.windows =~= m0.set_all_needed(is_needed).windows);
        }
    }

    /// Frees the slots of the windows that were not asked for.
    pub fn sweep_unneeded(&mut self)
        requires
            old(self).wf(),
        ensures
            final(self).wf(),
            final(self)@ == old(self)@.sweep_unneeded(),
    {
        let ghost m0 = self@;
        let n = self.window_states.len();
        let mut i: usize = 0;
        while i < n
            invariant
                m0.wf(),
                n == m0.len(),
                i <= n,
                self.wf(),
                self@ == (WindowingModel { windows: self@.windows, ..m0 }),
                self@.len() == n,
                forall|k: int|
                    0 <= k < i ==> #[trigger] self@.windows[k] == m0.sweep_unneeded().windows[k],
                forall|k: int| i <= k < n ==> #[trigger] self@.windows[k] == m0.windows[k],
            decreases n - i,
        {
            let id = WinId(i as u32);
            match self.window_states[i] {
                Some(ws) => {
                    if !ws.is_needed {
                        self.put_win(id, None);
                    }
                },
                None => {},
            }
            i = i + 1;
        }
        proof {
            assert(self@.windows =~= m0.sweep_unneeded().windows);
        }
    }

    /// Sets the least content size; see `WindowingModel::set_min_size`.
    pub fn set_win_min_size(&mut self, win_id: WinId, min_size: Size)
        requires
            old(self).wf(),
            old(self)@.valid_id(win_id),
        ensures
            final(self).wf(),
            final(self)@ == old(self)@.set_min_size(win_id, min_size),
    {
        match self.window_states[win_id.0 as usize] {
            None => {},
            Some(ws) => {
                let ns = Size {
                    w: clamp_min_extent_exec(min_size.w),
                    h: clamp_min_extent_exec(min_size.h),
                };
                let mut rect = ws.rect;
                if ws.min_size.w < ns.w || ws.min_size.h < ns.h {
                    let b = self.frame_metrics.border_thickness;
                    let min_w = 2 * b + ns.w;
                    let min_h = 2 * b + self.frame_metrics.title_bar_height + ns.h;
                    if rect.w < min_w {
                        rect.w = min_w;
                    }
                    if rect.h < min_h {
                        rect.h = min_h;
                    }
                }
                self.put_win(win_id, Some(WindowState { rect, min_size: ns, ..ws }));
            },
        }
    }

    /// Moves a shown, anchored window to where its anchors pin it.
    pub fn win_recompute_snapping_rect(&mut self, win_id: WinId)
        requires
            old(self).wf(),
            old(self)@.valid_id(win_id),
        ensures
            final(self).wf(),
            final(self)@ == old(self)@.recompute_snapping(win_id),
    {
        let ws = match self.window_states[win_id.0 as usize] {
            None => return ,
            Some(ws) => ws,
        };
        if ws.is_hidden {
            return ;
        }
        if ws.anchor_x == Anchor::NoEdge && ws.anchor_y == Anchor::NoEdge {
            return ;
        }
        let shown = match self.win_display_rect_int(win_id) {
            Some(r) => r,
            None => return ,
        };
        let margin = snap_margin(self.scale_milli) as i64;
        let b = self.frame_metrics.border_thickness as i64;
        let min_w = 2 * b + ws.min_size.w as i64;
        let min_h = 2 * b + self.frame_metrics.title_bar_height as i64 + ws.min_size.h as i64;
        let area_w = self.area_size.w as i64;
        let area_h = self.area_size.h as i64;
        let (x, w) = anchored_dim_exec(
            ws.anchor_x,
            ws.rect.x as i64,
            ws.rect.w as i64,
            shown.w as i64,
            min_w,
            area_w,
            margin,
        );
        let (y, h) = anchored_dim_exec(
            ws.anchor_y,
            ws.rect.y as i64,
            ws.rect.h as i64,
            shown.h as i64,
            min_h,
            area_h,
            margin,
        );
        let rect = make_stored_rect(x, y, w, h);
        self.put_win(win_id, Some(WindowState { rect, ..ws }));
    }
}

impl WindowingState {
    /// Shows or hides the window, then re-pins it to its anchors; a no-op if
    /// nothing changes.
    pub fn set_win_hidden(&mut self, win_id: WinId, is_hidden: bool)
        requires
            old(self).wf(),
            old(self)@.valid_id(win_id),
        ensures
            final(self).wf(),
            final(self)@ == old(self)@.set_hidden(win_id, is_hidden),
    {
        let ws = match self.window_states[win_id.0 as usize] {
            None => return ,
            Some(ws) => ws,
        };
        if ws.is_hidden == is_hidden {
            return ;
        }
        self.put_win(win_id, Some(WindowState { is_hidden, ..ws }));
        self.win_recompute_snapping_rect(win_id);
    }

    /// Collapses or expands the window, then re-pins it to its anchors; a
    /// no-op if nothing changes. The normal rectangle is kept.
    pub fn set_win_collapsed(&mut self, win_id: WinId, is_collapsed: bool)
        requires
            old(self).wf(),
            old(self)@.valid_id(win_id),
        ensures
            final(self).wf(),
            final(self)@ == old(self)@.set_collapsed(win_id, is_collapsed),
    {
        let ws = match self.window_states[win_id.0 as usize] {
            None => return ,
            Some(ws) => ws,
        };
        if ws.is_collapsed == is_collapsed {
            return ;
        }
        self.put_win(win_id, Some(WindowState { is_collapsed, ..ws }));
        self.win_recompute_snapping_rect(win_id);
    }
}

impl WindowingState {
    /// Pins every shown, anchored window to its anchors.
    fn recompute_snapped_win_rects(&mut self)
        requires
            old(self).wf(),
        ensures
            final(self).wf(),
            final(self)@ == old(self)@.recompute_all(),
    {
        let ghost m0 = self@;
        let n = self.window_states.len();
        let mut i: usize = 0;
        while i < n
            invariant
                m0.wf(),
                n == m0.len(),
                i <= n,
                self.wf(),
                self@ == (WindowingModel { windows: self@.windows, ..m0 }),
                self@.len() == n,
                forall|k: int|
                    0 <= k < i ==> #[trigger] self@.windows[k] == m0.recompute_all().windows[k],
                forall|k: int| i <= k < n ==> #[trigger] self@.windows[k] == m0.windows[k],
            decreases n - i,
        {
            let ghost before = self@;
            self.win_recompute_snapping_rect(WinId(i as u32));
            proof {
                assert(before.win(WinId(i as u32)) == m0.win(WinId(i as u32)));
                assert(before.display_rect(WinId(i as u32)) == m0.display_rect(WinId(i as u32)));
                assert(self@.windows[i as int] == m0.recompute_all().windows[i as int]);
            }
            i = i + 1;
        }
        proof {
            assert(self@.windows =~= m0.recompute_all().windows);
        }
    }

    /// Carries every window over to a new scale.
    fn rescale_windows(&mut self, to: u32)
        requires
            old(self).wf(),
            valid_scale(to),
        ensures
            final(self)@ == (WindowingModel {
                windows: Seq::new(
                    old(self)@.len(),
                    |i: int|
                        match old(self)@.windows[i] {
                            None => None,
                            Some(ws) => Some(
                                WindowingModel::rescale_window(
                                    ws,
                                    old(self)@.scale_milli as int,
                                    to as int,
                                ),
                            ),
                        },
                ),
                ..old(self)@
            }),
            final(self).wf(),
    {
        let ghost m0 = self@;
        let from = self.scale_milli;
        let n = self.window_states.len();
        let mut i: usize = 0;
        while i < n
            invariant
                m0.wf(),
                from == m0.scale_milli,
                valid_scale(to),
                n == m0.len(),
                i <= n,
                self.wf(),
                self@ == (WindowingModel { windows: self@.windows, ..m0 }),
                self@.len() == n,
                forall|k: int|
                    0 <= k < i ==> #[trigger] self@.windows[k] == match m0.windows[k] {
                        None => None,
                        Some(ws) => Some(
                            WindowingModel::rescale_window(ws, from as int, to as int),
                        ),
                    },
                forall|k: int| i <= k < n ==> #[trigger] self@.windows[k] == m0.windows[k],
            decreases n - i,
        {
            match self.window_states[i] {
                None => {},
                Some(ws) => {
                    assert(self@.windows[i as int] == m0.windows[i as int]);
                    let rect = make_stored_rect(
                        rescale_exec(ws.rect.x, from, to),
                        rescale_exec(ws.rect.y, from, to),
                        rescale_exec(ws.rect.w, from, to),
                        rescale_exec(ws.rect.h, from, to),
                    );
                    let mw = rescale_exec(ws.min_size.w, from, to);
                    let mh = rescale_exec(ws.min_size.h, from, to);
                    let min_size = Size {
                        w: if mw > MAX_MIN_SIZE as i64 {
                            MAX_MIN_SIZE
                        } else {
                            mw as i32
                        },
                        h: if mh > MAX_MIN_SIZE as i64 {
                            MAX_MIN_SIZE
                        } else {
                            mh as i32
                        },
                    };
                    proof {
                        assert(mw >= 0 && mh >= 0) by (nonlinear_arith)
                            requires
                                mw == rescaled(ws.min_size.w as int, from as int, to as int),
                                mh == rescaled(ws.min_size.h as int, from as int, to as int),
                                ws.min_size.w >= 0,
                                ws.min_size.h >= 0,
                                from >= 1,
                                to >= 1,
                        ;
                    }
                    self.put_win(WinId(i as u32), Some(WindowState { rect, min_size, ..ws }));
                },
            }
            i = i + 1;
        }
        proof {
            assert(self@.windows =~= Seq::new(
                m0.len(),
                |i: int|
                    match m0.windows[i] {
                        None => None,
                        Some(ws) => Some(
                            WindowingModel::rescale_window(ws, from as int, to as int),
                        ),
                    },
            ));
        }
    }

    /// Takes the area's size in device pixels and the display scale in
    /// thousandths; see `WindowingModel::set_dimensions`.
    pub fn set_dimensions(&mut self, area_size: Size, scale_milli: u32)
        requires
            old(self).wf(),
            0 <= area_size.w <= COORD_LIMIT,
            0 <= area_size.h <= COORD_LIMIT,
            valid_scale(scale_milli),
        ensures
            final(self).wf(),
            final(self)@ == old(self)@.set_dimensions(area_size, scale_milli),
    {
        let area_changed = self.area_size != area_size;
        let scale_changed = self.scale_milli != scale_milli;
        if !area_changed && !scale_changed {
            return ;
        }
        if scale_changed {
            self.rescale_windows(scale_milli);
            self.frame_metrics = FrameMetrics::with_hidpi_factor(scale_milli);
            self.scale_milli = scale_milli;
        }
        self.area_size = area_size;
        proof {
            let m0 = old(self)@;
            if scale_changed {
                assert forall|i: int| 0 <= i < self@.len() implies (
                #[trigger] self@.windows[i] matches Some(ws) ==> WindowingModel::window_ok(
                    ws,
                )) by {
                    if let Some(ws0) = m0.windows[i] {
                        let ws = WindowingModel::rescale_window(
                            ws0,
                            m0.scale_milli as int,
                            scale_milli as int,
                        );
                        assert(ws.min_size.w >= 0 && ws.min_size.h >= 0) by (nonlinear_arith)
                            requires
                                ws.min_size.w == clamp_min_extent(
                                    rescaled(ws0.min_size.w as int, m0.scale_milli as int, scale_milli as int),
                                ),
                                ws.min_size.h == clamp_min_extent(
                                    rescaled(ws0.min_size.h as int, m0.scale_milli as int, scale_milli as int),
                                ),
                        ;
                    }
                }
            }
        }
        self.recompute_snapped_win_rects();
    }

    /// Keeps every shown window within reach; see
    /// `WindowingModel::kept_in_area`.
    pub fn ensure_all_win_in_area(&mut self)
        requires
            old(self).wf(),
        ensures
            final(self).wf(),
            final(self)@ == old(self)@.ensure_all_in_area(),
    {
        let ghost m0 = self@;
        let b = self.frame_metrics.border_thickness as i64;
        let t = self.frame_metrics.title_bar_height as i64;
        let cw = self.frame_metrics.collapsed_win_width as i64;
        let area_w = self.area_size.w as i64;
        let area_h = self.area_size.h as i64;
        let n = self.window_states.len();
        let mut i: usize = 0;
        while i < n
            invariant
                m0.wf(),
                n == m0.len(),
                i <= n,
                b == m0.metrics.border_thickness,
                t == m0.metrics.title_bar_height,
                cw == m0.metrics.collapsed_win_width,
                area_w == m0.area_size.w,
                area_h == m0.area_size.h,
                self.wf(),
                self@ == (WindowingModel { windows: self@.windows, ..m0 }),
                self@.len() == n,
                forall|k: int|
                    0 <= k < i ==> #[trigger] self@.windows[k] == m0.ensure_all_in_area().windows[k],
                forall|k: int| i <= k < n ==> #[trigger] self@.windows[k] == m0.windows[k],
            decreases n - i,
        {
            match self.window_states[i] {
                None => {},
                Some(ws) => {
                    assert(self@.windows[i as int] == m0.windows[i as int]);
                    if !ws.is_hidden {
                        let w = ws.rect.w as i64;
                        let width_to_test = if ws.is_collapsed {
                            cw - b
                        } else {
                            (if cw < w {
                                cw
                            } else {
                                w
                            }) - b
                        };
                        let display_w = if ws.is_collapsed {
                            cw
                        } else {
                            w
                        };
                        let x = ws.rect.x as i64;
                        let y = ws.rect.y as i64;
                        let nx = if x <= width_to_test - display_w - b {
                            width_to_test - display_w - b
                        } else if x > area_w - width_to_test {
                            area_w - width_to_test
                        } else {
                            x
                        };
                        let ny = if y <= -b {
                            -b
                        } else if y > area_h - (b + t) {
                            area_h - (b + t)
                        } else {
                            y
                        };
                        let rect = make_stored_rect(nx, ny, w, ws.rect.h as i64);
                        self.put_win(WinId(i as u32), Some(WindowState { rect, ..ws }));
                    }
                },
            }
            i = i + 1;
        }
        proof {
            assert(self@.windows =~= m0.ensure_all_in_area().windows);
        }
    }

    /// Initializes the window if its slot holds none yet, with what `init`
    /// gives; `init` is called only then. See `WindowingModel::init_window`.
    pub fn ensure_init<F: FnOnce() -> WindowInitialState>(&mut self, win_id: WinId, init: F)
        requires
            old(self).wf(),
            old(self)@.valid_id(win_id),
            init.requires(()),
        ensures
            final(self).wf(),
            old(self)@.win(win_id) is Some ==> final(self)@ == old(self)@,
            old(self)@.win(win_id) is None ==> exists|st: WindowInitialState|
                init.ensures((), st) && final(self)@ == old(self)@.init_window(win_id, st),
    {
        if self.window_states[win_id.0 as usize].is_some() {
            return ;
        }
        let st = init();
        self.initialize(win_id, st);
    }

    /// Initializes the window if its slot holds none yet; see
    /// `WindowingModel::init_window`.
    pub(crate) fn initialize(&mut self, win_id: WinId, init: WindowInitialState)
        requires
            old(self).wf(),
            old(self)@.valid_id(win_id),
        ensures
            final(self).wf(),
            final(self)@ == old(self)@.init_window(win_id, init),
    {
        if self.window_states[win_id.0 as usize].is_some() {
            return ;
        }
        let s = self.scale_milli;
        let least = match init.min_size {
            Some(m) => Size { w: clamp_min_extent_exec(m.w), h: clamp_min_extent_exec(m.h) },
            None => Size { w: scale_small(150, s), h: scale_small(50, s) },
        };
        let b2 = 2 * self.frame_metrics.border_thickness as i64;
        let cw = init.client_size.w as i64;
        let ch = init.client_size.h as i64;
        let w = (if cw > least.w as i64 {
            cw
        } else {
            least.w as i64
        }) + b2;
        let h = (if ch > least.h as i64 {
            ch
        } else {
            least.h as i64
        }) + b2 + self.frame_metrics.title_bar_height as i64
            + self.frame_metrics.gap_below_title_bar as i64;
        let (x, y) = match init.position {
            Some(p) => (p.x as i64, p.y as i64),
            None => {
                let p = self.next_auto_position;
                let q = if scale_exec(p.y, s) + h > self.area_size.h as i64 {
                    Point {
                        x: clamp_coord_exec(32 + (p.x as i64 - p.y as i64) + 24),
                        y: 32,
                    }
                } else {
                    p
                };
                self.next_auto_position = Point {
                    x: clamp_coord_exec(q.x as i64 + 16),
                    y: clamp_coord_exec(q.y as i64 + 16),
                };
                (scale_exec(q.x, s), scale_exec(q.y, s))
            },
        };
        let ws = WindowState {
            rect: make_stored_rect(x, y, w, h),
            min_size: least,
            is_hidden: false,
            is_collapsed: init.is_collapsed,
            is_needed: true,
            anchor_x: Anchor::NoEdge,
            anchor_y: Anchor::NoEdge,
        };
        self.put_win(win_id, Some(ws));
        self.bring_to_top(win_id);
    }

    /// The part of the window under `pos`, if the window is shown and `pos`
    /// lies on it.
    pub fn specific_win_hit_test(&self, win_id: WinId, pos: Point) -> (r: Option<HitTest>)
        requires
            self.wf(),
            self@.valid_id(win_id),
        ensures
            r == self@.specific_hit(win_id, pos),
    {
        let rect = match self.win_display_rect_int(win_id) {
            None => return None,
            Some(r) => r,
        };
        let x = pos.x as i64 - rect.x as i64;
        let y = pos.y as i64 - rect.y as i64;
        if x < 0 || y < 0 || x > rect.w as i64 || y > rect.h as i64 {
            return None;
        }
        window_hit_test(rect.size(), Point { x: x as i32, y: y as i32 }, self.frame_metrics)
    }

    /// The topmost window under `pos` among those that `f` accepts, and the
    /// part of it there. Windows are offered to `f` from the top down until
    /// one is accepted and lies under `pos`.
    pub fn win_hit_test_filtered<F: Fn(WinId) -> bool>(&self, pos: Point, f: F) -> (r: Option<
        (WinId, HitTest),
    >)
        requires
            self.wf(),
            forall|id: WinId| f.requires((id,)),
        ensures
            match r {
                Some((id, ht)) => exists|k: int|
                    0 <= k < self@.len() && self@.bottom_to_top[k] == id && self@.specific_hit(
                        id,
                        pos,
                    ) == Some(ht) && f.ensures((id,), true) && forall|j: int|
                        k < j < self@.len() ==> #[trigger] self@.passed_over(f, j, pos),
                None => forall|j: int|
                    0 <= j < self@.len() ==> #[trigger] self@.passed_over(f, j, pos),
            },
    {
        let n = self.bottom_to_top_list.len();
        let mut k = n;
        while k > 0
            invariant
                self.wf(),
                n == self@.len(),
                k <= n,
                forall|id: WinId| f.requires((id,)),
                forall|j: int| k <= j < n ==> #[trigger] self@.passed_over(f, j, pos),
            decreases k,
        {
            let id = self.bottom_to_top_list[k - 1];
            if f(id) {
                match self.specific_win_hit_test(id, pos) {
                    Some(ht) => {
                        return Some((id, ht));
                    },
                    None => {},
                }
            }
            k = k - 1;
        }
        None
    }

    /// The topmost window under `pos`, and the part of it there.
    pub fn win_hit_test(&self, pos: Point) -> (r: Option<(WinId, HitTest)>)
        requires
            self.wf(),
        ensures
            r == self@.hit_below(pos, self@.len() as int),
            r matches Some((id, _)) ==> self@.valid_id(id),
    {
        let mut k = self.bottom_to_top_list.len();
        while k > 0
            invariant
                self.wf(),
                k <= self@.len(),
                self@.hit_below(pos, self@.len() as int) == self@.hit_below(pos, k as int),
            decreases k,
        {
            let id = self.bottom_to_top_list[k - 1];
            match self.specific_win_hit_test(id, pos) {
                Some(ht) => {
                    return Some((id, ht));
                },
                None => {},
            }
            k = k - 1;
        }
        None
    }
}


/// The place and extent along one axis that an anchor asks for.
fn anchored_dim_exec(
    anchor: Anchor,
    pos: i64,
    extent: i64,
    shown: i64,
    least: i64,
    area: i64,
    margin: i64,
) -> (r: (i64, i64))
    requires
        -COORD_LIMIT <= pos <= COORD_LIMIT,
        0 <= extent <= COORD_LIMIT,
        0 <= shown <= COORD_LIMIT,
        0 <= least <= COORD_LIMIT,
        0 <= area <= COORD_LIMIT,
        0 <= margin <= 1000,
    ensures
        r.0 == WindowingModel::anchored_dim(
            anchor,
            pos as int,
            extent as int,
            shown as int,
            least as int,
            area as int,
            margin as int,
        ).0,
        r.1 == WindowingModel::anchored_dim(
            anchor,
            pos as int,
            extent as int,
            shown as int,
            least as int,
            area as int,
            margin as int,
        ).1,
{
    match anchor {
        Anchor::NoEdge => (pos, extent),
        Anchor::LowerEdge => (margin, extent),
        Anchor::UpperEdge => (area - shown - margin, extent),
        Anchor::LowerAndUpperEdges => {
            let stretched = area - margin - margin;
            (margin, if least > stretched {
                least
            } else {
                stretched
            })
        },
    }
}

} // verus!
