//! Dragging a window: moving it, resizing it by a border or a corner, and
//! snapping its edges to the area's edges and to the edges of other windows.
use crate::dim::{DimRange, Dir, Direction, Horizontal, Point, Rect, Vertical};
use crate::hit_test::{HitTest, WindowDragAction1D};
use crate::layout::{
    make_stored_rect, stored_rect, DraggingState, WinId, WindowState, WindowingState, COORD_LIMIT,
};
use crate::model::{DragModel, WindowingModel};
use crate::metrics::{snap_margin, snap_threshold, spec_snap_margin, spec_snap_threshold};
use crate::snapping::{Anchor, SnapSegment};
use vstd::math::{abs, max};
use vstd::prelude::*;

verus! {

pub open spec fn opt_int(o: Option<i64>) -> Option<int> {
    match o {
        Some(v) => Some(v as int),
        None => None,
    }
}

/// How an edge dragged along one axis snaps to a line: it snaps when the
/// pointer's target lies within `threshold` of the line, and, when
/// resizing, only if the window keeps at least `min_dim` between the line
/// and its `fixed` edge.
#[derive(Clone, Copy)]
pub struct SnapRule {
    pub action: WindowDragAction1D,
    pub target: i64,
    pub fixed: i64,
    pub min_dim: i64,
    pub threshold: i64,
}

/// Bound on the values a snap rule works with.
pub const SNAP_VALUE_LIMIT: i64 = 17179869184;

impl SnapRule {
    pub open spec fn wf(self) -> bool {
        &&& -SNAP_VALUE_LIMIT <= self.target <= SNAP_VALUE_LIMIT
        &&& -SNAP_VALUE_LIMIT <= self.fixed <= SNAP_VALUE_LIMIT
        &&& 0 <= self.min_dim <= SNAP_VALUE_LIMIT
        &&& 0 <= self.threshold <= 1000
    }

    pub open spec fn spec_try(self, edge: int) -> Option<int> {
        if abs(self.target - edge) < self.threshold {
            match self.action {
                WindowDragAction1D::ResizeLower => if self.fixed - edge < self.min_dim {
                    None
                } else {
                    Some(edge)
                },
                WindowDragAction1D::ResizeUpper => if edge - self.fixed < self.min_dim {
                    None
                } else {
                    Some(edge)
                },
                _ => Some(edge),
            }
        } else {
            None
        }
    }

    pub fn try_snap(&self, edge: i64) -> (r: Option<i64>)
        requires
            self.wf(),
            -SNAP_VALUE_LIMIT <= edge <= SNAP_VALUE_LIMIT,
        ensures
            opt_int(r) == self.spec_try(edge as int),
            r matches Some(v) ==> v == edge,
    {
        let d = self.target - edge;
        let dist = if d < 0 {
            -d
        } else {
            d
        };
        if dist < self.threshold {
            match self.action {
                WindowDragAction1D::ResizeLower => if self.fixed - edge < self.min_dim {
                    None
                } else {
                    Some(edge)
                },
                WindowDragAction1D::ResizeUpper => if edge - self.fixed < self.min_dim {
                    None
                } else {
                    Some(edge)
                },
                _ => Some(edge),
            }
        } else {
            None
        }
    }
}

/// Whether the segment is valid over some of `(lo, hi)`.
pub open spec fn seg_overlaps<P: Dir>(seg: SnapSegment<P>, lo: int, hi: int) -> bool {
    seg.spec_dim_range().spec_lower() < hi && lo < seg.spec_dim_range().spec_upper()
}

/// The first candidate from `i` on that overlaps `(lo, hi)` and that the
/// rule snaps to: its index and the place snapped to.
pub open spec fn first_snap<P: Dir>(
    rule: SnapRule,
    lo: int,
    hi: int,
    cands: Seq<(WinId, SnapSegment<P>)>,
    i: int,
) -> Option<(int, int)>
    decreases cands.len() - i,
{
    if i < 0 || i >= cands.len() {
        None
    } else if seg_overlaps(cands[i].1, lo, hi) && rule.spec_try(
        cands[i].1.spec_perpendicular_dim() as int,
    ) is Some {
        Some((i, rule.spec_try(cands[i].1.spec_perpendicular_dim() as int).unwrap()))
    } else {
        first_snap(rule, lo, hi, cands, i + 1)
    }
}

/// The candidate snapped to last time, while it still overlaps and the
/// rule still snaps to it.
pub open spec fn kept_snap<P: Dir>(
    rule: SnapRule,
    lo: int,
    hi: int,
    cands: Seq<(WinId, SnapSegment<P>)>,
    last: Option<u32>,
) -> Option<int> {
    match last {
        Some(k) => if k < cands.len() && seg_overlaps(cands[k as int].1, lo, hi) {
            rule.spec_try(cands[k as int].1.spec_perpendicular_dim() as int)
        } else {
            None
        },
        None => None,
    }
}

/// Snapping to the candidates: the one snapped to last time is kept while
/// it still overlaps and the rule still snaps to it; otherwise the first
/// that does is taken. Gives the place snapped to and the candidate to
/// remember.
pub open spec fn snap_candidates_spec<P: Dir>(
    rule: SnapRule,
    lo: int,
    hi: int,
    cands: Seq<(WinId, SnapSegment<P>)>,
    last: Option<u32>,
) -> (Option<int>, Option<u32>) {
    let kept = kept_snap(rule, lo, hi, cands, last);
    if kept is Some {
        (kept, last)
    } else {
        match first_snap(rule, lo, hi, cands, 0) {
            Some((i, e)) => (Some(e), Some(i as u32)),
            None => (None, None),
        }
    }
}

/// The inputs of one axis of a drag update, in device pixels.
pub struct AxisInput {
    pub action: WindowDragAction1D,
    /// Place and extent of the window when the drag started.
    pub start_pos: i64,
    pub start_ext: i64,
    /// Extent of the window as shown before this update.
    pub shown_ext: i64,
    /// How far the pointer moved since the drag started.
    pub delta: i64,
    pub min_dim: i64,
    pub area_ext: i64,
    pub margin: i64,
    pub threshold: i64,
    /// The interval the window covers across the axis.
    pub lo: i32,
    pub hi: i32,
}

impl AxisInput {
    pub open spec fn wf(self) -> bool {
        &&& -1073741824 <= self.start_pos <= 1073741824
        &&& 0 <= self.start_ext <= 1073741824
        &&& 0 <= self.shown_ext <= 1073741824
        &&& -2147483648 <= self.delta <= 2147483647
        &&& 0 <= self.min_dim <= 1073741824
        &&& 0 <= self.area_ext <= 1073741824
        &&& 0 <= self.margin <= 1000
        &&& 0 <= self.threshold <= 1000
        &&& self.lo <= self.hi
    }

    pub open spec fn rule(self) -> SnapRule {
        match self.action {
            WindowDragAction1D::ResizeLower => SnapRule {
                action: self.action,
                target: (self.start_pos + self.delta) as i64,
                fixed: (self.start_pos + self.start_ext) as i64,
                min_dim: self.min_dim,
                threshold: self.threshold,
            },
            WindowDragAction1D::ResizeUpper => SnapRule {
                action: self.action,
                target: (self.start_pos + self.start_ext + self.delta) as i64,
                fixed: self.start_pos,
                min_dim: self.min_dim,
                threshold: self.threshold,
            },
            _ => SnapRule {
                action: self.action,
                target: (self.start_pos + self.delta) as i64,
                fixed: self.start_pos,
                min_dim: self.min_dim,
                threshold: self.threshold,
            },
        }
    }

    /// Snapping to the area's edges: both when moving, the lower one when
    /// resizing the lower edge, the upper one when resizing the upper edge.
    pub open spec fn area_snap(self) -> Option<int> {
        let rule = self.rule();
        match self.action {
            WindowDragAction1D::MoveWindow => if rule.spec_try(self.margin as int) is Some {
                rule.spec_try(self.margin as int)
            } else {
                rule.spec_try(self.area_ext - self.margin - self.shown_ext)
            },
            WindowDragAction1D::ResizeLower => rule.spec_try(self.margin as int),
            WindowDragAction1D::ResizeUpper => rule.spec_try(self.area_ext - self.margin),
            WindowDragAction1D::Unaffected => None,
        }
    }

    /// The new place and extent along the axis, and the candidate to
    /// remember. The area's edges come first, then the candidates, then the
    /// place the pointer asks for, with the extent kept at least `min_dim`
    /// when resizing.
    pub open spec fn update<P: Dir>(
        self,
        cands: Seq<(WinId, SnapSegment<P>)>,
        last: Option<u32>,
    ) -> (int, int, Option<u32>) {
        let rule = self.rule();
        let (snapped, remembered) = if self.area_snap() is Some {
            (self.area_snap(), None)
        } else {
            snap_candidates_spec(rule, self.lo as int, self.hi as int, cands, last)
        };
        match self.action {
            WindowDragAction1D::Unaffected => (self.start_pos as int, self.start_ext as int, last),
            WindowDragAction1D::MoveWindow => (
                match snapped {
                    Some(e) => e,
                    None => rule.target as int,
                },
                self.start_ext as int,
                remembered,
            ),
            WindowDragAction1D::ResizeLower => {
                let pos = match snapped {
                    Some(e) => e,
                    None => rule.fixed - max(self.start_ext - self.delta, self.min_dim as int),
                };
                (pos, self.start_ext + self.start_pos - pos, remembered)
            },
            WindowDragAction1D::ResizeUpper => (
                self.start_pos as int,
                match snapped {
                    Some(e) => e - self.start_pos,
                    None => max(self.start_ext + self.delta, self.min_dim as int),
                },
                remembered,
            ),
        }
    }
}

proof fn lemma_first_snap_index<P: Dir>(
    rule: SnapRule,
    lo: int,
    hi: int,
    cands: Seq<(WinId, SnapSegment<P>)>,
    i: int,
)
    ensures
        first_snap(rule, lo, hi, cands, i) matches Some((k, e)) ==> i <= k < cands.len()
            && rule.spec_try(cands[k].1.spec_perpendicular_dim() as int) == Some(e),
    decreases cands.len() - i,
{
    if 0 <= i < cands.len() {
        lemma_first_snap_index(rule, lo, hi, cands, i + 1);
    }
}

/// Snaps to the candidates; see `snap_candidates_spec`.
fn snap_dimension<P: Dir>(
    rule: &SnapRule,
    lo: i32,
    hi: i32,
    cands: &Vec<(WinId, SnapSegment<P>)>,
    last: &mut Option<u32>,
) -> (r: Option<i64>)
    requires
        rule.wf(),
        lo <= hi,
        cands.len() < u32::MAX,
        *old(last) matches Some(k) ==> k < cands.len(),
    ensures
        (opt_int(r), *final(last)) == snap_candidates_spec(*rule, lo as int, hi as int, cands@, *old(last)),
        *final(last) matches Some(k) ==> k < cands.len(),
        r matches Some(v) ==> i32::MIN <= v <= i32::MAX,
{
    let range = DimRange::<P>::new(lo, hi);
    if let Some(k) = *last {
        let (_, seg) = cands[k as usize];
        if seg.dim_range().overlaps_with(range) {
            let kept = rule.try_snap(seg.perpendicular_dim() as i64);
            if kept.is_some() {
                return kept;
            }
        }
    }
    let mut i: usize = 0;
    while i < cands.len()
        invariant
            rule.wf(),
            cands.len() < u32::MAX,
            *last == *old(last),
            kept_snap(*rule, lo as int, hi as int, cands@, *old(last)) is None,
            range.spec_lower() == lo,
            range.spec_upper() == hi,
            i <= cands.len(),
            first_snap(*rule, lo as int, hi as int, cands@, 0) == first_snap(
                *rule,
                lo as int,
                hi as int,
                cands@,
                i as int,
            ),
        decreases cands.len() - i,
    {
        let (_, seg) = cands[i];
        if seg.dim_range().overlaps_with(range) {
            let snapped = rule.try_snap(seg.perpendicular_dim() as i64);
            if let Some(e) = snapped {
                *last = Some(i as u32);
                return Some(e);
            }
        }
        i = i + 1;
    }
    *last = None;
    None
}

/// The new place and extent of the window along one axis; see
/// `AxisInput::update`.
fn calc_new_dimensions<P: Dir>(
    input: &AxisInput,
    cands: &Vec<(WinId, SnapSegment<P>)>,
    last: &mut Option<u32>,
) -> (r: (i64, i64))
    requires
        input.wf(),
        cands.len() < u32::MAX,
        *old(last) matches Some(k) ==> k < cands.len(),
    ensures
        (r.0 as int, r.1 as int, *final(last)) == input.update(cands@, *old(last)),
        *final(last) matches Some(k) ==> k < cands.len(),
{
    let rule = match input.action {
        WindowDragAction1D::ResizeLower => SnapRule {
            action: input.action,
            target: input.start_pos + input.delta,
            fixed: input.start_pos + input.start_ext,
            min_dim: input.min_dim,
            threshold: input.threshold,
        },
        WindowDragAction1D::ResizeUpper => SnapRule {
            action: input.action,
            target: input.start_pos + input.start_ext + input.delta,
            fixed: input.start_pos,
            min_dim: input.min_dim,
            threshold: input.threshold,
        },
        _ => SnapRule {
            action: input.action,
            target: input.start_pos + input.delta,
            fixed: input.start_pos,
            min_dim: input.min_dim,
            threshold: input.threshold,
        },
    };
    assert(rule == input.rule());
    let area_snap = match input.action {
        WindowDragAction1D::MoveWindow => {
            let lower = rule.try_snap(input.margin);
            if lower.is_some() {
                lower
            } else {
                rule.try_snap(input.area_ext - input.margin - input.shown_ext)
            }
        },
        WindowDragAction1D::ResizeLower => rule.try_snap(input.margin),
        WindowDragAction1D::ResizeUpper => rule.try_snap(input.area_ext - input.margin),
        WindowDragAction1D::Unaffected => None,
    };
    assert(opt_int(area_snap) == input.area_snap());
    if let WindowDragAction1D::Unaffected = input.action {
        return (input.start_pos, input.start_ext);
    }
    let snapped = if area_snap.is_some() {
        *last = None;
        area_snap
    } else {
        snap_dimension(&rule, input.lo, input.hi, cands, last)
    };
    match input.action {
        WindowDragAction1D::MoveWindow => {
            let pos = match snapped {
                Some(e) => e,
                None => rule.target,
            };
            (pos, input.start_ext)
        },
        WindowDragAction1D::ResizeLower => {
            let pos = match snapped {
                Some(e) => e,
                None => {
                    let shrunk = input.start_ext - input.delta;
                    rule.fixed - if shrunk > input.min_dim {
                        shrunk
                    } else {
                        input.min_dim
                    }
                },
            };
            (pos, input.start_ext + input.start_pos - pos)
        },
        _ => {
            let ext = match snapped {
                Some(e) => e - input.start_pos,
                None => {
                    let grown = input.start_ext + input.delta;
                    if grown > input.min_dim {
                        grown
                    } else {
                        input.min_dim
                    }
                },
            };
            (input.start_pos, ext)
        },
    }
}

/// The snap lines that the window `j` offers to the window `id` dragged
/// along `dir`, each as its owner, its place along `dir`, and the interval
/// across `dir` it is valid over. A moved window may bring either of its
/// edges next to either edge of the other, `margin` apart; a resized lower
/// edge goes next to the other's upper edge, and a resized upper edge next
/// to its lower edge. Hidden and freed windows, and the window itself,
/// offer none.
pub open spec fn window_candidates(
    m: WindowingModel,
    id: WinId,
    action: WindowDragAction1D,
    dir: Direction,
    margin: int,
    shown_ext: int,
    j: int,
) -> Seq<(WinId, int, int, int)> {
    let other = WinId(j as u32);
    if j == id.0 {
        seq![]
    } else {
        match m.display_rect(other) {
            None => seq![],
            Some(r) => {
                let lo = r.lo(dir.spec_perpendicular());
                let hi = r.hi(dir.spec_perpendicular());
                match action {
                    WindowDragAction1D::Unaffected => seq![],
                    WindowDragAction1D::MoveWindow => seq![
                        (other, r.lo(dir) - margin - shown_ext, lo, hi),
                        (other, r.hi(dir) + margin, lo, hi),
                    ],
                    WindowDragAction1D::ResizeLower => seq![(other, r.hi(dir) + margin, lo, hi)],
                    WindowDragAction1D::ResizeUpper => seq![(other, r.lo(dir) - margin, lo, hi)],
                }
            },
        }
    }
}

/// The snap lines of the windows below the slot `k`, in slot order.
pub open spec fn candidates_below(
    m: WindowingModel,
    id: WinId,
    action: WindowDragAction1D,
    dir: Direction,
    margin: int,
    shown_ext: int,
    k: int,
) -> Seq<(WinId, int, int, int)>
    decreases k,
{
    if k <= 0 {
        seq![]
    } else {
        candidates_below(m, id, action, dir, margin, shown_ext, k - 1) + window_candidates(
            m,
            id,
            action,
            dir,
            margin,
            shown_ext,
            k - 1,
        )
    }
}

pub open spec fn segments_match<P: Dir>(
    cands: Seq<(WinId, SnapSegment<P>)>,
    expected: Seq<(WinId, int, int, int)>,
) -> bool {
    &&& cands.len() == expected.len()
    &&& forall|i: int|
        0 <= i < cands.len() ==> (#[trigger] cands[i]).0 == expected[i].0 && cands[i].1.is_segment(
            expected[i].1,
            expected[i].2,
            expected[i].3,
        )
}

/// The anchor that a window's place along one axis earns: the lower edge
/// when it lies `margin` from the area's lower edge, the upper edge when its
/// shown extent ends `margin` before the area's upper edge.
pub open spec fn edge_anchor(pos: int, shown: int, area: int, margin: int) -> Anchor {
    let lower = pos == margin;
    let upper = pos + shown == area - margin;
    if lower && upper {
        Anchor::LowerAndUpperEdges
    } else if lower {
        Anchor::LowerEdge
    } else if upper {
        Anchor::UpperEdge
    } else {
        Anchor::NoEdge
    }
}

fn check_snap_anchor(pos: i32, shown: i32, area: i32, margin: i32) -> (r: Anchor)
    requires
        -COORD_LIMIT <= pos <= COORD_LIMIT,
        0 <= shown <= COORD_LIMIT,
        0 <= area <= COORD_LIMIT,
        0 <= margin <= 1000,
    ensures
        r == edge_anchor(pos as int, shown as int, area as int, margin as int),
{
    let lower = pos == margin;
    let upper = pos + shown == area - margin;
    if lower && upper {
        Anchor::LowerAndUpperEdges
    } else if lower {
        Anchor::LowerEdge
    } else if upper {
        Anchor::UpperEdge
    } else {
        Anchor::NoEdge
    }
}

impl WindowingModel {
    /// Ends the drag in progress. An aborted drag puts the window back where
    /// it started; a finished one records the area edges the window lies
    /// against as its anchors.
    pub open spec fn drag_end(self, abort: bool) -> WindowingModel {
        match self.drag {
            None => self,
            Some(d) => {
                let m = WindowingModel { drag: None, ..self };
                if abort {
                    m.set_rect(d.win_id, d.starting_rect)
                } else {
                    match (m.win(d.win_id), m.display_rect(d.win_id)) {
                        (Some(ws), Some(shown)) => {
                            let margin = spec_snap_margin(m.scale_milli as int);
                            m.with_win(
                                d.win_id,
                                Some(
                                    WindowState {
                                        anchor_x: edge_anchor(
                                            ws.rect.x as int,
                                            shown.w as int,
                                            m.area_size.w as int,
                                            margin,
                                        ),
                                        anchor_y: edge_anchor(
                                            ws.rect.y as int,
                                            shown.h as int,
                                            m.area_size.h as int,
                                            margin,
                                        ),
                                        ..ws
                                    },
                                ),
                            )
                        },
                        _ => m,
                    }
                }
            },
        }
    }

    /// The state a new drag starts from: a drag in progress is finished.
    pub open spec fn drag_start_base(self) -> WindowingModel {
        match self.drag {
            None => self,
            Some(_) => self.drag_end(false),
        }
    }

    /// A drag starts on a shown window, unless it would resize a collapsed one.
    pub open spec fn can_start_drag(self, id: WinId, ht: HitTest) -> bool {
        &&& !(ht.is_resize() && (self.win(id) matches Some(ws) && ws.is_collapsed))
        &&& self.display_rect(id) is Some
    }

    /// The snap lines a drag of the window by `ht` starts with along `dir`.
    pub open spec fn drag_candidates(self, id: WinId, ht: HitTest, dir: Direction) -> Seq<
        (WinId, int, int, int),
    > {
        candidates_below(
            self,
            id,
            ht.spec_drag_action(dir),
            dir,
            spec_snap_margin(self.scale_milli as int),
            self.display_rect(id).unwrap().spec_size().spec_dim(dir) as int,
            self.len() as int,
        )
    }

    /// What starting a drag of the window `id` by the part `ht` leads to from
    /// `self`: `started` tells whether the drag started, and `next` is the
    /// state after.
    pub open spec fn drag_start_post(
        self,
        id: WinId,
        ht: HitTest,
        next: WindowingModel,
        started: bool,
    ) -> bool {
        let base = self.drag_start_base();
        &&& started == base.can_start_drag(id, ht)
        &&& !started ==> next == base
        &&& started ==> next == (WindowingModel { drag: next.drag, ..base })
        &&& started ==> (next.drag matches Some(d) && d.win_id == id && d.hit_test == ht
            && d.starting_rect == base.win(id).unwrap().rect && d.last_snapped_x is None
            && d.last_snapped_y is None && segments_match(
            d.candidates_x,
            base.drag_candidates(id, ht, Direction::Horizontal),
        ) && segments_match(d.candidates_y, base.drag_candidates(id, ht, Direction::Vertical)))
    }

    /// The inputs of a drag update along `dir`.
    pub open spec fn axis_input(
        self,
        d: DragModel,
        prev: Rect,
        offset: Point,
        dir: Direction,
    ) -> AxisInput {
        let ws = self.win(d.win_id).unwrap();
        let perp = dir.spec_perpendicular();
        AxisInput {
            action: d.hit_test.spec_drag_action(dir),
            start_pos: d.starting_rect.spec_pos().spec_dim(dir) as i64,
            start_ext: d.starting_rect.spec_size().spec_dim(dir) as i64,
            shown_ext: prev.spec_size().spec_dim(dir) as i64,
            delta: offset.spec_dim(dir) as i64,
            min_dim: (match dir {
                Direction::Horizontal => self.min_total_w(ws),
                Direction::Vertical => self.min_total_h(ws),
            }) as i64,
            area_ext: self.area_size.spec_dim(dir) as i64,
            margin: spec_snap_margin(self.scale_milli as int) as i64,
            threshold: spec_snap_threshold(self.scale_milli as int) as i64,
            lo: prev.spec_pos().spec_dim(perp),
            hi: (prev.spec_pos().spec_dim(perp) + prev.spec_size().spec_dim(perp)) as i32,
        }
    }

    /// One step of a drag: the pointer lies `offset` from where the drag
    /// started. The dragged window is raised to the top and each axis is
    /// updated on its own; see `AxisInput::update`. A drag whose window is
    /// no longer shown is aborted. Gives the state after, and whether a drag
    /// went on.
    pub open spec fn drag_update(self, offset: Point) -> (WindowingModel, bool) {
        match self.drag {
            None => (self, false),
            Some(d) => match self.display_rect(d.win_id) {
                None => (self.drag_end(true), false),
                Some(prev) => {
                    let ix = self.axis_input(d, prev, offset, Direction::Horizontal);
                    let iy = self.axis_input(d, prev, offset, Direction::Vertical);
                    let (x, w, lx) = ix.update(d.candidates_x, d.last_snapped_x);
                    let (y, h, ly) = iy.update(d.candidates_y, d.last_snapped_y);
                    let raised = self.bring_to_top(d.win_id);
                    let next = WindowingModel {
                        drag: Some(DragModel { last_snapped_x: lx, last_snapped_y: ly, ..d }),
                        ..raised
                    };
                    (next.set_rect(d.win_id, stored_rect(x, y, w, h)), true)
                },
            },
        }
    }
}

impl WindowingState {
    /// Gathers the snap lines that the other windows offer to the window
    /// `id` dragged along `dir`.
    fn gather_candidates<P: Dir>(
        &self,
        id: WinId,
        action: WindowDragAction1D,
        dir: Direction,
        margin: i32,
        shown_ext: i32,
    ) -> (r: Vec<(WinId, SnapSegment<P>)>)
        requires
            self.wf(),
            self@.valid_id(id),
            P::spec_direction() == dir.spec_perpendicular(),
            0 <= margin <= 1000,
            0 <= shown_ext <= COORD_LIMIT,
        ensures
            segments_match(
                r@,
                candidates_below(
                    self@,
                    id,
                    action,
                    dir,
                    margin as int,
                    shown_ext as int,
                    self@.len() as int,
                ),
            ),
            r@.len() <= 2 * self@.len(),
    {
        let n = self.win_count();
        let perp = dir.perpendicular();
        let mut r: Vec<(WinId, SnapSegment<P>)> = Vec::new();
        let mut j: usize = 0;
        while j < n
            invariant
                self.wf(),
                n == self@.len(),
                j <= n,
                self@.valid_id(id),
                perp == dir.spec_perpendicular(),
                P::spec_direction() == dir.spec_perpendicular(),
                0 <= margin <= 1000,
                0 <= shown_ext <= COORD_LIMIT,
                segments_match(
                    r@,
                    candidates_below(self@, id, action, dir, margin as int, shown_ext as int, j as int),
                ),
                r@.len() <= 2 * j,
            decreases n - j,
        {
            let ghost before = r@;
            let other = WinId(j as u32);
            if j as u32 != id.0 {
                match self.win_display_rect_int(other) {
                    None => {},
                    Some(rect) => {
                        proof {
                            let ws = self@.windows[j as int].unwrap();
                            assert(WindowingModel::window_ok(ws));
                        }
                        let lo = rect.pos().dim_along(perp);
                        let hi = lo + rect.size().dim_along(perp);
                        let range = DimRange::<P>::new(lo, hi);
                        let lower = rect.pos().dim_along(dir);
                        let upper = lower + rect.size().dim_along(dir);
                        match action {
                            WindowDragAction1D::Unaffected => {},
                            WindowDragAction1D::MoveWindow => {
                                r.push((other, SnapSegment::new(lower - margin - shown_ext, range)));
                                r.push((other, SnapSegment::new(upper + margin, range)));
                            },
                            WindowDragAction1D::ResizeLower => {
                                r.push((other, SnapSegment::new(upper + margin, range)));
                            },
                            WindowDragAction1D::ResizeUpper => {
                                r.push((other, SnapSegment::new(lower - margin, range)));
                            },
                        }
                    },
                }
            }
            proof {
                let expected = candidates_below(
                    self@,
                    id,
                    action,
                    dir,
                    margin as int,
                    shown_ext as int,
                    j as int + 1,
                );
                let added = window_candidates(
                    self@,
                    id,
                    action,
                    dir,
                    margin as int,
                    shown_ext as int,
                    j as int,
                );
                let prev_expected = candidates_below(
                    self@,
                    id,
                    action,
                    dir,
                    margin as int,
                    shown_ext as int,
                    j as int,
                );
                assert(expected == prev_expected + added);
                assert(r@.len() == expected.len());
                assert forall|i: int| 0 <= i < r@.len() implies (#[trigger] r@[i]).0 == expected[i].0
                    && r@[i].1.is_segment(expected[i].1, expected[i].2, expected[i].3) by {
                    if i < before.len() {
                        assert(r@[i] == before[i]);
                    }
                }
            }
            j = j + 1;
        }
        r
    }

    /// Ends the drag in progress, if any; see `WindowingModel::drag_end`.
    pub fn win_drag_end(&mut self, abort: bool)
        requires
            old(self).wf(),
        ensures
            final(self).wf(),
            final(self)@ == old(self)@.drag_end(abort),
    {
        let d = match self.take_drag() {
            None => return ,
            Some(d) => d,
        };
        let win_id = d.win_id;
        if abort {
            self.set_win_normal_rect_int(win_id, d.starting_rect);
            proof {
                assert(stored_rect(
                    d.starting_rect.x as int,
                    d.starting_rect.y as int,
                    d.starting_rect.w as int,
                    d.starting_rect.h as int,
                ) == d.starting_rect);
            }
            return ;
        }
        let ws = match self.window(win_id) {
            None => return ,
            Some(ws) => ws,
        };
        let shown = match self.win_display_rect_int(win_id) {
            None => return ,
            Some(r) => r,
        };
        proof {
            assert(WindowingModel::window_ok(self@.windows[win_id.0 as int].unwrap()));
        }
        let margin = snap_margin(self.scale_milli());
        let area = self.area_size();
        let anchor_x = check_snap_anchor(ws.rect.x, shown.w, area.w, margin);
        let anchor_y = check_snap_anchor(ws.rect.y, shown.h, area.h, margin);
        self.put_win(win_id, Some(WindowState { anchor_x, anchor_y, ..ws }));
    }

    /// The window being dragged, and the part it is dragged by.
    pub fn current_dragging_win(&self) -> (r: Option<(WinId, HitTest)>)
        ensures
            r == match self@.drag {
                None => None,
                Some(d) => Some((d.win_id, d.hit_test)),
            },
    {
        match self.dragging() {
            None => None,
            Some(d) => Some((d.win_id, d.dragging_hit_test)),
        }
    }

    /// Starts dragging the window by the part `dragging_hit_test`, after
    /// finishing a drag in progress. Refused, with `false`, for a window
    /// that is not shown, and for resizing a collapsed one. The snap lines
    /// of all other shown windows are gathered now.
    pub fn win_drag_start(&mut self, win_id: WinId, dragging_hit_test: HitTest) -> (r: bool)
        requires
            old(self).wf(),
            old(self)@.valid_id(win_id),
        ensures
            final(self).wf(),
            old(self)@.drag_start_post(win_id, dragging_hit_test, final(self)@, r),
    {
        if self.dragging().is_some() {
            self.win_drag_end(false);
        }
        assert(self@ == old(self)@.drag_start_base());
        if dragging_hit_test.resizes() && self.win_is_collapsed(win_id) {
            return false;
        }
        let starting_rect = match self.win_normal_rect_int(win_id) {
            Some(x) => x,
            None => return false,
        };
        let shown = match self.win_display_rect_int(win_id) {
            Some(r) => r.size(),
            None => return false,
        };
        proof {
            assert(WindowingModel::window_ok(self@.windows[win_id.0 as int].unwrap()));
        }
        let margin = snap_margin(self.scale_milli());
        let snap_candidates_x = self.gather_candidates::<Vertical>(
            win_id,
            dragging_hit_test.drag_action_along(Direction::Horizontal),
            Direction::Horizontal,
            margin,
            shown.w,
        );
        let snap_candidates_y = self.gather_candidates::<Horizontal>(
            win_id,
            dragging_hit_test.drag_action_along(Direction::Vertical),
            Direction::Vertical,
            margin,
            shown.h,
        );
        let d = DraggingState {
            win_id,
            dragging_hit_test,
            starting_rect,
            snap_candidates_x,
            last_snapped_x: None,
            snap_candidates_y,
            last_snapped_y: None,
        };
        self.put_drag(d);
        true
    }

    /// One step of the drag in progress, the pointer being `offset` device
    /// pixels from where the drag started; see `WindowingModel::drag_update`.
    #[verifier::spinoff_prover]
    #[verifier::rlimit(60)]
    pub fn win_drag_update(&mut self, offset: Point) -> (r: bool)
        requires
            old(self).wf(),
        ensures
            final(self).wf(),
            (final(self)@, r) == old(self)@.drag_update(offset),
    {
        let (win_id, ht, start) = match self.dragging() {
            None => return false,
            Some(d) => (d.win_id, d.dragging_hit_test, d.starting_rect),
        };
        let prev = match self.win_display_rect_int(win_id) {
            Some(x) => x,
            None => {
                self.win_drag_end(true);
                return false;
            },
        };
        let ghost m0 = self@;
        let ws = match self.window(win_id) {
            Some(ws) => ws,
            None => return false,
        };
        proof {
            assert(WindowingModel::window_ok(ws));
        }
        let metrics = self.frame_metrics();
        let scale = self.scale_milli();
        let area = self.area_size();
        let b = metrics.border_thickness as i64;
        let margin = snap_margin(scale) as i64;
        let threshold = snap_threshold(scale) as i64;
        let ix = AxisInput {
            action: ht.drag_action_along(Direction::Horizontal),
            start_pos: start.x as i64,
            start_ext: start.w as i64,
            shown_ext: prev.w as i64,
            delta: offset.x as i64,
            min_dim: 2 * b + ws.min_size.w as i64,
            area_ext: area.w as i64,
            margin,
            threshold,
            lo: prev.y,
            hi: prev.y + prev.h,
        };
        let iy = AxisInput {
            action: ht.drag_action_along(Direction::Vertical),
            start_pos: start.y as i64,
            start_ext: start.h as i64,
            shown_ext: prev.h as i64,
            delta: offset.y as i64,
            min_dim: 2 * b + metrics.title_bar_height as i64 + ws.min_size.h as i64,
            area_ext: area.h as i64,
            margin,
            threshold,
            lo: prev.x,
            hi: prev.x + prev.w,
        };
        proof {
            let d = m0.drag.unwrap();
            assert(ix == m0.axis_input(d, prev, offset, Direction::Horizontal));
            assert(iy == m0.axis_input(d, prev, offset, Direction::Vertical));
        }
        self.bring_to_top(win_id);
        let mut d = match self.take_drag() {
            Some(d) => d,
            None => return false,
        };
        let mut last_x = d.last_snapped_x;
        let (x, w) = calc_new_dimensions(&ix, &d.snap_candidates_x, &mut last_x);
        let mut last_y = d.last_snapped_y;
        let (y, h) = calc_new_dimensions(&iy, &d.snap_candidates_y, &mut last_y);
        d.last_snapped_x = last_x;
        d.last_snapped_y = last_y;
        self.put_drag(d);
        let rect = make_stored_rect(x, y, w, h);
        self.set_win_normal_rect_int(win_id, rect);
        true
    }
}

/// Starting a drag and aborting it at once leaves every window where it
/// was: the state is the one that finishing any earlier drag gave.
pub proof fn lemma_drag_abort_restores(
    m0: WindowingModel,
    id: WinId,
    ht: HitTest,
    m1: WindowingModel,
    started: bool,
)
    requires
        m0.wf(),
        m0.valid_id(id),
        m0.drag_start_post(id, ht, m1, started),
    ensures
        m1.drag_end(true) == m0.drag_start_base(),
        m1.drag_end(true).normal_rect(id) == m0.normal_rect(id),
{
    let base = m0.drag_start_base();
    if started {
        assert(m1.drag_end(true).windows =~= base.windows);
    }
}

/// The snapped place `e` comes from a line the rule snaps to.
proof fn lemma_snapped_obeys_rule<P: Dir>(
    input: AxisInput,
    cands: Seq<(WinId, SnapSegment<P>)>,
    last: Option<u32>,
)
    ensures
        ({
            let (snapped, remembered) = if input.area_snap() is Some {
                (input.area_snap(), None::<u32>)
            } else {
                snap_candidates_spec(input.rule(), input.lo as int, input.hi as int, cands, last)
            };
            snapped matches Some(e) ==> input.rule().spec_try(e) == Some(e)
        }),
{
    lemma_first_snap_index(input.rule(), input.lo as int, input.hi as int, cands, 0);
}

/// Resizing along an axis never makes the window smaller than `min_dim`.
pub proof fn lemma_axis_resize_keeps_min<P: Dir>(
    input: AxisInput,
    cands: Seq<(WinId, SnapSegment<P>)>,
    last: Option<u32>,
)
    requires
        input.wf(),
        input.action is ResizeLower || input.action is ResizeUpper,
    ensures
        input.update(cands, last).1 >= input.min_dim,
{
    lemma_snapped_obeys_rule(input, cands, last);
}

/// However a window is dragged by a border or a corner, it keeps at least
/// its least total size along each axis it is resized on: its least
/// content width and both borders, its least content height, both borders
/// and the title bar.
pub proof fn lemma_drag_resize_keeps_min_size(m: WindowingModel, offset: Point)
    requires
        m.wf(),
        m.drag is Some,
        m.display_rect(m.drag.unwrap().win_id) is Some,
    ensures
        ({
            let d = m.drag.unwrap();
            let ws = m.win(d.win_id).unwrap();
            let r = m.drag_update(offset).0.win(d.win_id).unwrap().rect;
            &&& d.hit_test.spec_drag_action(Direction::Horizontal).is_resize_action() ==> r.w
                >= m.min_total_w(ws)
            &&& d.hit_test.spec_drag_action(Direction::Vertical).is_resize_action() ==> r.h
                >= m.min_total_h(ws)
        }),
{
    let d = m.drag.unwrap();
    let ws = m.win(d.win_id).unwrap();
    let prev = m.display_rect(d.win_id).unwrap();
    assert(WindowingModel::window_ok(ws));
    let ix = m.axis_input(d, prev, offset, Direction::Horizontal);
    let iy = m.axis_input(d, prev, offset, Direction::Vertical);
    if ix.action.is_resize_action() {
        lemma_axis_resize_keeps_min(ix, d.candidates_x, d.last_snapped_x);
    }
    if iy.action.is_resize_action() {
        lemma_axis_resize_keeps_min(iy, d.candidates_y, d.last_snapped_y);
    }
}

/// Where the dragged edge lies after an update along one axis: the lower
/// edge when moving or resizing it, the upper edge when resizing that one.
pub open spec fn dragged_edge(action: WindowDragAction1D, pos: int, ext: int) -> int {
    match action {
        WindowDragAction1D::ResizeUpper => pos + ext,
        _ => pos,
    }
}

/// An edge that has snapped to a line of another window stays on it when
/// the pointer then moves by at most one pixel, as long as the pointer was
/// more than a pixel inside the snap threshold, the line still overlaps the
/// window, and no edge of the area comes within reach; other lines near by
/// do not take it away.
pub proof fn lemma_snap_stability<P: Dir>(
    prev: AxisInput,
    next: AxisInput,
    cands: Seq<(WinId, SnapSegment<P>)>,
    last: Option<u32>,
    k: u32,
)
    requires
        prev.wf(),
        next.wf(),
        next == (AxisInput {
            delta: next.delta,
            shown_ext: next.shown_ext,
            lo: next.lo,
            hi: next.hi,
            ..prev
        }),
        !(prev.action is Unaffected),
        prev.update(cands, last).2 == Some(k),
        cands.len() < u32::MAX,
        k < cands.len(),
        abs(next.delta - prev.delta) <= 1,
        abs(prev.rule().target - cands[k as int].1.spec_perpendicular_dim()) + 1 < prev.threshold,
        seg_overlaps(cands[k as int].1, next.lo as int, next.hi as int),
        next.area_snap() is None,
    ensures
        next.update(cands, Some(k)).2 == Some(k),
        ({
            let (pos, ext, _) = next.update(cands, Some(k));
            dragged_edge(next.action, pos, ext) == cands[k as int].1.spec_perpendicular_dim()
        }),
{
    let e = cands[k as int].1.spec_perpendicular_dim() as int;
    let rule0 = prev.rule();
    lemma_first_snap_index(rule0, prev.lo as int, prev.hi as int, cands, 0);
    assert(prev.area_snap() is None);
    let kept = kept_snap(rule0, prev.lo as int, prev.hi as int, cands, last);
    if kept is Some {
        assert(last == Some(k));
    } else {
        let f = first_snap(rule0, prev.lo as int, prev.hi as int, cands, 0);
        assert(f is Some);
        let (i, e1) = f.unwrap();
        assert(i as u32 == k);
        assert(i == k);
    }
    assert(rule0.spec_try(e) is Some);
    assert(rule0.spec_try(e) == Some(e));
    assert(next.rule().spec_try(e) == Some(e));
    assert(kept_snap(next.rule(), next.lo as int, next.hi as int, cands, Some(k)) == Some(e));
}

} // verus!
