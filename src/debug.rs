//! The snap lines of the drag in progress, for drawing them over the area.
use crate::dim::Dir;
use crate::layout::{WinId, WindowingState};
use crate::snapping::SnapSegment;
use vstd::prelude::*;

verus! {

/// A line from `(x1, y1)` to `(x2, y2)`, in device pixels.
#[derive(Clone, Copy, PartialEq, Eq, Structural, Debug)]
pub struct LineSegment {
    pub x1: i32,
    pub y1: i32,
    pub x2: i32,
    pub y2: i32,
}

/// A view of the windowing state for drawing what the engine sees.
pub struct Debug<'a> {
    windowing_state: &'a WindowingState,
}

impl WindowingState {
    pub fn debug(&self) -> (r: Debug)
        ensures
            r.state()@ == self@,
    {
        Debug { windowing_state: self }
    }
}

/// The line of a snap segment: at its place, vertical or horizontal, over
/// its interval.
pub open spec fn segment_line<P: Dir>(seg: SnapSegment<P>, vertical: bool) -> LineSegment {
    let p = seg.spec_perpendicular_dim();
    let lo = seg.spec_dim_range().spec_lower() as i32;
    let hi = seg.spec_dim_range().spec_upper() as i32;
    if vertical {
        LineSegment { x1: p, y1: lo, x2: p, y2: hi }
    } else {
        LineSegment { x1: lo, y1: p, x2: hi, y2: p }
    }
}

pub open spec fn lines_of<P: Dir>(
    r: Seq<LineSegment>,
    cands: Seq<(WinId, SnapSegment<P>)>,
    vertical: bool,
) -> bool {
    &&& r.len() == cands.len()
    &&& forall|i: int| 0 <= i < r.len() ==> #[trigger] r[i] == segment_line(cands[i].1, vertical)
}

fn collect_lines<P: Dir>(cands: &Vec<(WinId, SnapSegment<P>)>, vertical: bool) -> (r: Vec<
    LineSegment,
>)
    ensures
        lines_of(r@, cands@, vertical),
{
    let mut r: Vec<LineSegment> = Vec::new();
    let mut i: usize = 0;
    while i < cands.len()
        invariant
            i <= cands.len(),
            r@.len() == i,
            forall|k: int| 0 <= k < i ==> #[trigger] r@[k] == segment_line(cands@[k].1, vertical),
        decreases cands.len() - i,
    {
        let seg = cands[i].1;
        let p = seg.perpendicular_dim();
        let lo = seg.dim_range().lower();
        let hi = seg.dim_range().upper();
        if vertical {
            r.push(LineSegment { x1: p, y1: lo, x2: p, y2: hi });
        } else {
            r.push(LineSegment { x1: lo, y1: p, x2: hi, y2: p });
        }
        i = i + 1;
    }
    r
}

impl<'a> Debug<'a> {
    pub closed spec fn state(&self) -> &'a WindowingState {
        self.windowing_state
    }

    /// The vertical lines that the dragged window's left or right edge may
    /// snap to; none when no drag is in progress.
    pub fn snap_x_segments(&self) -> (r: Vec<LineSegment>)
        ensures
            match self.state()@.drag {
                None => r@.len() == 0,
                Some(d) => lines_of(r@, d.candidates_x, true),
            },
    {
        match self.windowing_state.dragging() {
            None => Vec::new(),
            Some(d) => collect_lines(&d.snap_candidates_x, true),
        }
    }

    /// The horizontal lines that the dragged window's top or bottom edge may
    /// snap to; none when no drag is in progress.
    pub fn snap_y_segments(&self) -> (r: Vec<LineSegment>)
        ensures
            match self.state()@.drag {
                None => r@.len() == 0,
                Some(d) => lines_of(r@, d.candidates_y, false),
            },
    {
        match self.windowing_state.dragging() {
            None => Vec::new(),
            Some(d) => collect_lines(&d.snap_candidates_y, false),
        }
    }
}

} // verus!
