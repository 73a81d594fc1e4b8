//! Candidate lines for snapping, and the record of edges a window is pinned to.
use crate::dim::{DimRange, Dir, Horizontal, Vertical};
use vstd::prelude::*;

verus! {

pub type DimRangeH = DimRange<Horizontal>;

pub type DimRangeV = DimRange<Vertical>;

/// A line that a dragged edge may snap to: its position across the axis `D`,
/// and the interval along `D` over which it is valid.
#[derive(Copy, Debug)]
pub struct SnapSegment<D: Dir> {
    perpendicular_dim: i32,
    dim_range: DimRange<D>,
}

pub type SnapSegmentH = SnapSegment<Horizontal>;

pub type SnapSegmentV = SnapSegment<Vertical>;

impl<D: Dir> Clone for SnapSegment<D> {
    fn clone(&self) -> (r: Self)
        ensures
            r == *self,
    {
        *self
    }
}

impl<D: Dir> SnapSegment<D> {
    pub closed spec fn spec_perpendicular_dim(self) -> i32 {
        self.perpendicular_dim
    }

    pub closed spec fn spec_dim_range(self) -> DimRange<D> {
        self.dim_range
    }

    /// The segment at `perpendicular_dim` that spans exactly `[lo, hi)`.
    pub open spec fn is_segment(self, perpendicular_dim: int, lo: int, hi: int) -> bool {
        &&& self.spec_perpendicular_dim() == perpendicular_dim
        &&& self.spec_dim_range().spec_lower() == lo
        &&& self.spec_dim_range().spec_upper() == hi
    }

    pub fn new(perpendicular_dim: i32, dim_range: DimRange<D>) -> (r: Self)
        ensures
            r.spec_perpendicular_dim() == perpendicular_dim,
            r.spec_dim_range() == dim_range,
    {
        SnapSegment { perpendicular_dim, dim_range }
    }

    pub fn perpendicular_dim(self) -> (r: i32)
        ensures
            r == self.spec_perpendicular_dim(),
    {
        self.perpendicular_dim
    }

    pub fn dim_range(self) -> (r: DimRange<D>)
        ensures
            r == self.spec_dim_range(),
    {
        self.dim_range
    }
}

/// The edges of the area that a window is pinned to along one axis.
#[derive(Clone, Copy, PartialEq, Eq, Structural, Debug)]
pub enum Anchor {
    NoEdge,
    LowerEdge,
    UpperEdge,
    LowerAndUpperEdges,
}

} // verus!
