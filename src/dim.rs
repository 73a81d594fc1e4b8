//! Rectangles, points and sizes on the device-pixel grid, and the two axes.
use std::marker::PhantomData;
use vstd::math::{max, min};
use vstd::prelude::*;

verus! {

/// The two axes of the plane.
#[derive(Clone, Copy, PartialEq, Eq, Structural, Debug)]
pub enum Direction {
    Horizontal,
    Vertical,
}

impl Direction {
    pub open spec fn spec_perpendicular(self) -> Direction {
        match self {
            Direction::Horizontal => Direction::Vertical,
            Direction::Vertical => Direction::Horizontal,
        }
    }

    /// The other axis.
    pub fn perpendicular(self) -> (r: Direction)
        ensures
            r == self.spec_perpendicular(),
    {
        match self {
            Direction::Horizontal => Direction::Vertical,
            Direction::Vertical => Direction::Horizontal,
        }
    }
}

/// A position on the device-pixel grid.
#[derive(Clone, Copy, PartialEq, Eq, Structural, Debug)]
pub struct Point {
    pub x: i32,
    pub y: i32,
}

/// A width and a height on the device-pixel grid.
#[derive(Clone, Copy, PartialEq, Eq, Structural, Debug)]
pub struct Size {
    pub w: i32,
    pub h: i32,
}

/// A rectangle given by its top-left corner and its size.
#[derive(Clone, Copy, PartialEq, Eq, Structural, Debug)]
pub struct Rect {
    pub x: i32,
    pub y: i32,
    pub w: i32,
    pub h: i32,
}

pub type PointI = Point;

pub type SizeI = Size;

pub type RectI = Rect;

/// An axis given as a type, for code written once for both axes.
pub trait Dir: Copy {
    spec fn spec_direction() -> Direction;

    fn direction() -> (r: Direction)
        ensures
            r == Self::spec_direction(),
    ;

    fn dim_from_point(p: Point) -> (r: i32)
        ensures
            r == p.spec_dim(Self::spec_direction()),
    ;

    fn dim_from_size(s: Size) -> (r: i32)
        ensures
            r == s.spec_dim(Self::spec_direction()),
    ;
}

/// The x axis.
#[derive(Clone, Copy, PartialEq, Eq, Debug)]
pub struct Horizontal;

/// The y axis.
#[derive(Clone, Copy, PartialEq, Eq, Debug)]
pub struct Vertical;

impl Dir for Horizontal {
    open spec fn spec_direction() -> Direction {
        Direction::Horizontal
    }

    fn direction() -> (r: Direction) {
        Direction::Horizontal
    }

    fn dim_from_point(p: Point) -> (r: i32) {
        p.x
    }

    fn dim_from_size(s: Size) -> (r: i32) {
        s.w
    }
}

impl Dir for Vertical {
    open spec fn spec_direction() -> Direction {
        Direction::Vertical
    }

    fn direction() -> (r: Direction) {
        Direction::Vertical
    }

    fn dim_from_point(p: Point) -> (r: i32) {
        p.y
    }

    fn dim_from_size(s: Size) -> (r: i32) {
        s.h
    }
}

impl Point {
    pub open spec fn spec_dim(self, d: Direction) -> i32 {
        match d {
            Direction::Horizontal => self.x,
            Direction::Vertical => self.y,
        }
    }

    pub fn from_array(p: [i32; 2]) -> (r: Point)
        ensures
            r.x == p[0],
            r.y == p[1],
    {
        Point { x: p[0], y: p[1] }
    }

    pub fn into_array(self) -> (r: [i32; 2])
        ensures
            r[0] == self.x,
            r[1] == self.y,
    {
        [self.x, self.y]
    }

    /// The coordinate along the axis `D`.
    pub fn dim<D: Dir>(self) -> (r: i32)
        ensures
            r == self.spec_dim(D::spec_direction()),
    {
        D::dim_from_point(self)
    }

    /// The coordinate along the axis `d`.
    pub fn dim_along(self, d: Direction) -> (r: i32)
        ensures
            r == self.spec_dim(d),
    {
        match d {
            Direction::Horizontal => self.x,
            Direction::Vertical => self.y,
        }
    }
}

impl Size {
    pub open spec fn spec_dim(self, d: Direction) -> i32 {
        match d {
            Direction::Horizontal => self.w,
            Direction::Vertical => self.h,
        }
    }

    pub fn from_array(s: [i32; 2]) -> (r: Size)
        ensures
            r.w == s[0],
            r.h == s[1],
    {
        Size { w: s[0], h: s[1] }
    }

    pub fn into_array(self) -> (r: [i32; 2])
        ensures
            r[0] == self.w,
            r[1] == self.h,
    {
        [self.w, self.h]
    }

    /// The extent along the axis `D`.
    pub fn dim<D: Dir>(self) -> (r: i32)
        ensures
            r == self.spec_dim(D::spec_direction()),
    {
        D::dim_from_size(self)
    }

    /// The extent along the axis `d`.
    pub fn dim_along(self, d: Direction) -> (r: i32)
        ensures
            r == self.spec_dim(d),
    {
        match d {
            Direction::Horizontal => self.w,
            Direction::Vertical => self.h,
        }
    }
}

impl Rect {
    pub open spec fn spec_pos(self) -> Point {
        Point { x: self.x, y: self.y }
    }

    pub open spec fn spec_size(self) -> Size {
        Size { w: self.w, h: self.h }
    }

    /// The lower coordinate along `d`.
    pub open spec fn lo(self, d: Direction) -> int {
        self.spec_pos().spec_dim(d) as int
    }

    /// The upper coordinate along `d`: the lower one plus the extent.
    pub open spec fn hi(self, d: Direction) -> int {
        self.spec_pos().spec_dim(d) + self.spec_size().spec_dim(d)
    }

    pub fn pos(self) -> (r: Point)
        ensures
            r == self.spec_pos(),
    {
        Point { x: self.x, y: self.y }
    }

    pub fn size(self) -> (r: Size)
        ensures
            r == self.spec_size(),
    {
        Size { w: self.w, h: self.h }
    }

    /// The interval covered along the x axis.
    pub fn range_h(self) -> (r: DimRange<Horizontal>)
        requires
            i32::MIN <= self.x + self.w <= i32::MAX,
        ensures
            r.spec_lower() == min(self.x as int, self.x + self.w),
            r.spec_upper() == max(self.x as int, self.x + self.w),
    {
        DimRange::new(self.x, self.x + self.w)
    }

    /// The interval covered along the y axis.
    pub fn range_v(self) -> (r: DimRange<Vertical>)
        requires
            i32::MIN <= self.y + self.h <= i32::MAX,
        ensures
            r.spec_lower() == min(self.y as int, self.y + self.h),
            r.spec_upper() == max(self.y as int, self.y + self.h),
    {
        DimRange::new(self.y, self.y + self.h)
    }

    /// The interval covered along the axis `D`.
    pub fn range<D: Dir>(self) -> (r: DimRange<D>)
        requires
            i32::MIN <= self.hi(D::spec_direction()) <= i32::MAX,
        ensures
            r.spec_lower() == min(
                self.lo(D::spec_direction()),
                self.hi(D::spec_direction()),
            ),
            r.spec_upper() == max(
                self.lo(D::spec_direction()),
                self.hi(D::spec_direction()),
            ),
    {
        let lower = self.pos().dim::<D>();
        let upper = lower + self.size().dim::<D>();
        DimRange::new(lower, upper)
    }
}

/// A closed-open interval `[lower, upper)` along the axis `D`.
#[derive(Copy, Debug)]
pub struct DimRange<D: Dir> {
    lower: i32,
    upper: i32,
    _marker: PhantomData<D>,
}

impl<D: Dir> Clone for DimRange<D> {
    fn clone(&self) -> (r: Self)
        ensures
            r == *self,
    {
        *self
    }
}

impl<D: Dir> DimRange<D> {
    pub closed spec fn spec_lower(self) -> int {
        self.lower as int
    }

    pub closed spec fn spec_upper(self) -> int {
        self.upper as int
    }

    /// The two ends are kept ordered.
    pub closed spec fn wf(self) -> bool {
        self.lower <= self.upper
    }

    /// Two intervals overlap when they share more than an end point.
    pub open spec fn spec_overlaps(self, other: Self) -> bool {
        self.spec_lower() < other.spec_upper() && other.spec_lower() < self.spec_upper()
    }

    /// The interval between `a` and `b`, in whichever order they come.
    pub fn new(a: i32, b: i32) -> (r: Self)
        ensures
            r.wf(),
            r.spec_lower() == min(a as int, b as int),
            r.spec_upper() == max(a as int, b as int),
    {
        if a > b {
            DimRange { lower: b, upper: a, _marker: PhantomData }
        } else {
            DimRange { lower: a, upper: b, _marker: PhantomData }
        }
    }

    pub fn lower(self) -> (r: i32)
        ensures
            r == self.spec_lower(),
    {
        self.lower
    }

    pub fn upper(self) -> (r: i32)
        ensures
            r == self.spec_upper(),
    {
        self.upper
    }

    pub fn overlaps_with(self, other: Self) -> (r: bool)
        ensures
            r == self.spec_overlaps(other),
    {
        self.lower < other.upper && other.lower < self.upper
    }
}

} // verus!
