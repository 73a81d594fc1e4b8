//! Frame measurements on the device-pixel grid, derived from the display scale.
use vstd::prelude::*;

verus! {

/// The display scale is given in thousandths: `1000` is a scale of one.
pub const SCALE_ONE: u32 = 1000;

/// The largest display scale accepted, in thousandths.
pub const MAX_SCALE_MILLI: u32 = 64000;

pub open spec fn valid_scale(scale_milli: u32) -> bool {
    1 <= scale_milli <= MAX_SCALE_MILLI
}

/// `v` logical units on the device grid: `v * scale`, rounded to the nearest
/// pixel, halves away from zero.
pub open spec fn scaled(v: int, scale_milli: int) -> int {
    if v >= 0 {
        (v * scale_milli + 500) / 1000
    } else {
        -((-v * scale_milli + 500) / 1000)
    }
}

/// The scale rounded to a whole number, up from a fraction of 0.51.
pub open spec fn spec_whole_scale(scale_milli: int) -> int {
    if scale_milli % 1000 < 510 {
        scale_milli / 1000
    } else {
        scale_milli / 1000 + 1
    }
}

/// Gap kept between snapped windows, and between a window and the area's edges.
pub open spec fn spec_snap_margin(scale_milli: int) -> int {
    scaled(8, scale_milli)
}

/// Distance within which an edge snaps.
pub open spec fn spec_snap_threshold(scale_milli: int) -> int {
    scaled(12, scale_milli)
}

/// `v` (at most 200 logical units) on the device grid.
pub fn scale_small(v: u32, scale_milli: u32) -> (r: i32)
    requires
        v <= 200,
        valid_scale(scale_milli),
    ensures
        r == scaled(v as int, scale_milli as int),
        0 <= r <= 200 * MAX_SCALE_MILLI / 1000 + 1,
{
    assert(v * scale_milli <= 200 * MAX_SCALE_MILLI) by (nonlinear_arith)
        requires
            v <= 200,
            scale_milli <= MAX_SCALE_MILLI,
    ;
    ((v * scale_milli + 500) / 1000) as i32
}

pub fn snap_margin(scale_milli: u32) -> (r: i32)
    requires
        valid_scale(scale_milli),
    ensures
        r == spec_snap_margin(scale_milli as int),
        0 <= r <= 513,
{
    scale_small(8, scale_milli)
}

pub fn snap_threshold(scale_milli: u32) -> (r: i32)
    requires
        valid_scale(scale_milli),
    ensures
        r == spec_snap_threshold(scale_milli as int),
        0 <= r <= 769,
{
    scale_small(12, scale_milli)
}

/// Measurements of the window frame, in device pixels.
#[derive(Clone, Copy, PartialEq, Eq, Structural, Debug)]
pub struct FrameMetrics {
    pub border_thickness: i32,
    pub title_bar_height: i32,
    pub gap_below_title_bar: i32,
    /// The width of a collapsed window, borders on both sides included.
    pub collapsed_win_width: i32,
    pub title_button_padding: i32,
    pub title_button_width: i32,
    pub title_text_padding: i32,
}

impl FrameMetrics {
    /// The measurements that belong to a display scale.
    pub open spec fn spec_with_hidpi_factor(scale_milli: int) -> FrameMetrics {
        let whole = spec_whole_scale(scale_milli);
        FrameMetrics {
            border_thickness: (4 * whole) as i32,
            title_bar_height: scaled(18, scale_milli) as i32,
            gap_below_title_bar: whole as i32,
            collapsed_win_width: (scaled(150, scale_milli) + 8 * whole) as i32,
            title_button_padding: scaled(2, scale_milli) as i32,
            title_button_width: scaled(16, scale_milli) as i32,
            title_text_padding: scaled(4, scale_milli) as i32,
        }
    }

    /// Every measurement is at least zero and small.
    pub open spec fn wf(self) -> bool {
        &&& 0 <= self.border_thickness <= 1000
        &&& 0 <= self.title_bar_height <= 10000
        &&& 0 <= self.gap_below_title_bar <= 1000
        &&& 0 <= self.collapsed_win_width <= 20000
    }

    pub fn with_hidpi_factor(scale_milli: u32) -> (r: FrameMetrics)
        requires
            valid_scale(scale_milli),
        ensures
            r == Self::spec_with_hidpi_factor(scale_milli as int),
            r.wf(),
    {
        let whole: i32 = if scale_milli % 1000 < 510 {
            (scale_milli / 1000) as i32
        } else {
            (scale_milli / 1000 + 1) as i32
        };
        FrameMetrics {
            border_thickness: 4 * whole,
            title_bar_height: scale_small(18, scale_milli),
            gap_below_title_bar: whole,
            collapsed_win_width: scale_small(150, scale_milli) + 8 * whole,
            title_button_padding: scale_small(2, scale_milli),
            title_button_width: scale_small(16, scale_milli),
            title_text_padding: scale_small(4, scale_milli),
        }
    }
}

} // verus!
