//! What the host does with the engine each frame: applying a window's
//! request, toggling collapse on clicks, and choosing the pointer's shape.
use crate::dim::{Point, Size};
use crate::hit_test::HitTest;
use crate::layout::{WinId, WindowInitialState, WindowingState};
use crate::model::WindowingModel;
use crate::metrics::{scale_small, scaled};
use vstd::prelude::*;

verus! {

/// The shape the pointer takes over a part of a window.
#[derive(Clone, Copy, PartialEq, Eq, Structural, Debug)]
pub enum CursorShape {
    Grab,
    ResizeVertical,
    ResizeHorizontal,
    ResizeTopLeftBottomRight,
    ResizeTopRightBottomLeft,
}

pub open spec fn spec_cursor_for(ht: HitTest) -> Option<CursorShape> {
    match ht {
        HitTest::Content => None,
        HitTest::TitleBarOrDragArea => Some(CursorShape::Grab),
        HitTest::TopBorder | HitTest::BottomBorder => Some(CursorShape::ResizeVertical),
        HitTest::LeftBorder | HitTest::RightBorder => Some(CursorShape::ResizeHorizontal),
        HitTest::TopLeftCorner | HitTest::BottomRightCorner => Some(
            CursorShape::ResizeTopLeftBottomRight,
        ),
        HitTest::TopRightCorner | HitTest::BottomLeftCorner => Some(
            CursorShape::ResizeTopRightBottomLeft,
        ),
    }
}

/// The pointer's shape over a part: none over the content, a grab over the
/// title bar, and a resize arrow across each border and corner.
pub fn cursor_for(ht: HitTest) -> (r: Option<CursorShape>)
    ensures
        r == spec_cursor_for(ht),
{
    match ht {
        HitTest::Content => None,
        HitTest::TitleBarOrDragArea => Some(CursorShape::Grab),
        HitTest::TopBorder | HitTest::BottomBorder => Some(CursorShape::ResizeVertical),
        HitTest::LeftBorder | HitTest::RightBorder => Some(CursorShape::ResizeHorizontal),
        HitTest::TopLeftCorner | HitTest::BottomRightCorner => Some(
            CursorShape::ResizeTopLeftBottomRight,
        ),
        HitTest::TopRightCorner | HitTest::BottomLeftCorner => Some(
            CursorShape::ResizeTopRightBottomLeft,
        ),
    }
}

pub open spec fn spec_hover_part(ht: HitTest, drag_moves_window: bool, is_collapsed: bool) -> HitTest {
    if drag_moves_window {
        HitTest::TitleBarOrDragArea
    } else if ht is TitleBarOrDragArea {
        ht
    } else if is_collapsed {
        HitTest::Content
    } else {
        ht
    }
}

/// The part that the pointer's shape follows when hovering: anywhere on the
/// window when a drag moves the whole window, and no border of a collapsed
/// window, which cannot be resized.
pub fn hover_part(ht: HitTest, drag_moves_window: bool, is_collapsed: bool) -> (r: HitTest)
    ensures
        r == spec_hover_part(ht, drag_moves_window, is_collapsed),
{
    if drag_moves_window {
        HitTest::TitleBarOrDragArea
    } else if let HitTest::TitleBarOrDragArea = ht {
        ht
    } else if is_collapsed {
        HitTest::Content
    } else {
        ht
    }
}

/// Whether a frame's clicks toggle the window's collapse: only for a
/// collapsible window whose collapse its owner does not set, on an odd
/// number of collapse clicks and title bar double clicks together.
pub fn collapse_toggled(
    is_collapsible: bool,
    is_collapsed: Option<bool>,
    collapse_clicks: u32,
    title_bar_double_clicks: u32,
) -> (r: bool)
    ensures
        r == (is_collapsible && is_collapsed is None && (collapse_clicks
            + title_bar_double_clicks) % 2 == 1),
{
    is_collapsible && is_collapsed.is_none() && (collapse_clicks as u64
        + title_bar_double_clicks as u64) % 2 == 1
}

/// How a window is asked for in a frame, in device pixels.
#[derive(Clone, Copy, PartialEq, Eq, Structural, Debug)]
pub struct WindowRequest {
    pub initial_position: Option<Point>,
    pub initial_size: Option<Size>,
    pub min_size: Option<Size>,
    pub is_hidden: bool,
    pub is_collapsible: bool,
    /// Set by an owner that controls the collapse itself.
    pub is_collapsed: Option<bool>,
}

impl WindowRequest {
    /// A request with the defaults: shown, collapsible, placed and sized by
    /// the engine.
    pub fn new() -> (r: WindowRequest)
        ensures
            r == (WindowRequest {
                initial_position: None,
                initial_size: None,
                min_size: None,
                is_hidden: false,
                is_collapsible: true,
                is_collapsed: None,
            }),
    {
        WindowRequest {
            initial_position: None,
            initial_size: None,
            min_size: None,
            is_hidden: false,
            is_collapsible: true,
            is_collapsed: None,
        }
    }
}

impl WindowingModel {
    /// The content size of a window asked for without one.
    pub open spec fn default_client_size(self) -> Size {
        Size {
            w: scaled(200, self.scale_milli as int) as i32,
            h: scaled(200, self.scale_milli as int) as i32,
        }
    }

    /// A window asked for in this frame: made if new, marked as needed,
    /// given the least size, collapse and visibility asked for. A window that
    /// cannot collapse is expanded.
    pub open spec fn apply_request(self, id: WinId, req: WindowRequest) -> WindowingModel {
        let init = WindowInitialState {
            client_size: match req.initial_size {
                Some(s) => s,
                None => self.default_client_size(),
            },
            position: req.initial_position,
            min_size: req.min_size,
            is_collapsed: false,
        };
        let m1 = self.init_window(id, init).set_needed(id, true);
        let m2 = match req.min_size {
            Some(s) => m1.set_min_size(id, s),
            None => m1,
        };
        let m3 = if req.is_collapsible {
            match req.is_collapsed {
                Some(c) => m2.set_collapsed(id, c),
                None => m2,
            }
        } else {
            m2.set_collapsed(id, false)
        };
        m3.set_hidden(id, req.is_hidden)
    }
}

impl WindowingState {
    /// Applies a window's request for this frame; see
    /// `WindowingModel::apply_request`.
    pub fn make_window(&mut self, win_id: WinId, req: WindowRequest)
        requires
            old(self).wf(),
            old(self)@.valid_id(win_id),
        ensures
            final(self).wf(),
            final(self)@ == old(self)@.apply_request(win_id, req),
    {
        let client_size = match req.initial_size {
            Some(s) => s,
            None => {
                let d = scale_small(200, self.scale_milli());
                Size { w: d, h: d }
            },
        };
        self.initialize(
            win_id,
            WindowInitialState {
                client_size,
                position: req.initial_position,
                min_size: req.min_size,
                is_collapsed: false,
            },
        );
        self.set_needed(win_id, true);
        if let Some(s) = req.min_size {
            self.set_win_min_size(win_id, s);
        }
        if req.is_collapsible {
            if let Some(c) = req.is_collapsed {
                self.set_win_collapsed(win_id, c);
            }
        } else {
            self.set_win_collapsed(win_id, false);
        }
        self.set_win_hidden(win_id, req.is_hidden);
    }
}

} // verus!
