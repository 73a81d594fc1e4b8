//! The pointer's part in a frame: which window a press raises, when a drag
//! gesture drags a window, and which pointer shape to show. The host reports
//! each event with the widget that captured it, as a `Captured`.
use crate::dim::Point;
use crate::hit_test::HitTest;
use crate::interaction::{cursor_for, hover_part, spec_cursor_for, spec_hover_part, CursorShape};
use crate::layout::{WinId, WindowingState};
use crate::model::WindowingModel;
use vstd::prelude::*;

verus! {

/// What captured a pointer event.
#[derive(Clone, Copy, PartialEq, Eq, Structural, Debug)]
pub enum Captured {
    /// The area itself, as when a modifier makes any drag move a window.
    Area,
    /// The frame of a window, or something inside it.
    Window(WinId),
    Elsewhere,
}

/// The state of a pointer gesture across frames.
#[derive(Clone, Copy, PartialEq, Eq, Structural, Debug)]
pub struct PointerSession {
    /// `None` between gestures; in a gesture, whether it drags a window.
    pub dragging: Option<bool>,
}

impl PointerSession {
    pub fn new() -> (r: PointerSession)
        ensures
            r.dragging is None,
    {
        PointerSession { dragging: None }
    }
}

impl WindowingModel {
    /// The window a press raises: the topmost under the pointer when the
    /// press went to the area with the modifier held, else the window whose
    /// frame took the press.
    pub open spec fn press_target(self, captured: Captured, pos: Point, alt: bool) -> Option<
        WinId,
    > {
        if alt {
            match (captured, self.hit_below(pos, self.len() as int)) {
                (Captured::Area, Some((w, _))) => Some(w),
                _ => None,
            }
        } else {
            match captured {
                Captured::Window(w) => Some(w),
                _ => None,
            }
        }
    }

    /// Whether a drag event belongs to the windowing: it went to the area,
    /// or to the window being dragged, or between gestures to the topmost
    /// window. An area without windows takes no drag.
    pub open spec fn drag_is_ours(self, session: PointerSession, captured: Captured) -> bool {
        &&& self.topmost() is Some
        &&& match captured {
            Captured::Area => true,
            Captured::Window(w) => if session.dragging is Some {
                match self.drag {
                    Some(d) => d.win_id == w,
                    None => false,
                }
            } else {
                self.topmost() == Some(w)
            },
            Captured::Elsewhere => false,
        }
    }

    /// The part by which a gesture starting at `origin` drags the topmost
    /// window: anywhere moves it with the modifier held.
    pub open spec fn gesture_part(self, origin: Point, alt: bool) -> Option<HitTest> {
        match self.specific_hit(self.topmost().unwrap(), origin) {
            None => None,
            Some(ht) => Some(
                if alt {
                    HitTest::TitleBarOrDragArea
                } else {
                    ht
                },
            ),
        }
    }

    /// The pointer's shape: the part being dragged during a window drag,
    /// else the part hovered over.
    pub open spec fn pointer_shape(
        self,
        session: PointerSession,
        hover: Option<(WinId, HitTest)>,
        alt: bool,
    ) -> Option<CursorShape> {
        let dragged = if session.dragging == Some(true) {
            match self.drag {
                Some(d) => Some(d.hit_test),
                None => None,
            }
        } else {
            None
        };
        let part = match dragged {
            Some(ht) => Some(ht),
            None => match hover {
                Some((w, ht)) => Some(
                    spec_hover_part(
                        ht,
                        alt,
                        match self.win(w) {
                            Some(ws) => ws.is_collapsed,
                            None => false,
                        },
                    ),
                ),
                None => None,
            },
        };
        match part {
            Some(ht) => spec_cursor_for(ht),
            None => None,
        }
    }
}

impl WindowingState {
    /// A press raises the window it targets; see
    /// `WindowingModel::press_target`.
    pub fn handle_press(&mut self, captured: Captured, pos: Point, alt: bool)
        requires
            old(self).wf(),
            captured matches Captured::Window(w) ==> old(self)@.valid_id(w),
        ensures
            final(self).wf(),
            final(self)@ == match old(self)@.press_target(captured, pos, alt) {
                Some(w) => old(self)@.bring_to_top(w),
                None => old(self)@,
            },
    {
        let target = if alt {
            match captured {
                Captured::Area => match self.win_hit_test(pos) {
                    Some((w, _)) => Some(w),
                    None => None,
                },
                _ => None,
            }
        } else {
            match captured {
                Captured::Window(w) => Some(w),
                _ => None,
            }
        };
        if let Some(w) = target {
            self.bring_to_top(w);
        }
    }

    /// A drag event of the left button, `delta` from where the gesture
    /// started at `origin`. Between gestures it starts dragging the topmost
    /// window by the part under `origin`; in a window drag it updates the
    /// drag. Events that are not ours, and gestures that drag no window,
    /// change nothing.
    pub fn handle_drag(
        &mut self,
        session: &mut PointerSession,
        captured: Captured,
        origin: Point,
        delta: Point,
        alt: bool,
    )
        requires
            old(self).wf(),
        ensures
            final(self).wf(),
            ({
                let m0 = old(self)@;
                let s0 = *old(session);
                if s0.dragging == Some(false) || !m0.drag_is_ours(s0, captured) {
                    final(self)@ == m0 && *final(session) == s0
                } else if s0.dragging == Some(true) {
                    (final(self)@, final(session).dragging.unwrap()) == m0.drag_update(delta)
                        && final(session).dragging is Some
                } else {
                    match m0.gesture_part(origin, alt) {
                        None => final(self)@ == m0 && *final(session) == (PointerSession {
                            dragging: Some(false),
                        }),
                        Some(ht) => exists|mid: WindowingModel, started: bool|
                            #![trigger m0.drag_start_post(m0.topmost().unwrap(), ht, mid, started)]
                            m0.drag_start_post(m0.topmost().unwrap(), ht, mid, started) && mid.wf()
                                && if started {
                                (final(self)@, final(session).dragging.unwrap()) == mid.drag_update(
                                    delta,
                                ) && final(session).dragging is Some
                            } else {
                                final(self)@ == mid && *final(session) == (PointerSession {
                                    dragging: Some(false),
                                })
                            },
                    }
                }
            }),
    {
        if session.dragging == Some(false) {
            return ;
        }
        let top = match self.topmost_win() {
            Some(t) => t,
            None => return ,
        };
        let ours = match captured {
            Captured::Area => true,
            Captured::Window(w) => if session.dragging.is_some() {
                match self.current_dragging_win() {
                    Some((d, _)) => d == w,
                    None => false,
                }
            } else {
                top == w
            },
            Captured::Elsewhere => false,
        };
        if !ours {
            return ;
        }
        proof {
            assert(self@.valid_id(top)) by {
                let n = self@.len() as int;
                assert(self@.bottom_to_top[n - 1].0 < n);
            }
        }
        if session.dragging == Some(true) {
            let going = self.win_drag_update(delta);
            session.dragging = Some(going);
            return ;
        }
        let part = match self.specific_win_hit_test(top, origin) {
            None => None,
            Some(ht) => Some(
                if alt {
                    HitTest::TitleBarOrDragArea
                } else {
                    ht
                },
            ),
        };
        let ht = match part {
            None => {
                session.dragging = Some(false);
                return ;
            },
            Some(ht) => ht,
        };
        let ghost m0 = self@;
        let started = self.win_drag_start(top, ht);
        let ghost mid = self@;
        if started {
            let going = self.win_drag_update(delta);
            session.dragging = Some(going);
        } else {
            session.dragging = Some(false);
        }
        proof {
            assert(m0.drag_start_post(m0.topmost().unwrap(), ht, mid, started));
        }
    }

    /// A release of the left button ends the gesture, and finishes the
    /// window drag it made.
    pub fn handle_release(&mut self, session: &mut PointerSession)
        requires
            old(self).wf(),
        ensures
            final(self).wf(),
            final(self)@ == if old(session).dragging == Some(true) {
                old(self)@.drag_end(false)
            } else {
                old(self)@
            },
            final(session).dragging is None,
    {
        if session.dragging == Some(true) {
            self.win_drag_end(false);
        }
        session.dragging = None;
    }

    /// After a frame's events: unless a window is being dragged, every shown
    /// window is kept within reach.
    pub fn finish_events(&mut self, session: &PointerSession)
        requires
            old(self).wf(),
        ensures
            final(self).wf(),
            final(self)@ == if session.dragging == Some(true) {
                old(self)@
            } else {
                old(self)@.ensure_all_in_area()
            },
    {
        if session.dragging != Some(true) {
            self.ensure_all_win_in_area();
        }
    }

    /// The pointer's shape for this frame; `hover` is what the host's hit
    /// test found under the pointer. See `WindowingModel::pointer_shape`.
    pub fn pointer_shape(
        &self,
        session: &PointerSession,
        hover: Option<(WinId, HitTest)>,
        alt: bool,
    ) -> (r: Option<CursorShape>)
        requires
            self.wf(),
            hover matches Some((w, _)) ==> self@.valid_id(w),
        ensures
            r == self@.pointer_shape(*session, hover, alt),
    {
        let dragged = if session.dragging == Some(true) {
            match self.current_dragging_win() {
                Some((_, ht)) => Some(ht),
                None => None,
            }
        } else {
            None
        };
        let part = match dragged {
            Some(ht) => Some(ht),
            None => match hover {
                Some((w, ht)) => Some(hover_part(ht, alt, self.win_is_collapsed(w))),
                None => None,
            },
        };
        match part {
            Some(ht) => cursor_for(ht),
            None => None,
        }
    }
}

} // verus!
