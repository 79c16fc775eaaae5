//! The pan/zoom state machine of the whole scene: an independent drag
//! gesture translates the view, and wheel scrolling scales it about the
//! cursor, with the scale clamped to a fixed range.
//!
//! The machine is the fallback handler of the scene: a mouse-down that no
//! shape consumed always starts a pan, so presses and releases report
//! consumed.

use vstd::prelude::*;
use crate::event::Event;
use crate::geometry::Point;
use crate::geometry::lemma_mul_bound;
use crate::geometry::translated;
use crate::scalar::ABS_LIMIT;
use crate::scalar::SCENE_SPACE_LIMIT;
use crate::scalar::SCALE;
use crate::scalar::div_trunc;
use crate::scalar::lemma_tdiv_bounded;
use crate::scalar::tdiv;

verus! {

/// Smallest view scale the wheel can reach: a tenth.
pub const MIN_SCALE: i64 = 100_000;

/// Largest view scale the wheel can reach: ten.
pub const MAX_SCALE: i64 = 10_000_000;

/// The scene's view transform and pan gesture: a translation in absolute
/// pixel steps, a scale factor, and the anchor of the pan while one is
/// active.
#[derive(Clone, Copy, Debug, PartialEq, Eq, Structural)]
pub struct PanZoomState {
    /// How far the scene is shifted, in absolute pixel steps.
    pub translation: Point,
    /// How much the scene is magnified; one unit is no magnification.
    pub scale: i64,
    /// Where the active pan gesture last anchored, if one is active.
    pub drag_start: Option<Point>,
}

impl PanZoomState {
    /// The scale stays inside the clamp range; every transition keeps this.
    pub open spec fn wf(self) -> bool {
        MIN_SCALE <= self.scale <= MAX_SCALE
    }

    /// The translation within the accepted magnitude for absolute pixels,
    /// and any pan anchor within the magnitude of a view-mapped position.
    pub open spec fn in_range(self) -> bool {
        &&& self.translation.in_abs_range()
        &&& match self.drag_start {
            Some(p) => p.in_scene_range(),
            None => true,
        }
    }
}

impl Default for PanZoomState {
    /// An untouched view: no shift, unit scale, no pan active.
    fn default() -> (s: Self)
        ensures
            s.translation == (Point { x: 0i64, y: 0i64 }),
            s.scale == SCALE,
            s.drag_start.is_none(),
            s.wf(),
            s.in_range(),
    {
        PanZoomState { translation: Point { x: 0, y: 0 }, scale: SCALE, drag_start: None }
    }
}

/// The scale after one wheel step: a tenth up or down, rounded towards
/// zero, then clamped to the allowed range.
pub open spec fn zoom_scale(scale: int, forward: bool) -> int {
    let raw = if forward {
        tdiv(scale * 11, 10)
    } else {
        tdiv(scale * 9, 10)
    };
    if raw < MIN_SCALE {
        MIN_SCALE as int
    } else if raw > MAX_SCALE {
        MAX_SCALE as int
    } else {
        raw
    }
}

/// The translation that keeps the scene point under the cursor fixed while
/// the scale changes: the cursor's offset into the shifted scene grows by
/// the ratio of the scales.
pub open spec fn zoom_translation(t: Point, cursor: Point, new_scale: int, scale: int) -> Point {
    Point {
        x: (cursor.x + tdiv((t.x - cursor.x) * new_scale, scale)) as i64,
        y: (cursor.y + tdiv((t.y - cursor.y) * new_scale, scale)) as i64,
    }
}

/// The machine's whole transition function: from a state, an event and the
/// cursor position to the next state and whether the event was consumed.
/// A press anchors a pan and a release ends one, both always consumed; a
/// move pans exactly while anchored; a wheel step is consumed exactly when
/// the clamped scale actually changes.
pub open spec fn pan_zoom_step(pre: PanZoomState, event: Event, cursor: Point) -> (
    PanZoomState,
    bool,
) {
    match event {
        Event::LeftPressed => (PanZoomState { drag_start: Some(cursor), ..pre }, true),
        Event::LeftReleased => (PanZoomState { drag_start: None, ..pre }, true),
        Event::CursorMoved => match pre.drag_start {
            Some(start) => (
                PanZoomState {
                    translation: translated(
                        pre.translation,
                        cursor.x - start.x,
                        cursor.y - start.y,
                    ),
                    drag_start: Some(cursor),
                    ..pre
                },
                true,
            ),
            None => (pre, false),
        },
        Event::WheelScrolled { forward } => {
            let new_scale = zoom_scale(pre.scale as int, forward);
            if new_scale != pre.scale {
                (
                    PanZoomState {
                        translation: zoom_translation(
                            pre.translation,
                            cursor,
                            new_scale,
                            pre.scale as int,
                        ),
                        scale: new_scale as i64,
                        drag_start: pre.drag_start,
                    },
                    true,
                )
            } else {
                (pre, false)
            }
        },
        Event::Other => (pre, false),
    }
}

impl PanZoomState {
    /// Feed one event to the pan/zoom machine: the new state and whether
    /// the event was consumed are exactly `pan_zoom_step` of the old state.
    /// The scale never leaves its clamp range.
    pub fn handle_message(&mut self, event: Event, cursor_position: Point) -> (consumed: bool)
        requires
            old(self).wf(),
            old(self).in_range(),
            cursor_position.in_scene_range(),
        ensures
            *final(self) == pan_zoom_step(*old(self), event, cursor_position).0,
            consumed == pan_zoom_step(*old(self), event, cursor_position).1,
            final(self).wf(),
    {
        match event {
            Event::LeftPressed => {
                self.drag_start = Some(cursor_position);
                true
            },
            Event::LeftReleased => {
                self.drag_start = None;
                true
            },
            Event::CursorMoved => {
                match self.drag_start {
                    Some(start_pos) => {
                        let dx = cursor_position.x - start_pos.x;
                        let dy = cursor_position.y - start_pos.y;
                        self.translation = Point {
                            x: self.translation.x + dx,
                            y: self.translation.y + dy,
                        };
                        self.drag_start = Some(cursor_position);
                        true
                    },
                    None => false,
                }
            },
            Event::WheelScrolled { forward } => {
                let raw = if forward {
                    div_trunc(self.scale * 11, 10)
                } else {
                    div_trunc(self.scale * 9, 10)
                };
                let new_scale = if raw < MIN_SCALE {
                    MIN_SCALE
                } else if raw > MAX_SCALE {
                    MAX_SCALE
                } else {
                    raw
                };
                if new_scale != self.scale {
                    proof {
                        lemma_mul_bound(
                            self.translation.x - cursor_position.x,
                            new_scale as int,
                            ABS_LIMIT as int + SCENE_SPACE_LIMIT as int,
                            MAX_SCALE as int,
                        );
                        lemma_mul_bound(
                            self.translation.y - cursor_position.y,
                            new_scale as int,
                            ABS_LIMIT as int + SCENE_SPACE_LIMIT as int,
                            MAX_SCALE as int,
                        );
                        lemma_tdiv_bounded(
                            (self.translation.x - cursor_position.x) * new_scale,
                            self.scale as int,
                            (ABS_LIMIT as int + SCENE_SPACE_LIMIT as int) * MAX_SCALE as int,
                        );
                        lemma_tdiv_bounded(
                            (self.translation.y - cursor_position.y) * new_scale,
                            self.scale as int,
                            (ABS_LIMIT as int + SCENE_SPACE_LIMIT as int) * MAX_SCALE as int,
                        );
                    }
                    self.translation = Point {
                        x: cursor_position.x + div_trunc(
                            (self.translation.x - cursor_position.x) * new_scale,
                            self.scale,
                        ),
                        y: cursor_position.y + div_trunc(
                            (self.translation.y - cursor_position.y) * new_scale,
                            self.scale,
                        ),
                    };
                    self.scale = new_scale;
                    true
                } else {
                    false
                }
            },
            Event::Other => false,
        }
    }
}

} // verus!
