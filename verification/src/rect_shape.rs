//! The drag state machine of the rectangle shape: a filled axis-aligned
//! rectangle on an infinite canvas, grabbed anywhere inside and dragged by
//! the offset between the grab point and its top-left corner.

use vstd::prelude::*;
use crate::event::Event;
use crate::geometry::Point;
use crate::geometry::Rect;
use crate::scalar::COORD_LIMIT;

verus! {

/// The rectangle shape itself; its geometry lives in `RectangleState`, so
/// one shape value can serve any number of canvases.
#[derive(Clone, Copy, Debug, PartialEq, Eq, Structural)]
pub struct RectangleShape;

impl Default for RectangleShape {
    fn default() -> (r: Self)
        ensures
            r == (RectangleShape {}),
    {
        RectangleShape {}
    }
}

impl RectangleShape {
    pub fn new() -> (r: Self)
        ensures
            r == (RectangleShape {}),
    {
        RectangleShape {}
    }
}

/// The rectangle's geometry and drag bookkeeping: where the active drag
/// started, and the grab point's offset from the top-left corner.
#[derive(Clone, Copy, Debug, PartialEq, Eq, Structural)]
pub struct RectangleState {
    /// The rectangle, in absolute pixel steps.
    pub rect: Rect,
    /// Where the active drag started, while one is active.
    pub drag_start: Option<Point>,
    /// The grab point's offset from the rectangle's top-left corner, held
    /// exactly while `drag_start` is.
    pub drag_offset: Option<Point>,
}

impl RectangleState {
    /// The two drag fields are held together: both present during a drag,
    /// both absent otherwise.  Every transition keeps this.
    pub open spec fn wf(self) -> bool {
        self.drag_start.is_some() == self.drag_offset.is_some()
    }

    /// All stored coordinates small enough that the drag arithmetic fits.
    pub open spec fn in_range(self) -> bool {
        &&& self.rect.in_range()
        &&& match self.drag_start {
            Some(p) => p.in_scene_range(),
            None => true,
        }
        &&& match self.drag_offset {
            Some(p) => -2 * COORD_LIMIT <= p.x <= 2 * COORD_LIMIT && -2 * COORD_LIMIT <= p.y <= 2
                * COORD_LIMIT,
            None => true,
        }
    }

    pub fn new() -> (s: Self)
        ensures
            s.rect == (Rect {
                x: 100_000_000i64,
                y: 50_000_000i64,
                width: 100_000_000i64,
                height: 50_000_000i64,
            }),
            s.drag_start.is_none(),
            s.drag_offset.is_none(),
            s.wf(),
            s.in_range(),
    {
        RectangleState::default()
    }

    /// A rectangle of the given position and extents, not being dragged.
    pub fn with_dimensions(position: Point, width: i64, height: i64) -> (s: Self)
        ensures
            s.rect == (Rect { x: position.x, y: position.y, width, height }),
            s.drag_start.is_none(),
            s.drag_offset.is_none(),
            s.wf(),
    {
        RectangleState {
            rect: Rect { x: position.x, y: position.y, width, height },
            drag_start: None,
            drag_offset: None,
        }
    }
}

impl Default for RectangleState {
    /// The demo's starting rectangle: 100 by 50 pixels with its top-left
    /// corner at (100, 50), not being dragged.
    fn default() -> (s: Self)
        ensures
            s.rect == (Rect {
                x: 100_000_000i64,
                y: 50_000_000i64,
                width: 100_000_000i64,
                height: 50_000_000i64,
            }),
            s.drag_start.is_none(),
            s.drag_offset.is_none(),
            s.wf(),
            s.in_range(),
    {
        RectangleState {
            rect: Rect {
                x: 100_000_000,
                y: 50_000_000,
                width: 100_000_000,
                height: 50_000_000,
            },
            drag_start: None,
            drag_offset: None,
        }
    }
}

/// The machine's whole transition function: from a state, an event and the
/// cursor position to the next state and whether the event was consumed.
/// A press inside the rectangle grabs it, recording the grab point and its
/// offset from the top-left corner; a move while grabbed puts the top-left
/// corner at the cursor less that offset; a release while grabbed only lets
/// go, changing no geometry.  Everything else is declined.
pub open spec fn rect_step(pre: RectangleState, event: Event, cursor: Point) -> (
    RectangleState,
    bool,
) {
    match event {
        Event::LeftPressed => {
            if pre.rect.spec_contains(cursor) {
                (
                    RectangleState {
                        drag_start: Some(cursor),
                        drag_offset: Some(
                            Point {
                                x: (cursor.x - pre.rect.x) as i64,
                                y: (cursor.y - pre.rect.y) as i64,
                            },
                        ),
                        ..pre
                    },
                    true,
                )
            } else {
                (pre, false)
            }
        },
        Event::LeftReleased => {
            if pre.drag_start.is_some() {
                (RectangleState { drag_start: None, drag_offset: None, ..pre }, true)
            } else {
                (pre, false)
            }
        },
        Event::CursorMoved => {
            match pre.drag_offset {
                Some(offset) => {
                    if pre.drag_start.is_some() {
                        (
                            RectangleState {
                                rect: Rect {
                                    x: (cursor.x - offset.x) as i64,
                                    y: (cursor.y - offset.y) as i64,
                                    ..pre.rect
                                },
                                ..pre
                            },
                            true,
                        )
                    } else {
                        (pre, false)
                    }
                },
                None => (pre, false),
            }
        },
        _ => (pre, false),
    }
}

impl RectangleShape {
    /// Feed one event to the rectangle's drag machine: the new state and
    /// whether the event was consumed are exactly `rect_step` of the old
    /// state.
    pub fn update(&self, state: &mut RectangleState, event: Event, cursor_position: Point) -> (consumed: bool)
        requires
            old(state).wf(),
            old(state).in_range(),
            cursor_position.in_scene_range(),
        ensures
            *final(state) == rect_step(*old(state), event, cursor_position).0,
            consumed == rect_step(*old(state), event, cursor_position).1,
            final(state).wf(),
    {
        match event {
            Event::LeftPressed => {
                if state.rect.contains(&cursor_position) {
                    state.drag_start = Some(cursor_position);
                    state.drag_offset = Some(
                        Point {
                            x: cursor_position.x - state.rect.x,
                            y: cursor_position.y - state.rect.y,
                        },
                    );
                    true
                } else {
                    false
                }
            },
            Event::LeftReleased => {
                if state.drag_start.is_some() {
                    state.drag_start = None;
                    state.drag_offset = None;
                    true
                } else {
                    false
                }
            },
            Event::CursorMoved => {
                if state.drag_start.is_some() {
                    let offset = state.drag_offset.unwrap();
                    state.rect.x = cursor_position.x - offset.x;
                    state.rect.y = cursor_position.y - offset.y;
                    true
                } else {
                    false
                }
            },
            _ => false,
        }
    }
}

} // verus!
