//! The drag state machine of the line demo: a thick horizontal segment
//! drawn across a circle, grabbed either by a corner handle (which resizes
//! the stroke) or by its body (which translates it), while the whole scene
//! may be drawn rotated.
//!
//! Every cursor position is first mapped into the segment's unrotated,
//! relative coordinate space (`screen_to_shape_space`); the machine's
//! transition function `line_step` is stated over that mapped point.

use vstd::prelude::*;
use crate::event::Event;
use crate::geometry::Extent;
use crate::geometry::Point;
use crate::geometry::Rotation;
use crate::geometry::first_near_corner;
use crate::geometry::is_point_on_horizontal_line;
use crate::geometry::is_point_on_line_corner;
use crate::geometry::lemma_shape_space_in_bound;
use crate::geometry::on_horizontal_band;
use crate::geometry::screen_to_shape_space;
use crate::geometry::shape_space_point;
use crate::geometry::translated;
use crate::scalar::COORD_LIMIT;
use crate::scalar::SCALE;
use crate::scalar::div_trunc;
use crate::scalar::tdiv;

verus! {

/// Which part of the line is currently grabbed.  Exactly one value at any
/// time, owned by the shape's state and changed only by `update`.
#[derive(Clone, Copy, Debug, PartialEq, Eq, Structural)]
pub enum DraggingMode {
    /// Nothing is grabbed.
    NoDragging,
    /// The whole segment body is grabbed.
    Line,
    /// One corner handle is grabbed: 0 = upper left, 1 = upper right,
    /// 2 = lower right, 3 = lower left.
    Corner(usize),
}

/// The state of the line demo: a circle radius, the thick segment's
/// endpoints and width (all in relative units), the shape-space anchor of
/// the current drag, and what is grabbed.
#[derive(Clone, Copy, Debug, PartialEq, Eq, Structural)]
pub struct CicleAndLineState {
    /// Radius of the backdrop circle, as a fraction of the smaller frame
    /// extent.
    pub circle_radius: i64,
    /// One endpoint of the segment, as fractions of the frame extent.
    pub line_start: Point,
    /// The other endpoint; the machine keeps its height equal to
    /// `line_start`'s.
    pub line_end: Point,
    /// Stroke width, as a fraction of the smaller frame extent.
    pub line_width: i64,
    /// Where in shape space the cursor last grabbed or dragged.
    pub cursor_pos: Point,
    /// What the cursor currently drags.
    pub is_dragging: DraggingMode,
}

impl CicleAndLineState {
    /// All stored coordinates within the kernel's accepted magnitude.
    pub open spec fn in_range(self) -> bool {
        &&& self.line_start.in_range()
        &&& self.line_end.in_range()
        &&& self.cursor_pos.in_range()
        &&& -COORD_LIMIT <= self.line_width <= COORD_LIMIT
    }
}

impl Default for CicleAndLineState {
    /// The demo's starting scene: a quarter-extent circle and a fifth-wide
    /// horizontal segment from (0.1, 0.4) to (0.9, 0.4), nothing grabbed.
    fn default() -> (s: Self)
        ensures
            s.circle_radius == 250_000i64,
            s.line_start == (Point { x: 100_000i64, y: 400_000i64 }),
            s.line_end == (Point { x: 900_000i64, y: 400_000i64 }),
            s.line_width == 200_000i64,
            s.cursor_pos == (Point { x: 0i64, y: 0i64 }),
            s.is_dragging == DraggingMode::NoDragging,
            s.in_range(),
    {
        CicleAndLineState {
            circle_radius: 250_000,
            line_start: Point { x: 100_000, y: 400_000 },
            line_end: Point { x: 900_000, y: 400_000 },
            line_width: 200_000,
            cursor_pos: Point { x: 0, y: 0 },
            is_dragging: DraggingMode::NoDragging,
        }
    }
}

/// Whether a press at shape-space point `rel` grabs anything: a corner
/// handle, or the segment body within half the stroke width.
pub open spec fn line_press_hits(pre: CicleAndLineState, rel: Point) -> bool {
    let w_half = tdiv(pre.line_width as int, 2);
    ||| first_near_corner(rel, pre.line_start, pre.line_end, w_half).is_some()
    ||| on_horizontal_band(rel, pre.line_start, pre.line_end, w_half)
}

/// The state after a press at shape-space point `rel`: the anchor is
/// recorded, and what the press hit — a corner handle first, else the
/// segment body within half the stroke width — becomes the drag mode.  A
/// press that hits nothing changes no geometry and leaves the mode alone.
pub open spec fn line_pressed(pre: CicleAndLineState, rel: Point) -> CicleAndLineState {
    let w_half = tdiv(pre.line_width as int, 2);
    let mode = match first_near_corner(rel, pre.line_start, pre.line_end, w_half) {
        Some(i) => DraggingMode::Corner(i),
        None => if on_horizontal_band(rel, pre.line_start, pre.line_end, w_half) {
            DraggingMode::Line
        } else {
            pre.is_dragging
        },
    };
    CicleAndLineState { cursor_pos: rel, is_dragging: mode, ..pre }
}

/// The state after a move to `rel` while the body is grabbed: both
/// endpoints translate by the delta from the anchor, and the anchor moves
/// to `rel`.
pub open spec fn line_body_dragged(pre: CicleAndLineState, rel: Point) -> CicleAndLineState {
    let dx = rel.x - pre.cursor_pos.x;
    let dy = rel.y - pre.cursor_pos.y;
    CicleAndLineState {
        line_start: translated(pre.line_start, dx, dy),
        line_end: translated(pre.line_end, dx, dy),
        cursor_pos: rel,
        ..pre
    }
}

/// The state after a move to `rel` while corner `i` is grabbed.  The
/// endpoint that owns the corner moves by the full horizontal delta and
/// half the vertical delta; the opposite endpoint's height is forced equal,
/// keeping the segment horizontal; and the width absorbs the full vertical
/// delta — shrinking for the upper corners 0 and 1, growing for the lower
/// corners 2 and 3.  The half/full split keeps the stroke's far edge still
/// while the grabbed edge follows the cursor.
pub open spec fn line_corner_dragged(pre: CicleAndLineState, rel: Point, i: int) -> CicleAndLineState {
    let dx = rel.x - pre.cursor_pos.x;
    let dy = rel.y - pre.cursor_pos.y;
    let half = tdiv(dy, 2);
    let width = if i == 0 || i == 1 {
        (pre.line_width - dy) as i64
    } else {
        (pre.line_width + dy) as i64
    };
    if i == 0 || i == 3 {
        let moved = translated(pre.line_start, dx, half);
        CicleAndLineState {
            line_start: moved,
            line_end: (Point { x: pre.line_end.x, y: moved.y }),
            line_width: width,
            cursor_pos: rel,
            ..pre
        }
    } else {
        let moved = translated(pre.line_end, dx, half);
        CicleAndLineState {
            line_start: (Point { x: pre.line_start.x, y: moved.y }),
            line_end: moved,
            line_width: width,
            cursor_pos: rel,
            ..pre
        }
    }
}

/// The state after a cursor move to `rel`: geometry follows the drag mode;
/// with nothing grabbed, nothing changes.  A grabbed corner index beyond
/// the four handles moves only the anchor.
pub open spec fn line_moved(pre: CicleAndLineState, rel: Point) -> CicleAndLineState {
    match pre.is_dragging {
        DraggingMode::NoDragging => pre,
        DraggingMode::Line => line_body_dragged(pre, rel),
        DraggingMode::Corner(i) => if i < 4 {
            line_corner_dragged(pre, rel, i as int)
        } else {
            CicleAndLineState { cursor_pos: rel, ..pre }
        },
    }
}

/// The machine's whole transition function: from a state, an event, the
/// frame bounds and the cursor, to the next state and whether the event was
/// consumed.  Without a cursor position there is no event to process.  A
/// press is consumed exactly when it grabs a corner or the body, so a host
/// can fall back to pan/zoom handling when the shape declines; a move is
/// consumed exactly while something is grabbed; a release always lets go
/// and is consumed; other events change nothing.
pub open spec fn line_step(
    rotation: Rotation,
    pre: CicleAndLineState,
    event: Event,
    bounds: Extent,
    cursor: Option<Point>,
) -> (CicleAndLineState, bool) {
    match cursor {
        None => (pre, false),
        Some(c) => {
            let rel = shape_space_point(c, bounds, rotation);
            match event {
                Event::LeftPressed => (line_pressed(pre, rel), line_press_hits(pre, rel)),
                Event::LeftReleased => (
                    CicleAndLineState { is_dragging: DraggingMode::NoDragging, ..pre },
                    true,
                ),
                Event::CursorMoved => (
                    line_moved(pre, rel),
                    !(pre.is_dragging == DraggingMode::NoDragging),
                ),
                _ => (pre, false),
            }
        },
    }
}

/// A full turn, in thousandths of a degree.
pub const FULL_TURN_MILLIDEGREES: u32 = 360_000;

/// Advance the scene's rotation angle by one animation step, wrapping at a
/// full turn.  The host calls this at its own cadence and turns the angle
/// into the cosine/sine pair the kernel works with.
pub fn advance_rotation_angle(angle_millidegrees: u32, step_millidegrees: u32) -> (r: u32)
    requires
        angle_millidegrees < FULL_TURN_MILLIDEGREES,
        step_millidegrees <= 1_000_000,
    ensures
        r == (angle_millidegrees + step_millidegrees) % (FULL_TURN_MILLIDEGREES as int),
        r < FULL_TURN_MILLIDEGREES,
{
    (angle_millidegrees + step_millidegrees) % FULL_TURN_MILLIDEGREES
}

/// The line demo program: the scene's current rotation, pushed down from
/// the host on every tick and undone when mapping cursor positions.
#[derive(Clone, Copy, Debug, PartialEq, Eq, Structural)]
pub struct CircleAndLineProgram {
    /// The rotation the scene is currently drawn with.
    pub rotation: Rotation,
}

impl Default for CircleAndLineProgram {
    /// A program whose scene is not rotated.
    fn default() -> (p: Self)
        ensures
            p.rotation == (Rotation { cos: SCALE as i64, sin: 0i64 }),
            p.rotation.wf(),
    {
        CircleAndLineProgram { rotation: Rotation { cos: SCALE, sin: 0 } }
    }
}

impl CircleAndLineProgram {
    /// The cursor position mapped into the segment's unrotated relative
    /// space.
    pub fn rel_cursor_pos(&self, bounds: &Extent, cursor_position: &Point) -> (r: Point)
        requires
            self.rotation.wf(),
            bounds.wf(),
            cursor_position.in_abs_range(),
        ensures
            r == shape_space_point(*cursor_position, *bounds, self.rotation),
    {
        screen_to_shape_space(cursor_position, bounds, &self.rotation)
    }

    /// Feed one event to the drag state machine: the new state and whether
    /// the event was consumed are exactly `line_step` of the old state.
    pub fn update(
        &self,
        state: &mut CicleAndLineState,
        event: Event,
        bounds: Extent,
        cursor: Option<Point>,
    ) -> (consumed: bool)
        requires
            self.rotation.wf(),
            old(state).in_range(),
            bounds.wf(),
            cursor matches Some(c) ==> c.in_abs_range(),
        ensures
            *final(state) == line_step(self.rotation, *old(state), event, bounds, cursor).0,
            consumed == line_step(self.rotation, *old(state), event, bounds, cursor).1,
    {
        let cursor_position = match cursor {
            Some(position) => position,
            None => {
                return false;
            },
        };
        match event {
            Event::LeftPressed => {
                let rel = self.rel_cursor_pos(&bounds, &cursor_position);
                proof {
                    lemma_shape_space_in_bound(cursor_position, bounds, self.rotation);
                }
                state.cursor_pos = rel;
                if let Some(corner_index) = is_point_on_line_corner(
                    &rel,
                    &state.line_start,
                    &state.line_end,
                    state.line_width,
                ) {
                    state.is_dragging = DraggingMode::Corner(corner_index);
                    return true;
                }
                if is_point_on_horizontal_line(
                    &rel,
                    &state.line_start,
                    &state.line_end,
                    div_trunc(state.line_width, 2),
                ) {
                    state.is_dragging = DraggingMode::Line;
                    return true;
                }
                false
            },
            Event::LeftReleased => {
                state.is_dragging = DraggingMode::NoDragging;
                true
            },
            Event::CursorMoved => {
                match state.is_dragging {
                    DraggingMode::Corner(corner_index) => {
                        let rel = self.rel_cursor_pos(&bounds, &cursor_position);
                        proof {
                            lemma_shape_space_in_bound(cursor_position, bounds, self.rotation);
                        }
                        let dx = rel.x - state.cursor_pos.x;
                        let dy = rel.y - state.cursor_pos.y;
                        state.cursor_pos = rel;
                        let half = div_trunc(dy, 2);
                        match corner_index {
                            0 => {
                                state.line_start = Point {
                                    x: state.line_start.x + dx,
                                    y: state.line_start.y + half,
                                };
                                state.line_end = Point { x: state.line_end.x, y: state.line_start.y };
                                state.line_width = state.line_width - dy;
                            },
                            1 => {
                                state.line_end = Point {
                                    x: state.line_end.x + dx,
                                    y: state.line_end.y + half,
                                };
                                state.line_start = Point {
                                    x: state.line_start.x,
                                    y: state.line_end.y,
                                };
                                state.line_width = state.line_width - dy;
                            },
                            2 => {
                                state.line_end = Point {
                                    x: state.line_end.x + dx,
                                    y: state.line_end.y + half,
                                };
                                state.line_start = Point {
                                    x: state.line_start.x,
                                    y: state.line_end.y,
                                };
                                state.line_width = state.line_width + dy;
                            },
                            3 => {
                                state.line_start = Point {
                                    x: state.line_start.x + dx,
                                    y: state.line_start.y + half,
                                };
                                state.line_end = Point { x: state.line_end.x, y: state.line_start.y };
                                state.line_width = state.line_width + dy;
                            },
                            _ => {},
                        }
                        true
                    },
                    DraggingMode::Line => {
                        let rel = self.rel_cursor_pos(&bounds, &cursor_position);
                        proof {
                            lemma_shape_space_in_bound(cursor_position, bounds, self.rotation);
                        }
                        let dx = rel.x - state.cursor_pos.x;
                        let dy = rel.y - state.cursor_pos.y;
                        state.line_start = Point {
                            x: state.line_start.x + dx,
                            y: state.line_start.y + dy,
                        };
                        state.line_end = Point { x: state.line_end.x + dx, y: state.line_end.y + dy };
                        state.cursor_pos = rel;
                        true
                    },
                    DraggingMode::NoDragging => false,
                }
            },
            _ => false,
        }
    }
}

} // verus!
