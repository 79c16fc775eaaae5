//! The scene canvas: one rectangle shape over a pannable, zoomable view
//! with a background grid.  Shape-level drag handling is always attempted
//! before pan/zoom handling; the first component that consumes an event
//! wins and the other never sees it.

use vstd::prelude::*;
use crate::event::Event;
use crate::geometry::Point;
use crate::geometry::Rect;
use crate::panzoom::PanZoomState;
use crate::panzoom::pan_zoom_step;
use crate::rect_shape::RectangleShape;
use crate::rect_shape::RectangleState;
use crate::rect_shape::rect_step;
use crate::render::Color;
use crate::render::DrawInstruction;
use crate::render::StrokeStyle;
use crate::render::rect_instructions;
use crate::scalar::ABS_LIMIT;
use crate::scalar::SCALE;
use crate::scalar::SCENE_SPACE_LIMIT;
use crate::scalar::div_floor;
use crate::scalar::div_trunc;
use crate::scalar::lemma_fdiv_bounded_by;
use crate::scalar::lemma_tdiv_bounded_by;
use crate::scalar::tdiv;

verus! {

/// What the canvas reports to the host application.
#[derive(Clone, Copy, Debug, PartialEq, Eq, Structural)]
pub enum Message {
    /// The cursor's position in scene space, after the view transform.
    CanvasMouseMoved(Point),
}

/// The scene canvas program; its state lives in `CanvasState`.
#[derive(Clone, Copy, Debug, PartialEq, Eq, Structural)]
pub struct CanvasProgram;

impl Default for CanvasProgram {
    fn default() -> (r: Self)
        ensures
            r == (CanvasProgram {}),
    {
        CanvasProgram {}
    }
}

impl CanvasProgram {
    pub fn new() -> (r: Self)
        ensures
            r == (CanvasProgram {}),
    {
        CanvasProgram {}
    }
}

/// The scene's whole state: the view transform and the one shape.
#[derive(Clone, Copy, Debug, PartialEq, Eq, Structural)]
pub struct CanvasState {
    pub pan_zoom_state: PanZoomState,
    pub rectangle_shape: RectangleShape,
    pub rectangle_state: RectangleState,
}

impl CanvasState {
    /// Every stored position within its machine's accepted magnitude.
    pub open spec fn in_range(self) -> bool {
        &&& self.pan_zoom_state.wf()
        &&& self.pan_zoom_state.in_range()
        &&& self.rectangle_state.wf()
        &&& self.rectangle_state.in_range()
    }
}

impl Default for CanvasState {
    /// An untouched view over the default rectangle.
    fn default() -> (s: Self)
        ensures
            s.pan_zoom_state.translation == (Point { x: 0i64, y: 0i64 }),
            s.pan_zoom_state.scale == SCALE,
            s.pan_zoom_state.drag_start.is_none(),
            s.rectangle_shape == (RectangleShape {}),
            s.rectangle_state.rect == (Rect {
                x: 100_000_000i64,
                y: 50_000_000i64,
                width: 100_000_000i64,
                height: 50_000_000i64,
            }),
            s.rectangle_state.drag_start.is_none(),
            s.rectangle_state.drag_offset.is_none(),
            s.in_range(),
    {
        CanvasState {
            pan_zoom_state: PanZoomState::default(),
            rectangle_shape: RectangleShape::default(),
            rectangle_state: RectangleState::default(),
        }
    }
}

/// A screen position mapped into scene space: the view translation is
/// undone, then the view scale divided away.
pub open spec fn scene_cursor(cursor: Point, translation: Point, scale: int) -> Point {
    Point {
        x: tdiv((cursor.x - translation.x) * (SCALE as int), scale) as i64,
        y: tdiv((cursor.y - translation.y) * (SCALE as int), scale) as i64,
    }
}

/// The scene's whole transition function.  Without a cursor position there
/// is no event to process.  Otherwise the cursor is mapped into scene
/// space, the rectangle shape sees the event first, and only if it declines
/// does the pan/zoom machine; either way the host is told where in scene
/// space the cursor is.
pub open spec fn scene_step(pre: CanvasState, event: Event, cursor: Option<Point>) -> (
    CanvasState,
    bool,
    Option<Message>,
) {
    match cursor {
        None => (pre, false, None),
        Some(c) => {
            let sc = scene_cursor(c, pre.pan_zoom_state.translation, pre.pan_zoom_state.scale as int);
            let message = Some(Message::CanvasMouseMoved(sc));
            if rect_step(pre.rectangle_state, event, sc).1 {
                (
                    CanvasState { rectangle_state: rect_step(pre.rectangle_state, event, sc).0, ..pre },
                    true,
                    message,
                )
            } else {
                (
                    CanvasState {
                        pan_zoom_state: pan_zoom_step(pre.pan_zoom_state, event, sc).0,
                        ..pre
                    },
                    pan_zoom_step(pre.pan_zoom_state, event, sc).1,
                    message,
                )
            }
        },
    }
}

impl CanvasProgram {
    /// Feed one event to the scene: the new state, whether the event was
    /// consumed and the derived message are exactly `scene_step` of the old
    /// state.
    pub fn update(&self, state: &mut CanvasState, event: Event, cursor: Option<Point>) -> (r: (
        bool,
        Option<Message>,
    ))
        requires
            old(state).in_range(),
            cursor matches Some(c) ==> c.in_abs_range(),
        ensures
            *final(state) == scene_step(*old(state), event, cursor).0,
            r.0 == scene_step(*old(state), event, cursor).1,
            r.1 == scene_step(*old(state), event, cursor).2,
    {
        let cursor_position = match cursor {
            Some(position) => position,
            None => {
                return (false, None);
            },
        };
        proof {
            lemma_tdiv_bounded_by(
                (cursor_position.x - state.pan_zoom_state.translation.x) * (SCALE as int),
                state.pan_zoom_state.scale as int,
                SCENE_SPACE_LIMIT as int,
            );
            lemma_tdiv_bounded_by(
                (cursor_position.y - state.pan_zoom_state.translation.y) * (SCALE as int),
                state.pan_zoom_state.scale as int,
                SCENE_SPACE_LIMIT as int,
            );
        }
        let mapped = Point {
            x: div_trunc(
                (cursor_position.x - state.pan_zoom_state.translation.x) * SCALE,
                state.pan_zoom_state.scale,
            ),
            y: div_trunc(
                (cursor_position.y - state.pan_zoom_state.translation.y) * SCALE,
                state.pan_zoom_state.scale,
            ),
        };
        let message = Some(Message::CanvasMouseMoved(mapped));
        let is_handled = state.rectangle_shape.update(&mut state.rectangle_state, event, mapped);
        if is_handled {
            return (true, message);
        }
        let pan_zoom_handle_result = state.pan_zoom_state.handle_message(event, mapped);
        (pan_zoom_handle_result, message)
    }
}

/// The grid pitch in whole pixels.
pub const GRID_PITCH: i64 = 50;

/// The first grid coordinate, in whole pixels: the visible edge rounded
/// down to the pitch.
pub open spec fn grid_lo(v: int) -> int {
    GRID_PITCH * (v / (GRID_PITCH * SCALE as int))
}

/// The last grid coordinate, in whole pixels: the edge plus a pitch's share
/// of the extent, rounded up to whole pixels, times the pitch.
pub open spec fn grid_hi(v: int, extent: int) -> int {
    GRID_PITCH * ((v + tdiv(extent, GRID_PITCH as int) + (SCALE as int - 1)) / (SCALE as int))
}

/// How many grid lines a pitch-stepped walk from `lo` up to `hi` emits.
pub open spec fn grid_count(lo: int, hi: int) -> int {
    if lo < hi {
        (hi - lo + (GRID_PITCH as int - 1)) / (GRID_PITCH as int)
    } else {
        0
    }
}

/// The vertical grid line at the given whole-pixel coordinate, spanning the
/// visible height, stroked one pixel wide.
pub open spec fn vertical_grid_line(bounds: Rect, x_px: int) -> DrawInstruction {
    DrawInstruction::StrokeLine {
        from: Point { x: (x_px * SCALE as int) as i64, y: bounds.y },
        to: Point { x: (x_px * SCALE as int) as i64, y: (bounds.y + bounds.height) as i64 },
        width: SCALE as i64,
        style: StrokeStyle::Solid(Color { red: 0, green: 0, blue: 0 }),
    }
}

/// The horizontal grid line at the given whole-pixel coordinate, spanning
/// the visible width.
pub open spec fn horizontal_grid_line(bounds: Rect, y_px: int) -> DrawInstruction {
    DrawInstruction::StrokeLine {
        from: Point { x: bounds.x, y: (y_px * SCALE as int) as i64 },
        to: Point { x: (bounds.x + bounds.width) as i64, y: (y_px * SCALE as int) as i64 },
        width: SCALE as i64,
        style: StrokeStyle::Solid(Color { red: 0, green: 0, blue: 0 }),
    }
}

/// Every grid line of the visible area: verticals left to right, then
/// horizontals top to bottom.
pub open spec fn grid_seq(bounds: Rect) -> Seq<DrawInstruction> {
    let xlo = grid_lo(bounds.x as int);
    let xhi = grid_hi(bounds.x as int, bounds.width as int);
    let ylo = grid_lo(bounds.y as int);
    let yhi = grid_hi(bounds.y as int, bounds.height as int);
    Seq::new(
        grid_count(xlo, xhi) as nat,
        |i: int| vertical_grid_line(bounds, xlo + GRID_PITCH * i),
    ) + Seq::new(
        grid_count(ylo, yhi) as nat,
        |i: int| horizontal_grid_line(bounds, ylo + GRID_PITCH * i),
    )
}

/// Draw the background grid over the visible area: exactly the lines of
/// `grid_seq`.
pub fn draw_grid(bounds: &Rect) -> (r: Vec<DrawInstruction>)
    requires
        -ABS_LIMIT <= bounds.x <= ABS_LIMIT,
        -ABS_LIMIT <= bounds.y <= ABS_LIMIT,
        -ABS_LIMIT <= bounds.width <= ABS_LIMIT,
        -ABS_LIMIT <= bounds.height <= ABS_LIMIT,
    ensures
        r@ == grid_seq(*bounds),
{
    let ghost xlo_s = grid_lo(bounds.x as int);
    let ghost xhi_s = grid_hi(bounds.x as int, bounds.width as int);
    let ghost ylo_s = grid_lo(bounds.y as int);
    let ghost yhi_s = grid_hi(bounds.y as int, bounds.height as int);
    proof {
        lemma_fdiv_bounded_by(bounds.x as int, GRID_PITCH as int * SCALE as int, 160);
        lemma_fdiv_bounded_by(bounds.y as int, GRID_PITCH as int * SCALE as int, 160);
        lemma_tdiv_bounded_by(bounds.width as int, GRID_PITCH as int, 160_000_000);
        lemma_tdiv_bounded_by(bounds.height as int, GRID_PITCH as int, 160_000_000);
        lemma_fdiv_bounded_by(
            bounds.x as int + tdiv(bounds.width as int, GRID_PITCH as int) + (SCALE as int - 1),
            SCALE as int,
            8_300,
        );
        lemma_fdiv_bounded_by(
            bounds.y as int + tdiv(bounds.height as int, GRID_PITCH as int) + (SCALE as int - 1),
            SCALE as int,
            8_300,
        );
    }
    let xlo = GRID_PITCH * div_floor(bounds.x, GRID_PITCH * SCALE);
    let xhi = GRID_PITCH * div_floor(
        bounds.x + div_trunc(bounds.width, GRID_PITCH) + (SCALE - 1),
        SCALE,
    );
    let ylo = GRID_PITCH * div_floor(bounds.y, GRID_PITCH * SCALE);
    let yhi = GRID_PITCH * div_floor(
        bounds.y + div_trunc(bounds.height, GRID_PITCH) + (SCALE - 1),
        SCALE,
    );
    let mut out: Vec<DrawInstruction> = Vec::new();
    let mut x = xlo;
    while x < xhi
        invariant
            xlo == xlo_s,
            xhi == xhi_s,
            -450_000 <= xlo <= 450_000,
            -450_000 <= xhi <= 450_000,
            xlo <= x,
            x == xlo + GRID_PITCH * (out@.len() as int),
            xlo < xhi ==> x <= xhi + (GRID_PITCH - 1),
            xlo >= xhi ==> x == xlo,
            -ABS_LIMIT <= bounds.y <= ABS_LIMIT,
            -ABS_LIMIT <= bounds.height <= ABS_LIMIT,
            forall|i: int|
                0 <= i < out@.len() ==> out@[i] == vertical_grid_line(
                    *bounds,
                    xlo_s + GRID_PITCH * i,
                ),
        decreases xhi + GRID_PITCH - x,
    {
        out.push(
            DrawInstruction::StrokeLine {
                from: Point { x: x * SCALE, y: bounds.y },
                to: Point { x: x * SCALE, y: bounds.y + bounds.height },
                width: SCALE,
                style: StrokeStyle::Solid(Color { red: 0, green: 0, blue: 0 }),
            },
        );
        x = x + GRID_PITCH;
    }
    let ghost vcount = out@.len() as int;
    proof {
        assert(vcount == grid_count(xlo_s, xhi_s));
    }
    let mut y = ylo;
    while y < yhi
        invariant
            ylo == ylo_s,
            yhi == yhi_s,
            -450_000 <= ylo <= 450_000,
            -450_000 <= yhi <= 450_000,
            ylo <= y,
            0 <= vcount <= out@.len(),
            y == ylo + GRID_PITCH * (out@.len() - vcount),
            ylo < yhi ==> y <= yhi + (GRID_PITCH - 1),
            ylo >= yhi ==> y == ylo,
            -ABS_LIMIT <= bounds.x <= ABS_LIMIT,
            -ABS_LIMIT <= bounds.width <= ABS_LIMIT,
            vcount == grid_count(grid_lo(bounds.x as int), grid_hi(bounds.x as int, bounds.width as int)),
            forall|i: int|
                0 <= i < vcount ==> out@[i] == vertical_grid_line(
                    *bounds,
                    grid_lo(bounds.x as int) + GRID_PITCH * i,
                ),
            forall|i: int|
                vcount <= i < out@.len() ==> out@[i] == horizontal_grid_line(
                    *bounds,
                    ylo_s + GRID_PITCH * (i - vcount),
                ),
        decreases yhi + GRID_PITCH - y,
    {
        out.push(
            DrawInstruction::StrokeLine {
                from: Point { x: bounds.x, y: y * SCALE },
                to: Point { x: bounds.x + bounds.width, y: y * SCALE },
                width: SCALE,
                style: StrokeStyle::Solid(Color { red: 0, green: 0, blue: 0 }),
            },
        );
        y = y + GRID_PITCH;
    }
    proof {
        assert(out@.len() - vcount == grid_count(ylo_s, yhi_s));
        assert(out@ =~= grid_seq(*bounds));
    }
    out
}

/// The scene's whole rendering: the view transform, the grid, then the
/// rectangle.
pub open spec fn canvas_instructions(state: CanvasState, bounds: Rect) -> Seq<DrawInstruction> {
    seq![
        DrawInstruction::Translate { by: state.pan_zoom_state.translation },
        DrawInstruction::Magnify { factor: state.pan_zoom_state.scale },
    ] + grid_seq(bounds) + rect_instructions(state.rectangle_state)
}

impl CanvasProgram {
    /// Draw the scene: the result is exactly `canvas_instructions` of the
    /// state and the visible bounds, and of nothing else.
    pub fn draw(&self, state: &CanvasState, bounds: &Rect) -> (r: Vec<DrawInstruction>)
        requires
            -ABS_LIMIT <= bounds.x <= ABS_LIMIT,
            -ABS_LIMIT <= bounds.y <= ABS_LIMIT,
            -ABS_LIMIT <= bounds.width <= ABS_LIMIT,
            -ABS_LIMIT <= bounds.height <= ABS_LIMIT,
        ensures
            r@ == canvas_instructions(*state, *bounds),
    {
        let mut out: Vec<DrawInstruction> = Vec::new();
        out.push(DrawInstruction::Translate { by: state.pan_zoom_state.translation });
        out.push(DrawInstruction::Magnify { factor: state.pan_zoom_state.scale });
        let mut grid = draw_grid(bounds);
        out.append(&mut grid);
        let mut shape = state.rectangle_shape.draw(&state.rectangle_state);
        out.append(&mut shape);
        proof {
            assert(out@ =~= canvas_instructions(*state, *bounds));
        }
        out
    }
}

} // verus!
