//! Rendering: each drawing program maps its state and the frame extent to a
//! list of fill and stroke primitives in absolute pixel coordinates.  The
//! lists are deterministic — each `draw` pins its whole result to a
//! function of the state, the bounds and the rotation, so drawing twice
//! with no intervening event produces identical instructions.

use vstd::prelude::*;
use crate::geometry::Extent;
use crate::geometry::Point;
use crate::geometry::lemma_mul_bound;
use crate::geometry::lemma_rel_to_abs_in_bound;
use crate::geometry::rel_to_abs;
use crate::geometry::rel_to_abs_pt;
use crate::geometry::rotate_point;
use crate::geometry::rotated_point;
use crate::line_shape::CicleAndLineState;
use crate::line_shape::CircleAndLineProgram;
use crate::rect_shape::RectangleShape;
use crate::rect_shape::RectangleState;
use crate::scalar::ABS_LIMIT;
use crate::scalar::REL_DRAW_LIMIT;
use crate::scalar::SCALE;
use crate::scalar::div_trunc;
use crate::scalar::lemma_tdiv_bounded;
use crate::scalar::tdiv;

verus! {

/// A color, each channel a fixed-point fraction between zero and one.
#[derive(Clone, Copy, Debug, PartialEq, Eq, Structural)]
pub struct Color {
    pub red: i64,
    pub green: i64,
    pub blue: i64,
}

/// How a stroke is painted.
#[derive(Clone, Copy, Debug, PartialEq, Eq, Structural)]
pub enum StrokeStyle {
    /// One solid color.
    Solid(Color),
    /// The demo's diagonal rainbow, running red to blue along the given
    /// axis; the host owns the palette.
    RainbowGradient { from: Point, to: Point },
}

/// One drawing primitive, in absolute pixel steps.
#[derive(Clone, Copy, Debug, PartialEq, Eq, Structural)]
pub enum DrawInstruction {
    /// Shift everything that follows by the given offset.
    Translate { by: Point },
    /// Magnify everything that follows by the given fixed-point factor.
    Magnify { factor: i64 },
    /// Fill the axis-aligned rectangle from `origin` spanning `extent`.
    FillRectangle { origin: Point, extent: Extent, color: Color },
    /// Fill the circle around `center`.
    FillCircle { center: Point, radius: i64, color: Color },
    /// Stroke the segment from `from` to `to` with the given thickness.
    StrokeLine { from: Point, to: Point, width: i64, style: StrokeStyle },
}

/// The product of two fixed-point values, scaled back down.
pub open spec fn scaled(a: int, b: int) -> int {
    tdiv(a * b, SCALE as int)
}

/// A state the line renderer accepts: every stored relative value within
/// the renderer's accepted magnitude.
pub open spec fn line_draw_in_range(state: CicleAndLineState) -> bool {
    &&& -REL_DRAW_LIMIT <= state.circle_radius <= REL_DRAW_LIMIT
    &&& -REL_DRAW_LIMIT <= state.line_start.x <= REL_DRAW_LIMIT
    &&& -REL_DRAW_LIMIT <= state.line_start.y <= REL_DRAW_LIMIT
    &&& -REL_DRAW_LIMIT <= state.line_end.x <= REL_DRAW_LIMIT
    &&& -REL_DRAW_LIMIT <= state.line_end.y <= REL_DRAW_LIMIT
    &&& -REL_DRAW_LIMIT <= state.line_width <= REL_DRAW_LIMIT
    &&& -REL_DRAW_LIMIT <= state.cursor_pos.x <= REL_DRAW_LIMIT
    &&& -REL_DRAW_LIMIT <= state.cursor_pos.y <= REL_DRAW_LIMIT
}

/// The line demo's whole scene, in drawing order: the background, the
/// backdrop circle in the frame center, the segment rotated and painted
/// with the rainbow gradient, the unrotated segment in black for reference,
/// and a red dot at the last grabbed position.
pub open spec fn line_scene_instructions(
    rotation: crate::geometry::Rotation,
    state: CicleAndLineState,
    bounds: Extent,
) -> Seq<DrawInstruction> {
    let frame_min = if bounds.width <= bounds.height {
        bounds.width
    } else {
        bounds.height
    };
    let center = Point {
        x: tdiv(bounds.width as int, 2) as i64,
        y: tdiv(bounds.height as int, 2) as i64,
    };
    let start_abs = Point {
        x: rel_to_abs(state.line_start.x as int, bounds.width as int) as i64,
        y: rel_to_abs(state.line_start.y as int, bounds.height as int) as i64,
    };
    let end_abs = Point {
        x: rel_to_abs(state.line_end.x as int, bounds.width as int) as i64,
        y: rel_to_abs(state.line_end.y as int, bounds.height as int) as i64,
    };
    let stroke_width = scaled(frame_min as int, state.line_width as int) as i64;
    seq![
        DrawInstruction::FillRectangle {
            origin: Point { x: 0, y: 0 },
            extent: bounds,
            color: Color { red: 0, green: 200_000, blue: 400_000 },
        },
        DrawInstruction::FillCircle {
            center,
            radius: scaled(frame_min as int, state.circle_radius as int) as i64,
            color: Color { red: 600_000, green: 800_000, blue: 1_000_000 },
        },
        DrawInstruction::StrokeLine {
            from: rotated_point(start_abs, center, rotation),
            to: rotated_point(end_abs, center, rotation),
            width: stroke_width,
            style: StrokeStyle::RainbowGradient {
                from: Point { x: 0, y: 0 },
                to: Point { x: bounds.width, y: bounds.height },
            },
        },
        DrawInstruction::StrokeLine {
            from: start_abs,
            to: end_abs,
            width: stroke_width,
            style: StrokeStyle::Solid(Color { red: 0, green: 0, blue: 0 }),
        },
        DrawInstruction::FillCircle {
            center: Point {
                x: rel_to_abs(state.cursor_pos.x as int, bounds.width as int) as i64,
                y: rel_to_abs(state.cursor_pos.y as int, bounds.height as int) as i64,
            },
            radius: 10_000_000,
            color: Color { red: 1_000_000, green: 0, blue: 0 },
        },
    ]
}

impl CircleAndLineProgram {
    /// Draw the scene: the result is exactly `line_scene_instructions` of
    /// the state, the bounds and the program's rotation, and of nothing
    /// else.
    pub fn draw(&self, state: &CicleAndLineState, bounds: Extent) -> (r: Vec<DrawInstruction>)
        requires
            self.rotation.wf(),
            bounds.wf(),
            line_draw_in_range(*state),
        ensures
            r@ == line_scene_instructions(self.rotation, *state, bounds),
    {
        let frame_min = if bounds.width <= bounds.height {
            bounds.width
        } else {
            bounds.height
        };
        let center = Point { x: div_trunc(bounds.width, 2), y: div_trunc(bounds.height, 2) };
        proof {
            lemma_tdiv_bounded(bounds.width as int, 2, ABS_LIMIT as int);
            lemma_tdiv_bounded(bounds.height as int, 2, ABS_LIMIT as int);
            lemma_mul_bound(
                frame_min as int,
                state.circle_radius as int,
                ABS_LIMIT as int,
                REL_DRAW_LIMIT as int,
            );
            lemma_mul_bound(
                frame_min as int,
                state.line_width as int,
                ABS_LIMIT as int,
                REL_DRAW_LIMIT as int,
            );
            lemma_rel_to_abs_in_bound(state.line_start.x as int, bounds.width as int);
            lemma_rel_to_abs_in_bound(state.line_start.y as int, bounds.height as int);
            lemma_rel_to_abs_in_bound(state.line_end.x as int, bounds.width as int);
            lemma_rel_to_abs_in_bound(state.line_end.y as int, bounds.height as int);
        }
        let circle_radius = div_trunc(frame_min * state.circle_radius, SCALE);
        let stroke_width = div_trunc(frame_min * state.line_width, SCALE);
        let start_abs = rel_to_abs_pt(&bounds, &state.line_start);
        let end_abs = rel_to_abs_pt(&bounds, &state.line_end);
        let rotated_start = rotate_point(&start_abs, &center, &self.rotation);
        let rotated_end = rotate_point(&end_abs, &center, &self.rotation);
        let cursor_abs = rel_to_abs_pt(&bounds, &state.cursor_pos);
        let r = vec![
            DrawInstruction::FillRectangle {
                origin: Point { x: 0, y: 0 },
                extent: bounds,
                color: Color { red: 0, green: 200_000, blue: 400_000 },
            },
            DrawInstruction::FillCircle {
                center,
                radius: circle_radius,
                color: Color { red: 600_000, green: 800_000, blue: 1_000_000 },
            },
            DrawInstruction::StrokeLine {
                from: rotated_start,
                to: rotated_end,
                width: stroke_width,
                style: StrokeStyle::RainbowGradient {
                    from: Point { x: 0, y: 0 },
                    to: Point { x: bounds.width, y: bounds.height },
                },
            },
            DrawInstruction::StrokeLine {
                from: start_abs,
                to: end_abs,
                width: stroke_width,
                style: StrokeStyle::Solid(Color { red: 0, green: 0, blue: 0 }),
            },
            DrawInstruction::FillCircle {
                center: cursor_abs,
                radius: 10_000_000,
                color: Color { red: 1_000_000, green: 0, blue: 0 },
            },
        ];
        proof {
            assert(r@ =~= line_scene_instructions(self.rotation, *state, bounds));
        }
        r
    }
}

/// The single primitive of the rectangle demo: the rectangle filled teal.
pub open spec fn rect_instructions(state: RectangleState) -> Seq<DrawInstruction> {
    seq![
        DrawInstruction::FillRectangle {
            origin: Point { x: state.rect.x, y: state.rect.y },
            extent: Extent { width: state.rect.width, height: state.rect.height },
            color: Color { red: 0, green: 500_000, blue: 500_000 },
        },
    ]
}

impl RectangleShape {
    /// Draw the rectangle: the result is exactly `rect_instructions` of the
    /// state and of nothing else.
    pub fn draw(&self, state: &RectangleState) -> (r: Vec<DrawInstruction>)
        ensures
            r@ == rect_instructions(*state),
    {
        let r = vec![
            DrawInstruction::FillRectangle {
                origin: Point { x: state.rect.x, y: state.rect.y },
                extent: Extent { width: state.rect.width, height: state.rect.height },
                color: Color { red: 0, green: 500_000, blue: 500_000 },
            },
        ];
        proof {
            assert(r@ =~= rect_instructions(*state));
        }
        r
    }
}

/// The one input rule of the polygon demo: a polygon keeps at least three
/// edges, whatever the edge slider hands in.
pub fn clamp_polygon_edges(edges: u32) -> (r: u32)
    ensures
        r == if edges < 3 {
            3u32
        } else {
            edges
        },
        r >= 3,
{
    if edges < 3 {
        3
    } else {
        edges
    }
}

/// A drawing program around a bare rectangle state, drawing the same single
/// primitive as `RectangleShape`.
#[derive(Clone, Copy, Debug, PartialEq, Eq, Structural)]
pub struct RectangleProgram;

impl Default for RectangleProgram {
    fn default() -> (r: Self)
        ensures
            r == (RectangleProgram {}),
    {
        RectangleProgram {}
    }
}

impl RectangleProgram {
    /// Draw the rectangle: the result is exactly `rect_instructions` of the
    /// state and of nothing else.
    pub fn draw(&self, state: &RectangleState) -> (r: Vec<DrawInstruction>)
        ensures
            r@ == rect_instructions(*state),
    {
        RectangleShape {}.draw(state)
    }
}

} // verus!
