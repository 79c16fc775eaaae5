//! Tests for the line demo's rendering: instruction layout, exact
//! coordinates, and determinism.

use canvas_shapes::geometry::Extent;
use canvas_shapes::geometry::Point;
use canvas_shapes::geometry::Rotation;
use canvas_shapes::line_shape::CicleAndLineState;
use canvas_shapes::line_shape::CircleAndLineProgram;
use canvas_shapes::rect_shape::RectangleShape;
use canvas_shapes::rect_shape::RectangleState;
use canvas_shapes::render::Color;
use canvas_shapes::render::DrawInstruction;
use canvas_shapes::render::RectangleProgram;
use canvas_shapes::render::clamp_polygon_edges;
use canvas_shapes::render::StrokeStyle;

fn frame() -> Extent {
    Extent { width: 800_000_000, height: 600_000_000 }
}

#[test]
fn line_scene_layout_without_rotation() {
    let prog = CircleAndLineProgram::default();
    let state = CicleAndLineState::default();
    let r = prog.draw(&state, frame());
    assert_eq!(r.len(), 5);
    assert_eq!(
        r[0],
        DrawInstruction::FillRectangle {
            origin: Point { x: 0, y: 0 },
            extent: frame(),
            color: Color { red: 0, green: 200_000, blue: 400_000 },
        }
    );
    // The circle sits in the frame center; its radius is a quarter of the
    // smaller extent: 150 pixels of 600.
    assert_eq!(
        r[1],
        DrawInstruction::FillCircle {
            center: Point { x: 400_000_000, y: 300_000_000 },
            radius: 150_000_000,
            color: Color { red: 600_000, green: 800_000, blue: 1_000_000 },
        }
    );
    // Unrotated, the gradient stroke and the black reference stroke share
    // their endpoints: 0.1 and 0.9 of 800 pixels, at 0.4 of 600.
    let start = Point { x: 80_000_000, y: 240_000_000 };
    let end = Point { x: 720_000_000, y: 240_000_000 };
    assert_eq!(
        r[2],
        DrawInstruction::StrokeLine {
            from: start,
            to: end,
            width: 120_000_000,
            style: StrokeStyle::RainbowGradient {
                from: Point { x: 0, y: 0 },
                to: Point { x: 800_000_000, y: 600_000_000 },
            },
        }
    );
    assert_eq!(
        r[3],
        DrawInstruction::StrokeLine {
            from: start,
            to: end,
            width: 120_000_000,
            style: StrokeStyle::Solid(Color { red: 0, green: 0, blue: 0 }),
        }
    );
    // The red dot marks the last grabbed position, ten pixels wide.
    assert_eq!(
        r[4],
        DrawInstruction::FillCircle {
            center: Point { x: 0, y: 0 },
            radius: 10_000_000,
            color: Color { red: 1_000_000, green: 0, blue: 0 },
        }
    );
}

#[test]
fn line_scene_rotates_only_the_gradient_stroke() {
    // A half turn about the frame center: the gradient stroke flips, the
    // black reference stroke stays put.
    let prog = CircleAndLineProgram { rotation: Rotation { cos: -1_000_000, sin: 0 } };
    let state = CicleAndLineState::default();
    let r = prog.draw(&state, frame());
    match r[2] {
        DrawInstruction::StrokeLine { from, to, .. } => {
            assert_eq!(from, Point { x: 720_000_000, y: 360_000_000 });
            assert_eq!(to, Point { x: 80_000_000, y: 360_000_000 });
        }
        _ => panic!("the third instruction should stroke the rotated line"),
    }
    match r[3] {
        DrawInstruction::StrokeLine { from, to, .. } => {
            assert_eq!(from, Point { x: 80_000_000, y: 240_000_000 });
            assert_eq!(to, Point { x: 720_000_000, y: 240_000_000 });
        }
        _ => panic!("the fourth instruction should stroke the unrotated line"),
    }
}

#[test]
fn line_scene_rendering_is_deterministic() {
    let prog = CircleAndLineProgram::default();
    let state = CicleAndLineState::default();
    let first = prog.draw(&state, frame());
    let second = prog.draw(&state, frame());
    assert_eq!(first, second);
}

#[test]
fn rectangle_shape_draws_one_teal_fill() {
    let shape = RectangleShape::new();
    let state = RectangleState::default();
    let r = shape.draw(&state);
    assert_eq!(r.len(), 1);
    assert_eq!(
        r[0],
        DrawInstruction::FillRectangle {
            origin: Point { x: 100_000_000, y: 50_000_000 },
            extent: Extent { width: 100_000_000, height: 50_000_000 },
            color: Color { red: 0, green: 500_000, blue: 500_000 },
        }
    );
}

#[test]
fn polygon_edge_count_is_floored_at_three() {
    assert_eq!(clamp_polygon_edges(0), 3);
    assert_eq!(clamp_polygon_edges(2), 3);
    assert_eq!(clamp_polygon_edges(3), 3);
    assert_eq!(clamp_polygon_edges(12), 12);
}

#[test]
fn rectangle_program_draws_the_same_fill() {
    let shape = RectangleShape::new();
    let program = RectangleProgram::default();
    let state = RectangleState::with_dimensions(
        Point { x: -50_000_000, y: -25_000_000 },
        100_000_000,
        50_000_000,
    );
    assert_eq!(program.draw(&state), shape.draw(&state));
}
