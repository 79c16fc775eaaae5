//! Tests for the line demo's drag state machine.  The frame is one pixel
//! square (1_000_000 steps), so with no rotation a cursor position equals
//! its shape-space image and the expected geometry can be read directly.

use canvas_shapes::event::Event;
use canvas_shapes::geometry::Extent;
use canvas_shapes::geometry::Point;
use canvas_shapes::line_shape::CicleAndLineState;
use canvas_shapes::line_shape::CircleAndLineProgram;
use canvas_shapes::line_shape::DraggingMode;
use canvas_shapes::line_shape::FULL_TURN_MILLIDEGREES;
use canvas_shapes::line_shape::advance_rotation_angle;

fn unit_frame() -> Extent {
    Extent { width: 1_000_000, height: 1_000_000 }
}

fn program() -> CircleAndLineProgram {
    CircleAndLineProgram::default()
}

#[test]
fn press_on_body_starts_body_drag() {
    let prog = program();
    let mut state = CicleAndLineState::default();
    let consumed = prog.update(
        &mut state,
        Event::LeftPressed,
        unit_frame(),
        Some(Point { x: 500_000, y: 400_000 }),
    );
    assert!(consumed);
    assert_eq!(state.is_dragging, DraggingMode::Line);
    assert_eq!(state.cursor_pos, Point { x: 500_000, y: 400_000 });
    // The press itself changes no geometry.
    assert_eq!(state.line_start, Point { x: 100_000, y: 400_000 });
    assert_eq!(state.line_end, Point { x: 900_000, y: 400_000 });
    assert_eq!(state.line_width, 200_000);
}

#[test]
fn drag_body_translates_both_endpoints() {
    let prog = program();
    let mut state = CicleAndLineState::default();
    prog.update(
        &mut state,
        Event::LeftPressed,
        unit_frame(),
        Some(Point { x: 500_000, y: 400_000 }),
    );
    let consumed = prog.update(
        &mut state,
        Event::CursorMoved,
        unit_frame(),
        Some(Point { x: 600_000, y: 450_000 }),
    );
    assert!(consumed);
    assert_eq!(state.line_start, Point { x: 200_000, y: 450_000 });
    assert_eq!(state.line_end, Point { x: 1_000_000, y: 450_000 });
    assert_eq!(state.cursor_pos, Point { x: 600_000, y: 450_000 });
    assert_eq!(state.line_width, 200_000);
}

#[test]
fn press_on_upper_left_corner_starts_corner_drag() {
    let prog = program();
    let mut state = CicleAndLineState::default();
    let consumed = prog.update(
        &mut state,
        Event::LeftPressed,
        unit_frame(),
        Some(Point { x: 100_000, y: 300_000 }),
    );
    assert!(consumed);
    assert_eq!(state.is_dragging, DraggingMode::Corner(0));
}

#[test]
fn drag_upper_left_corner_down_shrinks_width() {
    let prog = program();
    let mut state = CicleAndLineState::default();
    prog.update(
        &mut state,
        Event::LeftPressed,
        unit_frame(),
        Some(Point { x: 100_000, y: 300_000 }),
    );
    // Cursor moves down by 0.04.
    let consumed = prog.update(
        &mut state,
        Event::CursorMoved,
        unit_frame(),
        Some(Point { x: 100_000, y: 340_000 }),
    );
    assert!(consumed);
    assert_eq!(state.line_width, 160_000);
    assert_eq!(state.line_start.y, 420_000);
    assert_eq!(state.line_end.y, state.line_start.y);
    assert_eq!(state.line_start.x, 100_000);
    assert_eq!(state.line_end.x, 900_000);
}

#[test]
fn drag_lower_right_corner_down_grows_width() {
    let prog = program();
    let mut state = CicleAndLineState::default();
    prog.update(
        &mut state,
        Event::LeftPressed,
        unit_frame(),
        Some(Point { x: 900_000, y: 500_000 }),
    );
    assert_eq!(state.is_dragging, DraggingMode::Corner(2));
    prog.update(
        &mut state,
        Event::CursorMoved,
        unit_frame(),
        Some(Point { x: 920_000, y: 540_000 }),
    );
    assert_eq!(state.line_width, 240_000);
    assert_eq!(state.line_end, Point { x: 920_000, y: 420_000 });
    assert_eq!(state.line_start, Point { x: 100_000, y: 420_000 });
}

#[test]
fn drag_upper_right_corner_moves_end_and_shrinks() {
    let prog = program();
    let mut state = CicleAndLineState::default();
    prog.update(
        &mut state,
        Event::LeftPressed,
        unit_frame(),
        Some(Point { x: 900_000, y: 300_000 }),
    );
    assert_eq!(state.is_dragging, DraggingMode::Corner(1));
    prog.update(
        &mut state,
        Event::CursorMoved,
        unit_frame(),
        Some(Point { x: 880_000, y: 320_000 }),
    );
    assert_eq!(state.line_width, 180_000);
    assert_eq!(state.line_end, Point { x: 880_000, y: 410_000 });
    assert_eq!(state.line_start, Point { x: 100_000, y: 410_000 });
}

#[test]
fn drag_lower_left_corner_up_shrinks_width() {
    let prog = program();
    let mut state = CicleAndLineState::default();
    prog.update(
        &mut state,
        Event::LeftPressed,
        unit_frame(),
        Some(Point { x: 100_000, y: 500_000 }),
    );
    assert_eq!(state.is_dragging, DraggingMode::Corner(3));
    prog.update(
        &mut state,
        Event::CursorMoved,
        unit_frame(),
        Some(Point { x: 100_000, y: 460_000 }),
    );
    // The lower corners grow the width with downward movement; moving up
    // shrinks it.
    assert_eq!(state.line_width, 160_000);
    assert_eq!(state.line_start, Point { x: 100_000, y: 380_000 });
    assert_eq!(state.line_end, Point { x: 900_000, y: 380_000 });
}

#[test]
fn release_always_lets_go() {
    let prog = program();
    let mut state = CicleAndLineState::default();
    prog.update(
        &mut state,
        Event::LeftPressed,
        unit_frame(),
        Some(Point { x: 500_000, y: 400_000 }),
    );
    assert_eq!(state.is_dragging, DraggingMode::Line);
    let consumed = prog.update(
        &mut state,
        Event::LeftReleased,
        unit_frame(),
        Some(Point { x: 500_000, y: 400_000 }),
    );
    assert!(consumed);
    assert_eq!(state.is_dragging, DraggingMode::NoDragging);
}

#[test]
fn press_that_hits_nothing_is_declined() {
    let prog = program();
    let mut state = CicleAndLineState::default();
    let consumed = prog.update(
        &mut state,
        Event::LeftPressed,
        unit_frame(),
        Some(Point { x: 50_000, y: 100_000 }),
    );
    // Nothing is grabbed and the press is reported unconsumed, so a host
    // can hand it to the pan/zoom fallback; the anchor is still recorded.
    assert!(!consumed);
    assert_eq!(state.is_dragging, DraggingMode::NoDragging);
    assert_eq!(state.line_start, Point { x: 100_000, y: 400_000 });
    assert_eq!(state.line_end, Point { x: 900_000, y: 400_000 });
    assert_eq!(state.cursor_pos, Point { x: 50_000, y: 100_000 });
}

#[test]
fn move_while_idle_is_not_consumed() {
    let prog = program();
    let mut state = CicleAndLineState::default();
    let before = state;
    let consumed = prog.update(
        &mut state,
        Event::CursorMoved,
        unit_frame(),
        Some(Point { x: 500_000, y: 400_000 }),
    );
    assert!(!consumed);
    assert_eq!(state, before);
}

#[test]
fn event_without_cursor_is_ignored() {
    let prog = program();
    let mut state = CicleAndLineState::default();
    let before = state;
    let consumed = prog.update(&mut state, Event::LeftPressed, unit_frame(), None);
    assert!(!consumed);
    assert_eq!(state, before);
}

#[test]
fn wheel_is_not_the_line_shapes_business() {
    let prog = program();
    let mut state = CicleAndLineState::default();
    let before = state;
    let consumed = prog.update(
        &mut state,
        Event::WheelScrolled { forward: true },
        unit_frame(),
        Some(Point { x: 500_000, y: 400_000 }),
    );
    assert!(!consumed);
    assert_eq!(state, before);
}

#[test]
fn drag_with_rotated_scene_works_in_shape_space() {
    // The scene is drawn rotated a half turn; a press on the screen point
    // where the body appears maps back onto the stored geometry.
    let prog = CircleAndLineProgram {
        rotation: canvas_shapes::geometry::Rotation { cos: -1_000_000, sin: 0 },
    };
    let mut state = CicleAndLineState::default();
    // Shape-space (0.5, 0.4) appears on screen at (0.5, 0.6).
    let consumed = prog.update(
        &mut state,
        Event::LeftPressed,
        unit_frame(),
        Some(Point { x: 500_000, y: 600_000 }),
    );
    assert!(consumed);
    assert_eq!(state.is_dragging, DraggingMode::Line);
    assert_eq!(state.cursor_pos, Point { x: 500_000, y: 400_000 });
}

#[test]
fn corner_drag_halves_odd_deltas_towards_zero() {
    let prog = program();
    let mut state = CicleAndLineState::default();
    prog.update(
        &mut state,
        Event::LeftPressed,
        unit_frame(),
        Some(Point { x: 100_000, y: 300_000 }),
    );
    // An odd vertical delta: the half applied to the endpoint rounds the
    // half-step away, towards zero.
    prog.update(
        &mut state,
        Event::CursorMoved,
        unit_frame(),
        Some(Point { x: 100_000, y: 330_001 }),
    );
    assert_eq!(state.line_start.y, 415_000);
    assert_eq!(state.line_width, 200_000 - 30_001);
    // And the same upwards: minus 30_001 halves to minus 15_000.
    let mut state = CicleAndLineState::default();
    prog.update(
        &mut state,
        Event::LeftPressed,
        unit_frame(),
        Some(Point { x: 100_000, y: 300_000 }),
    );
    prog.update(
        &mut state,
        Event::CursorMoved,
        unit_frame(),
        Some(Point { x: 100_000, y: 269_999 }),
    );
    assert_eq!(state.line_start.y, 385_000);
    assert_eq!(state.line_width, 200_000 + 30_001);
}

#[test]
fn rotation_angle_advances_and_wraps() {
    assert_eq!(advance_rotation_angle(0, 500), 500);
    assert_eq!(advance_rotation_angle(359_900, 500), 400);
    assert_eq!(advance_rotation_angle(359_500, 500), 0);
    assert!(advance_rotation_angle(359_999, 1_000_000) < FULL_TURN_MILLIDEGREES);
}
