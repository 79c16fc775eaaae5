//! Tests for the geometry kernel: rotation, hit tests, coordinate mapping.
//! Values are fixed-point: 1_000_000 steps is one unit.

use canvas_shapes::geometry::Extent;
use canvas_shapes::geometry::Point;
use canvas_shapes::geometry::Rect;
use canvas_shapes::geometry::Rotation;
use canvas_shapes::geometry::is_point_on_horizontal_line;
use canvas_shapes::geometry::is_point_on_line_corner;
use canvas_shapes::geometry::rel_to_abs_pt;
use canvas_shapes::geometry::rel_to_abs_rct;
use canvas_shapes::geometry::rotate_line;
use canvas_shapes::geometry::rotate_point;
use canvas_shapes::geometry::rotate_rectangle;
use canvas_shapes::geometry::rotate_rectangle_corners_at_center;
use canvas_shapes::geometry::screen_to_shape_space;

/// An exact fixed-point unit-circle pair: a 3-4-5 triangle.
fn rotation_3_4_5() -> Rotation {
    Rotation { cos: 800_000, sin: 600_000 }
}

/// Thirty degrees, rounded to fixed point (not exactly on the unit circle).
fn rotation_30_degrees() -> Rotation {
    Rotation { cos: 866_025, sin: 500_000 }
}

#[test]
fn rotate_point_by_zero_angle_moves_nothing() {
    let p = Point { x: 300_000, y: 700_000 };
    let c = Point { x: 500_000, y: 500_000 };
    let r = rotate_point(&p, &c, &Rotation::identity());
    assert_eq!(r, p);
}

#[test]
fn rotate_center_about_itself_moves_nothing() {
    let c = Point { x: 123_456, y: -654_321 };
    assert_eq!(rotate_point(&c, &c, &rotation_3_4_5()), c);
    assert_eq!(rotate_point(&c, &c, &rotation_30_degrees()), c);
    let c2 = Point { x: 0, y: 0 };
    assert_eq!(rotate_point(&c2, &c2, &rotation_3_4_5()), c2);
}

#[test]
fn rotate_point_round_trip_returns_to_start() {
    let p = Point { x: 300_000, y: 700_000 };
    let c = Point { x: 500_000, y: 500_000 };
    let rot = rotation_3_4_5();
    let there = rotate_point(&p, &c, &rot);
    let back = rotate_point(&there, &c, &rot.inverse());
    assert!((back.x - p.x).abs() <= 2, "x came back as {}", back.x);
    assert!((back.y - p.y).abs() <= 2, "y came back as {}", back.y);
}

#[test]
fn rotate_point_round_trip_many_points() {
    let rot = rotation_3_4_5();
    let c = Point { x: 400_000, y: 300_000 };
    for i in 0..20 {
        let p = Point { x: -900_000 + 100_000 * i, y: 50_000 * i * i - 400_000 };
        let there = rotate_point(&p, &c, &rot);
        let back = rotate_point(&there, &c, &rot.inverse());
        assert!((back.x - p.x).abs() <= 2);
        assert!((back.y - p.y).abs() <= 2);
    }
}

#[test]
fn rotate_point_round_trip_rounded_angle_stays_close() {
    // A pair rounded from a real angle misses the unit circle by a little;
    // the round trip stays within a few steps for unit-sized points.
    let rot = rotation_30_degrees();
    let c = Point { x: 500_000, y: 500_000 };
    let p = Point { x: 100_000, y: 400_000 };
    let there = rotate_point(&p, &c, &rot);
    let back = rotate_point(&there, &c, &rot.inverse());
    assert!((back.x - p.x).abs() <= 5);
    assert!((back.y - p.y).abs() <= 5);
}

#[test]
fn rotate_point_round_trip_at_extreme_coordinates() {
    // Coordinates four hundred thousand units out: the rotated image stays
    // within the kernel's accepted range, and the round trip still lands
    // within two steps.
    let rot = rotation_3_4_5();
    let c = Point { x: -400_000_000_000, y: 400_000_000_000 };
    let p = Point { x: 400_000_000_000, y: -400_000_000_000 };
    let there = rotate_point(&p, &c, &rot);
    let back = rotate_point(&there, &c, &rot.inverse());
    assert!((back.x - p.x).abs() <= 2);
    assert!((back.y - p.y).abs() <= 2);
}

#[test]
fn rotate_point_quarter_turn() {
    // Ninety degrees, y-down: (1, 0) from the center lands at (0, 1).
    let rot = Rotation { cos: 0, sin: 1_000_000 };
    let c = Point { x: 0, y: 0 };
    let p = Point { x: 1_000_000, y: 0 };
    assert_eq!(rotate_point(&p, &c, &rot), Point { x: 0, y: 1_000_000 });
}

#[test]
fn rotate_line_rotates_both_endpoints() {
    let rot = Rotation { cos: -1_000_000, sin: 0 };
    let c = Point { x: 400_000, y: 300_000 };
    let a = Point { x: 80_000, y: 240_000 };
    let b = Point { x: 720_000, y: 240_000 };
    let (ra, rb) = rotate_line(&a, &b, &c, &rot);
    assert_eq!(ra, Point { x: 720_000, y: 360_000 });
    assert_eq!(rb, Point { x: 80_000, y: 360_000 });
}

#[test]
fn rectangle_corners_at_center_unrotated_order() {
    let center = Point { x: 500_000, y: 500_000 };
    let corners =
        rotate_rectangle_corners_at_center(&center, 400_000, 200_000, &Rotation::identity());
    assert_eq!(corners[0], Point { x: 300_000, y: 400_000 }); // top-left
    assert_eq!(corners[1], Point { x: 700_000, y: 400_000 }); // top-right
    assert_eq!(corners[2], Point { x: 700_000, y: 600_000 }); // bottom-right
    assert_eq!(corners[3], Point { x: 300_000, y: 600_000 }); // bottom-left
}

#[test]
fn rotate_rectangle_keeps_its_corner_order() {
    // Top-left, top-right, bottom-right, bottom-left: the same convention
    // as the corner handles and the center-based variant.
    let rect = Rect { x: 100_000, y: 200_000, width: 300_000, height: 400_000 };
    let center = Point { x: 0, y: 0 };
    let corners = rotate_rectangle(&rect, &center, &Rotation::identity());
    assert_eq!(corners[0], Point { x: 100_000, y: 200_000 });
    assert_eq!(corners[1], Point { x: 400_000, y: 200_000 });
    assert_eq!(corners[2], Point { x: 400_000, y: 600_000 });
    assert_eq!(corners[3], Point { x: 100_000, y: 600_000 });
}

#[test]
fn point_on_horizontal_line_inside() {
    let start = Point { x: 100_000, y: 400_000 };
    let end = Point { x: 900_000, y: 400_000 };
    let pt = Point { x: 500_000, y: 400_000 };
    assert!(is_point_on_horizontal_line(&pt, &start, &end, 100_000));
}

#[test]
fn point_on_horizontal_line_outside_x_range() {
    let start = Point { x: 100_000, y: 400_000 };
    let end = Point { x: 900_000, y: 400_000 };
    let pt = Point { x: 950_000, y: 400_000 };
    assert!(!is_point_on_horizontal_line(&pt, &start, &end, 100_000));
}

#[test]
fn point_on_horizontal_line_boundary_is_inclusive() {
    let start = Point { x: 100_000, y: 400_000 };
    let end = Point { x: 900_000, y: 400_000 };
    // Exactly on the band edge: inside.
    let on_edge = Point { x: 500_000, y: 500_000 };
    assert!(is_point_on_horizontal_line(&on_edge, &start, &end, 100_000));
    // One thousandth beyond: outside.
    let beyond = Point { x: 500_000, y: 501_000 };
    assert!(!is_point_on_horizontal_line(&beyond, &start, &end, 100_000));
    let well_beyond = Point { x: 500_000, y: 510_000 };
    assert!(!is_point_on_horizontal_line(&well_beyond, &start, &end, 100_000));
}

#[test]
fn point_on_horizontal_line_reversed_endpoints() {
    let start = Point { x: 900_000, y: 400_000 };
    let end = Point { x: 100_000, y: 400_000 };
    let pt = Point { x: 500_000, y: 400_000 };
    assert!(is_point_on_horizontal_line(&pt, &start, &end, 100_000));
}

#[test]
fn corner_hit_upper_left() {
    let start = Point { x: 100_000, y: 400_000 };
    let end = Point { x: 900_000, y: 400_000 };
    let pt = Point { x: 100_000, y: 300_000 };
    assert_eq!(is_point_on_line_corner(&pt, &start, &end, 200_000), Some(0));
}

#[test]
fn corner_miss_beyond_tolerance() {
    let start = Point { x: 100_000, y: 400_000 };
    let end = Point { x: 900_000, y: 400_000 };
    // 0.02 away in y: tolerance 0.01 exceeded.
    let pt = Point { x: 100_000, y: 320_000 };
    assert_eq!(is_point_on_line_corner(&pt, &start, &end, 200_000), None);
}

#[test]
fn corner_hit_all_four() {
    let start = Point { x: 100_000, y: 400_000 };
    let end = Point { x: 900_000, y: 400_000 };
    let w = 200_000;
    assert_eq!(
        is_point_on_line_corner(&Point { x: 100_000, y: 300_000 }, &start, &end, w),
        Some(0)
    );
    assert_eq!(
        is_point_on_line_corner(&Point { x: 900_000, y: 300_000 }, &start, &end, w),
        Some(1)
    );
    assert_eq!(
        is_point_on_line_corner(&Point { x: 900_000, y: 500_000 }, &start, &end, w),
        Some(2)
    );
    assert_eq!(
        is_point_on_line_corner(&Point { x: 100_000, y: 500_000 }, &start, &end, w),
        Some(3)
    );
}

#[test]
fn corner_hit_within_tolerance() {
    let start = Point { x: 100_000, y: 400_000 };
    let end = Point { x: 900_000, y: 400_000 };
    // 0.01 away in both coordinates: still a hit, inclusively.
    let pt = Point { x: 110_000, y: 310_000 };
    assert_eq!(is_point_on_line_corner(&pt, &start, &end, 200_000), Some(0));
}

#[test]
fn rel_to_abs_point_scales_by_frame() {
    let frame = Extent { width: 800_000_000, height: 600_000_000 };
    let rel = Point { x: 500_000, y: 250_000 };
    let abs = rel_to_abs_pt(&frame, &rel);
    assert_eq!(abs, Point { x: 400_000_000, y: 150_000_000 });
}

#[test]
fn rel_to_abs_rect_scales_componentwise() {
    let frame = Extent { width: 800_000_000, height: 600_000_000 };
    let rel = Rect { x: 100_000, y: 400_000, width: 800_000, height: 200_000 };
    let abs = rel_to_abs_rct(&frame, &rel);
    assert_eq!(abs.x, 80_000_000);
    assert_eq!(abs.y, 240_000_000);
    assert_eq!(abs.width, 640_000_000);
    assert_eq!(abs.height, 120_000_000);
}

#[test]
fn screen_to_shape_space_without_rotation() {
    let bounds = Extent { width: 800_000_000, height: 600_000_000 };
    let cursor = Point { x: 400_000_000, y: 300_000_000 };
    let rel = screen_to_shape_space(&cursor, &bounds, &Rotation::identity());
    assert_eq!(rel, Point { x: 500_000, y: 500_000 });
}

#[test]
fn screen_to_shape_space_undoes_half_turn() {
    let bounds = Extent { width: 800_000_000, height: 600_000_000 };
    // The scene is drawn rotated a half turn about the frame center; a
    // click at 100, 60 pixels is really at 700, 540 in shape terms.
    let rot = Rotation { cos: -1_000_000, sin: 0 };
    let cursor = Point { x: 100_000_000, y: 60_000_000 };
    let rel = screen_to_shape_space(&cursor, &bounds, &rot);
    assert_eq!(rel, Point { x: 875_000, y: 900_000 });
}
