//! The planar-geometry kernel: rotating points, segments and rectangle
//! corners about a pivot, and hit-testing a point against a thick horizontal
//! segment and its corner handles.
//!
//! A rotation is carried as a fixed-point cosine/sine pair (`Rotation`), so
//! the kernel is exact integer arithmetic: each function's contract gives
//! the result coordinate for coordinate.

use vstd::prelude::*;
use crate::scalar::ABS_LIMIT;
use crate::scalar::COORD_LIMIT;
use crate::scalar::REL_DRAW_LIMIT;
use crate::scalar::REL_LIMIT;
use crate::scalar::SCALE;
use crate::scalar::SCENE_SPACE_LIMIT;
use crate::scalar::SHAPE_SPACE_LIMIT;
use crate::scalar::div_trunc;
use crate::scalar::lemma_tdiv_bounded;
use crate::scalar::lemma_tdiv_exact;
use crate::scalar::lemma_tdiv_remainder;
use crate::scalar::tdiv;

verus! {

/// A 2D coordinate in fixed-point steps.  Whether the value lives in
/// relative units (fraction of the frame extent) or absolute pixel units is
/// determined by context, never tagged: callers track which space a point
/// belongs to.
#[derive(Clone, Copy, Debug, PartialEq, Eq, Structural)]
pub struct Point {
    pub x: i64,
    pub y: i64,
}

impl Point {
    /// Both coordinates within the kernel's accepted magnitude.
    pub open spec fn in_range(self) -> bool {
        -COORD_LIMIT <= self.x <= COORD_LIMIT && -COORD_LIMIT <= self.y <= COORD_LIMIT
    }

    /// Both coordinates within the accepted magnitude for absolute pixels.
    pub open spec fn in_abs_range(self) -> bool {
        -ABS_LIMIT <= self.x <= ABS_LIMIT && -ABS_LIMIT <= self.y <= ABS_LIMIT
    }

    /// Both coordinates within the accepted magnitude for a screen position
    /// mapped through the scene's view transform.
    pub open spec fn in_scene_range(self) -> bool {
        -SCENE_SPACE_LIMIT <= self.x <= SCENE_SPACE_LIMIT && -SCENE_SPACE_LIMIT <= self.y
            <= SCENE_SPACE_LIMIT
    }

    pub fn new(x: i64, y: i64) -> (p: Point)
        ensures
            p == (Point { x, y }),
    {
        Point { x, y }
    }
}

/// An axis-aligned rectangle in fixed-point steps: top-left corner and
/// extents.  As with `Point`, the unit system is determined by context.
#[derive(Clone, Copy, Debug, PartialEq, Eq, Structural)]
pub struct Rect {
    pub x: i64,
    pub y: i64,
    pub width: i64,
    pub height: i64,
}

impl Rect {
    /// All four fields within the kernel's accepted magnitude.
    pub open spec fn in_range(self) -> bool {
        &&& -COORD_LIMIT <= self.x <= COORD_LIMIT
        &&& -COORD_LIMIT <= self.y <= COORD_LIMIT
        &&& -COORD_LIMIT <= self.width <= COORD_LIMIT
        &&& -COORD_LIMIT <= self.height <= COORD_LIMIT
    }

    /// Whether `p` lies inside the rectangle, all four edges included.
    pub open spec fn spec_contains(self, p: Point) -> bool {
        &&& self.x <= p.x <= self.x + self.width
        &&& self.y <= p.y <= self.y + self.height
    }

    /// Hit-test a point against the rectangle, all four edges included.
    pub fn contains(&self, p: &Point) -> (r: bool)
        requires
            self.in_range(),
            p.in_range(),
        ensures
            r == self.spec_contains(*p),
    {
        self.x <= p.x && p.x <= self.x + self.width && self.y <= p.y && p.y <= self.y
            + self.height
    }
}

/// The extent of a render surface in fixed-point pixel steps.
#[derive(Clone, Copy, Debug, PartialEq, Eq, Structural)]
pub struct Extent {
    pub width: i64,
    pub height: i64,
}

impl Extent {
    /// A usable frame: both extents positive and within the accepted
    /// magnitude for absolute pixel units.
    pub open spec fn wf(self) -> bool {
        1 <= self.width <= ABS_LIMIT && 1 <= self.height <= ABS_LIMIT
    }
}

/// A rotation angle, carried as the fixed-point cosine and sine of the
/// angle.  The host computes the pair from an angle in degrees; the kernel
/// only needs that each component's magnitude is at most one.
#[derive(Clone, Copy, Debug, PartialEq, Eq, Structural)]
pub struct Rotation {
    pub cos: i64,
    pub sin: i64,
}

impl Rotation {
    /// Each component's magnitude is at most one.
    pub open spec fn wf(self) -> bool {
        -SCALE <= self.cos <= SCALE && -SCALE <= self.sin <= SCALE
    }

    /// The pair lies exactly on the unit circle.  Fixed-point pairs rounded
    /// from a real angle satisfy this only approximately; the round-trip law
    /// is stated for pairs that satisfy it exactly.
    pub open spec fn on_unit_circle(self) -> bool {
        self.cos * self.cos + self.sin * self.sin == SCALE * SCALE
    }

    /// The rotation by zero degrees.
    pub fn identity() -> (r: Rotation)
        ensures
            r == (Rotation { cos: SCALE as i64, sin: 0i64 }),
            r.wf(),
            r.on_unit_circle(),
    {
        Rotation { cos: SCALE, sin: 0 }
    }

    /// The rotation by the opposite angle.
    pub fn inverse(&self) -> (r: Rotation)
        requires
            self.wf(),
        ensures
            r.cos == self.cos,
            r.sin == -self.sin,
            r.wf(),
            self.on_unit_circle() ==> r.on_unit_circle(),
    {
        proof {
            let s = self.sin as int;
            assert((-s) * (-s) == s * s) by (nonlinear_arith);
        }
        Rotation { cos: self.cos, sin: -self.sin }
    }
}

/// The x coordinate of `(px, py)` rotated about `(cx, cy)` by the angle
/// whose fixed-point cosine and sine are `cos` and `sin`: translate to the
/// pivot, apply the rotation matrix, scale back down, translate back.
pub open spec fn rot_x(px: int, py: int, cx: int, cy: int, cos: int, sin: int) -> int {
    cx + tdiv((px - cx) * cos - (py - cy) * sin, SCALE as int)
}

/// The y coordinate of the same rotation.
pub open spec fn rot_y(px: int, py: int, cx: int, cy: int, cos: int, sin: int) -> int {
    cy + tdiv((px - cx) * sin + (py - cy) * cos, SCALE as int)
}

/// `p` translated by the given deltas.
pub open spec fn translated(p: Point, dx: int, dy: int) -> Point {
    Point { x: (p.x + dx) as i64, y: (p.y + dy) as i64 }
}

/// The x coordinate of `p` rotated about `c` by `r`.
pub open spec fn rotated_x(p: Point, c: Point, r: Rotation) -> int {
    rot_x(p.x as int, p.y as int, c.x as int, c.y as int, r.cos as int, r.sin as int)
}

/// The y coordinate of `p` rotated about `c` by `r`.
pub open spec fn rotated_y(p: Point, c: Point, r: Rotation) -> int {
    rot_y(p.x as int, p.y as int, c.x as int, c.y as int, r.cos as int, r.sin as int)
}

/// Bound on a product from bounds on its factors.
pub proof fn lemma_mul_bound(a: int, b: int, ba: int, bb: int) by (nonlinear_arith)
    requires
        -ba <= a <= ba,
        -bb <= b <= bb,
    ensures
        -(ba * bb) <= a * b <= ba * bb,
{
}

/// Rotating keeps a point within five times the bound that held of the
/// inputs: the quotient of the matrix step is at most four times the input
/// bound, and the translation back adds at most the bound once more.
pub proof fn lemma_rot_in_bound(px: int, py: int, cx: int, cy: int, cos: int, sin: int, b: int)
    requires
        0 <= b,
        -b <= px <= b,
        -b <= py <= b,
        -b <= cx <= b,
        -b <= cy <= b,
        -SCALE <= cos <= SCALE,
        -SCALE <= sin <= SCALE,
    ensures
        -5 * b <= rot_x(px, py, cx, cy, cos, sin) <= 5 * b,
        -5 * b <= rot_y(px, py, cx, cy, cos, sin) <= 5 * b,
{
    let s = SCALE as int;
    let dx = px - cx;
    let dy = py - cy;
    lemma_mul_bound(dx, cos, 2 * b, s);
    lemma_mul_bound(dy, sin, 2 * b, s);
    lemma_mul_bound(dx, sin, 2 * b, s);
    lemma_mul_bound(dy, cos, 2 * b, s);
    let nx = dx * cos - dy * sin;
    let ny = dx * sin + dy * cos;
    lemma_tdiv_remainder(nx, s);
    lemma_tdiv_remainder(ny, s);
}

/// Rotate `point` about `center` by `rotation`.
///
/// The result is exactly the fixed-point rotation `rot_x` / `rot_y`: the
/// translated point is multiplied by the rotation matrix and the extra
/// `SCALE` factor is divided away, rounding towards zero.
pub fn rotate_point(point: &Point, center: &Point, rotation: &Rotation) -> (r: Point)
    requires
        -2 * COORD_LIMIT <= point.x <= 2 * COORD_LIMIT,
        -2 * COORD_LIMIT <= point.y <= 2 * COORD_LIMIT,
        -2 * COORD_LIMIT <= center.x <= 2 * COORD_LIMIT,
        -2 * COORD_LIMIT <= center.y <= 2 * COORD_LIMIT,
        rotation.wf(),
    ensures
        r.x == rotated_x(*point, *center, *rotation),
        r.y == rotated_y(*point, *center, *rotation),
{
    let dx = point.x - center.x;
    let dy = point.y - center.y;
    proof {
        lemma_mul_bound(dx as int, rotation.cos as int, 4 * COORD_LIMIT as int, SCALE as int);
        lemma_mul_bound(dy as int, rotation.sin as int, 4 * COORD_LIMIT as int, SCALE as int);
        lemma_mul_bound(dx as int, rotation.sin as int, 4 * COORD_LIMIT as int, SCALE as int);
        lemma_mul_bound(dy as int, rotation.cos as int, 4 * COORD_LIMIT as int, SCALE as int);
    }
    let nx = dx * rotation.cos - dy * rotation.sin;
    let ny = dx * rotation.sin + dy * rotation.cos;
    let qx = div_trunc(nx, SCALE);
    let qy = div_trunc(ny, SCALE);
    proof {
        lemma_tdiv_remainder(nx as int, SCALE as int);
        lemma_tdiv_remainder(ny as int, SCALE as int);
    }
    Point { x: center.x + qx, y: center.y + qy }
}

/// Rotate both endpoints of a segment about the same center.
pub fn rotate_line(start: &Point, end: &Point, center: &Point, rotation: &Rotation) -> (r: (
    Point,
    Point,
))
    requires
        -2 * COORD_LIMIT <= start.x <= 2 * COORD_LIMIT,
        -2 * COORD_LIMIT <= start.y <= 2 * COORD_LIMIT,
        -2 * COORD_LIMIT <= end.x <= 2 * COORD_LIMIT,
        -2 * COORD_LIMIT <= end.y <= 2 * COORD_LIMIT,
        -2 * COORD_LIMIT <= center.x <= 2 * COORD_LIMIT,
        -2 * COORD_LIMIT <= center.y <= 2 * COORD_LIMIT,
        rotation.wf(),
    ensures
        r.0.x == rotated_x(*start, *center, *rotation),
        r.0.y == rotated_y(*start, *center, *rotation),
        r.1.x == rotated_x(*end, *center, *rotation),
        r.1.y == rotated_y(*end, *center, *rotation),
{
    (rotate_point(start, center, rotation), rotate_point(end, center, rotation))
}

/// The four axis-aligned corners of a `width` by `height` box around
/// `center`, each rotated about `center`: top-left, top-right, bottom-right,
/// bottom-left before rotation.  The half extents round towards zero.
pub fn rotate_rectangle_corners_at_center(
    center: &Point,
    width: i64,
    height: i64,
    rotation: &Rotation,
) -> (r: [Point; 4])
    requires
        center.in_range(),
        -COORD_LIMIT <= width <= COORD_LIMIT,
        -COORD_LIMIT <= height <= COORD_LIMIT,
        rotation.wf(),
    ensures
        ({
            let cx = center.x as int;
            let cy = center.y as int;
            let w2 = tdiv(width as int, 2);
            let h2 = tdiv(height as int, 2);
            let cos = rotation.cos as int;
            let sin = rotation.sin as int;
            &&& r[0].x == rot_x(cx - w2, cy - h2, cx, cy, cos, sin)
            &&& r[0].y == rot_y(cx - w2, cy - h2, cx, cy, cos, sin)
            &&& r[1].x == rot_x(cx + w2, cy - h2, cx, cy, cos, sin)
            &&& r[1].y == rot_y(cx + w2, cy - h2, cx, cy, cos, sin)
            &&& r[2].x == rot_x(cx + w2, cy + h2, cx, cy, cos, sin)
            &&& r[2].y == rot_y(cx + w2, cy + h2, cx, cy, cos, sin)
            &&& r[3].x == rot_x(cx - w2, cy + h2, cx, cy, cos, sin)
            &&& r[3].y == rot_y(cx - w2, cy + h2, cx, cy, cos, sin)
        }),
{
    proof {
        lemma_tdiv_bounded(width as int, 2, COORD_LIMIT as int);
        lemma_tdiv_bounded(height as int, 2, COORD_LIMIT as int);
    }
    let half_width = div_trunc(width, 2);
    let half_height = div_trunc(height, 2);
    let top_left = Point { x: center.x - half_width, y: center.y - half_height };
    let top_right = Point { x: center.x + half_width, y: center.y - half_height };
    let bottom_right = Point { x: center.x + half_width, y: center.y + half_height };
    let bottom_left = Point { x: center.x - half_width, y: center.y + half_height };
    [
        rotate_point(&top_left, center, rotation),
        rotate_point(&top_right, center, rotation),
        rotate_point(&bottom_right, center, rotation),
        rotate_point(&bottom_left, center, rotation),
    ]
}

/// The corners of an axis-aligned rectangle, each rotated about `center`:
/// top-left, top-right, bottom-right, bottom-left before rotation, the same
/// order as `rotate_rectangle_corners_at_center`.
pub fn rotate_rectangle(rectangle: &Rect, center: &Point, rotation: &Rotation) -> (r: [Point; 4])
    requires
        rectangle.in_range(),
        center.in_range(),
        rotation.wf(),
    ensures
        ({
            let cx = center.x as int;
            let cy = center.y as int;
            let x0 = rectangle.x as int;
            let y0 = rectangle.y as int;
            let x1 = rectangle.x + rectangle.width;
            let y1 = rectangle.y + rectangle.height;
            let cos = rotation.cos as int;
            let sin = rotation.sin as int;
            &&& r[0].x == rot_x(x0, y0, cx, cy, cos, sin)
            &&& r[0].y == rot_y(x0, y0, cx, cy, cos, sin)
            &&& r[1].x == rot_x(x1, y0, cx, cy, cos, sin)
            &&& r[1].y == rot_y(x1, y0, cx, cy, cos, sin)
            &&& r[2].x == rot_x(x1, y1, cx, cy, cos, sin)
            &&& r[2].y == rot_y(x1, y1, cx, cy, cos, sin)
            &&& r[3].x == rot_x(x0, y1, cx, cy, cos, sin)
            &&& r[3].y == rot_y(x0, y1, cx, cy, cos, sin)
        }),
{
    let top_left = Point { x: rectangle.x, y: rectangle.y };
    let top_right = Point { x: rectangle.x + rectangle.width, y: rectangle.y };
    let bottom_right = Point {
        x: rectangle.x + rectangle.width,
        y: rectangle.y + rectangle.height,
    };
    let bottom_left = Point { x: rectangle.x, y: rectangle.y + rectangle.height };
    [
        rotate_point(&top_left, center, rotation),
        rotate_point(&top_right, center, rotation),
        rotate_point(&bottom_right, center, rotation),
        rotate_point(&bottom_left, center, rotation),
    ]
}

/// A segment counts as horizontal when its endpoints' heights differ by no
/// more than this, a thousandth of a unit.
pub const HORIZONTAL_TOLERANCE: i64 = 1_000;

/// A point counts as grabbing a corner handle when each of its coordinates
/// is within this of the corner, a hundredth of a unit.
pub const CORNER_TOLERANCE: i64 = 10_000;

/// Whether the two endpoints are at (nearly) the same height, the
/// precondition under which the horizontal-line hit test is meaningful.
pub open spec fn nearly_horizontal(a: Point, b: Point) -> bool {
    -HORIZONTAL_TOLERANCE <= a.y - b.y <= HORIZONTAL_TOLERANCE
}

/// Whether `pt` lies in the band around the segment from `a` to `b`: its x
/// between the endpoints' x, its y within `tol` of the endpoints' y range.
pub open spec fn on_horizontal_band(pt: Point, a: Point, b: Point, tol: int) -> bool {
    let lo_x = if a.x <= b.x {
        a.x
    } else {
        b.x
    };
    let hi_x = if a.x <= b.x {
        b.x
    } else {
        a.x
    };
    let lo_y = if a.y <= b.y {
        a.y
    } else {
        b.y
    };
    let hi_y = if a.y <= b.y {
        b.y
    } else {
        a.y
    };
    &&& lo_x <= pt.x <= hi_x
    &&& lo_y - tol <= pt.y <= hi_y + tol
}

/// Whether `pt` lies on the thick segment from `line_start` to `line_end`,
/// within `tolerance` vertically.  Exact and total; only nearly horizontal
/// segments (`nearly_horizontal`) describe a stroke's actual extent, but no
/// input is rejected: other segments get the same best-effort band test.
pub fn is_point_on_horizontal_line(
    pt: &Point,
    line_start: &Point,
    line_end: &Point,
    tolerance: i64,
) -> (r: bool)
    requires
        -SHAPE_SPACE_LIMIT <= pt.x <= SHAPE_SPACE_LIMIT,
        -SHAPE_SPACE_LIMIT <= pt.y <= SHAPE_SPACE_LIMIT,
        line_start.in_range(),
        line_end.in_range(),
        -COORD_LIMIT <= tolerance <= COORD_LIMIT,
    ensures
        r == on_horizontal_band(*pt, *line_start, *line_end, tolerance as int),
{
    let min_x = if line_start.x <= line_end.x {
        line_start.x
    } else {
        line_end.x
    };
    let max_x = if line_start.x <= line_end.x {
        line_end.x
    } else {
        line_start.x
    };
    if pt.x < min_x || pt.x > max_x {
        return false;
    }
    let min_y = if line_start.y <= line_end.y {
        line_start.y
    } else {
        line_end.y
    };
    let max_y = if line_start.y <= line_end.y {
        line_end.y
    } else {
        line_start.y
    };
    if pt.y < min_y - tolerance || pt.y > max_y + tolerance {
        return false;
    }
    true
}

/// The x coordinate of corner `i` of the thick segment: the start endpoint
/// carries corners 0 and 3, the end endpoint corners 1 and 2.
pub open spec fn corner_x(a: Point, b: Point, i: int) -> int {
    if i == 0 || i == 3 {
        a.x as int
    } else {
        b.x as int
    }
}

/// The y coordinate of corner `i`: half the width above the endpoint for
/// the upper corners 0 and 1, half the width below for the lower 2 and 3.
pub open spec fn corner_y(a: Point, b: Point, w_half: int, i: int) -> int {
    if i == 0 {
        a.y - w_half
    } else if i == 1 {
        b.y - w_half
    } else if i == 2 {
        b.y + w_half
    } else {
        a.y + w_half
    }
}

/// Whether `pt` is within the corner tolerance of corner `i`, coordinate by
/// coordinate.
pub open spec fn near_corner(pt: Point, a: Point, b: Point, w_half: int, i: int) -> bool {
    &&& -CORNER_TOLERANCE <= pt.x - corner_x(a, b, i) <= CORNER_TOLERANCE
    &&& -CORNER_TOLERANCE <= pt.y - corner_y(a, b, w_half, i) <= CORNER_TOLERANCE
}

/// The first corner handle that `pt` grabs, upper left before upper right
/// before lower right before lower left, or none.
pub open spec fn first_near_corner(pt: Point, a: Point, b: Point, w_half: int) -> Option<usize> {
    if near_corner(pt, a, b, w_half, 0) {
        Some(0usize)
    } else if near_corner(pt, a, b, w_half, 1) {
        Some(1usize)
    } else if near_corner(pt, a, b, w_half, 2) {
        Some(2usize)
    } else if near_corner(pt, a, b, w_half, 3) {
        Some(3usize)
    } else {
        None
    }
}

/// Find the first corner handle of the thick segment that `pt` grabs:
/// 0 = upper left, 1 = upper right, 2 = lower right, 3 = lower left, with
/// the corners half the width above and below the endpoints.
pub fn is_point_on_line_corner(
    pt: &Point,
    line_start: &Point,
    line_end: &Point,
    width: i64,
) -> (r: Option<usize>)
    requires
        -SHAPE_SPACE_LIMIT <= pt.x <= SHAPE_SPACE_LIMIT,
        -SHAPE_SPACE_LIMIT <= pt.y <= SHAPE_SPACE_LIMIT,
        line_start.in_range(),
        line_end.in_range(),
        -COORD_LIMIT <= width <= COORD_LIMIT,
    ensures
        r == first_near_corner(*pt, *line_start, *line_end, tdiv(width as int, 2)),
{
    proof {
        lemma_tdiv_bounded(width as int, 2, COORD_LIMIT as int);
    }
    let w_half = div_trunc(width, 2);
    if near(pt, line_start.x, line_start.y - w_half) {
        Some(0)
    } else if near(pt, line_end.x, line_end.y - w_half) {
        Some(1)
    } else if near(pt, line_end.x, line_end.y + w_half) {
        Some(2)
    } else if near(pt, line_start.x, line_start.y + w_half) {
        Some(3)
    } else {
        None
    }
}

/// Whether both coordinates of `pt` are within the corner tolerance of the
/// given coordinates.
fn near(pt: &Point, x: i64, y: i64) -> (r: bool)
    requires
        -SHAPE_SPACE_LIMIT <= pt.x <= SHAPE_SPACE_LIMIT,
        -SHAPE_SPACE_LIMIT <= pt.y <= SHAPE_SPACE_LIMIT,
        -2 * COORD_LIMIT <= x <= 2 * COORD_LIMIT,
        -2 * COORD_LIMIT <= y <= 2 * COORD_LIMIT,
    ensures
        r == (-CORNER_TOLERANCE <= pt.x - x <= CORNER_TOLERANCE && -CORNER_TOLERANCE <= pt.y - y
            <= CORNER_TOLERANCE),
{
    let dx = pt.x - x;
    let dy = pt.y - y;
    -CORNER_TOLERANCE <= dx && dx <= CORNER_TOLERANCE && -CORNER_TOLERANCE <= dy && dy
        <= CORNER_TOLERANCE
}

/// One relative coordinate scaled to absolute pixels: the product of the
/// fraction and the extent, with the extra fixed-point factor divided away.
pub open spec fn rel_to_abs(v: int, extent: int) -> int {
    tdiv(v * extent, SCALE as int)
}

/// A relative point scaled to absolute pixels, componentwise by the frame's
/// width and height.
pub fn rel_to_abs_pt(frame: &Extent, rel_point: &Point) -> (r: Point)
    requires
        frame.wf(),
        -REL_LIMIT <= rel_point.x <= REL_LIMIT,
        -REL_LIMIT <= rel_point.y <= REL_LIMIT,
    ensures
        r.x == rel_to_abs(rel_point.x as int, frame.width as int),
        r.y == rel_to_abs(rel_point.y as int, frame.height as int),
{
    proof {
        lemma_mul_bound(rel_point.x as int, frame.width as int, REL_LIMIT as int, ABS_LIMIT as int);
        lemma_mul_bound(
            rel_point.y as int,
            frame.height as int,
            REL_LIMIT as int,
            ABS_LIMIT as int,
        );
        lemma_tdiv_bounded(
            rel_point.x * frame.width,
            SCALE as int,
            REL_LIMIT as int * ABS_LIMIT as int,
        );
        lemma_tdiv_bounded(
            rel_point.y * frame.height,
            SCALE as int,
            REL_LIMIT as int * ABS_LIMIT as int,
        );
    }
    Point {
        x: div_trunc(rel_point.x * frame.width, SCALE),
        y: div_trunc(rel_point.y * frame.height, SCALE),
    }
}

/// A relative rectangle scaled to absolute pixels: positions and extents
/// componentwise by the frame's width and height.
pub fn rel_to_abs_rct(frame: &Extent, rel_rect: &Rect) -> (r: Rect)
    requires
        frame.wf(),
        -REL_LIMIT <= rel_rect.x <= REL_LIMIT,
        -REL_LIMIT <= rel_rect.y <= REL_LIMIT,
        -REL_LIMIT <= rel_rect.width <= REL_LIMIT,
        -REL_LIMIT <= rel_rect.height <= REL_LIMIT,
    ensures
        r.x == rel_to_abs(rel_rect.x as int, frame.width as int),
        r.y == rel_to_abs(rel_rect.y as int, frame.height as int),
        r.width == rel_to_abs(rel_rect.width as int, frame.width as int),
        r.height == rel_to_abs(rel_rect.height as int, frame.height as int),
{
    let p = rel_to_abs_pt(frame, &Point { x: rel_rect.x, y: rel_rect.y });
    let e = rel_to_abs_pt(frame, &Point { x: rel_rect.width, y: rel_rect.height });
    Rect { x: p.x, y: p.y, width: e.x, height: e.y }
}

/// The x coordinate, in relative units, of an absolute cursor position
/// mapped back into the shape's unrotated authoring space: rotate the
/// cursor about the frame center by the opposite angle, then divide by the
/// frame width.
pub open spec fn shape_space_x(cursor: Point, bounds: Extent, r: Rotation) -> int {
    let cx = tdiv(bounds.width as int, 2);
    let cy = tdiv(bounds.height as int, 2);
    tdiv(
        rot_x(cursor.x as int, cursor.y as int, cx, cy, r.cos as int, -r.sin) * (SCALE as int),
        bounds.width as int,
    )
}

/// The y coordinate of the same mapping, divided by the frame height.
pub open spec fn shape_space_y(cursor: Point, bounds: Extent, r: Rotation) -> int {
    let cx = tdiv(bounds.width as int, 2);
    let cy = tdiv(bounds.height as int, 2);
    tdiv(
        rot_y(cursor.x as int, cursor.y as int, cx, cy, r.cos as int, -r.sin) * (SCALE as int),
        bounds.height as int,
    )
}

/// The whole rotated point, where its coordinates fit the fixed-point
/// range.
pub open spec fn rotated_point(p: Point, c: Point, r: Rotation) -> Point {
    Point { x: rotated_x(p, c, r) as i64, y: rotated_y(p, c, r) as i64 }
}

/// A relative coordinate the renderer accepts scales to an absolute pixel
/// value the rotation kernel accepts.
pub proof fn lemma_rel_to_abs_in_bound(v: int, extent: int)
    requires
        -REL_DRAW_LIMIT <= v <= REL_DRAW_LIMIT,
        0 <= extent <= ABS_LIMIT,
    ensures
        -2 * COORD_LIMIT <= rel_to_abs(v, extent) <= 2 * COORD_LIMIT,
{
    lemma_mul_bound(v, extent, REL_DRAW_LIMIT as int, ABS_LIMIT as int);
    lemma_tdiv_remainder(v * extent, SCALE as int);
}

/// Both mapped coordinates, as the point the state machines anchor to.
pub open spec fn shape_space_point(cursor: Point, bounds: Extent, r: Rotation) -> Point {
    Point {
        x: shape_space_x(cursor, bounds, r) as i64,
        y: shape_space_y(cursor, bounds, r) as i64,
    }
}

/// The mapped coordinates stay within five frame extents' worth of
/// fixed-point steps times the scale: room enough that every later
/// translation of shape geometry by a cursor delta fits in `i64`.
pub proof fn lemma_shape_space_in_bound(cursor: Point, bounds: Extent, r: Rotation)
    requires
        cursor.in_abs_range(),
        bounds.wf(),
        r.wf(),
    ensures
        -SHAPE_SPACE_LIMIT <= shape_space_x(cursor, bounds, r) <= SHAPE_SPACE_LIMIT,
        -SHAPE_SPACE_LIMIT <= shape_space_y(cursor, bounds, r) <= SHAPE_SPACE_LIMIT,
{
    let cx = tdiv(bounds.width as int, 2);
    let cy = tdiv(bounds.height as int, 2);
    lemma_tdiv_bounded(bounds.width as int, 2, ABS_LIMIT as int);
    lemma_tdiv_bounded(bounds.height as int, 2, ABS_LIMIT as int);
    lemma_rot_in_bound(
        cursor.x as int,
        cursor.y as int,
        cx,
        cy,
        r.cos as int,
        -r.sin,
        ABS_LIMIT as int,
    );
    let rx = rot_x(cursor.x as int, cursor.y as int, cx, cy, r.cos as int, -r.sin);
    let ry = rot_y(cursor.x as int, cursor.y as int, cx, cy, r.cos as int, -r.sin);
    lemma_mul_bound(rx, SCALE as int, 5 * ABS_LIMIT as int, SCALE as int);
    lemma_mul_bound(ry, SCALE as int, 5 * ABS_LIMIT as int, SCALE as int);
    lemma_tdiv_bounded(rx * SCALE, bounds.width as int, 5 * ABS_LIMIT as int * SCALE as int);
    lemma_tdiv_bounded(ry * SCALE, bounds.height as int, 5 * ABS_LIMIT as int * SCALE as int);
}

/// Map an absolute cursor position into the relative coordinate space the
/// shape's geometry is stored in, undoing the shape's current visual
/// rotation about the frame center.  Hit tests and drags must work in this
/// space whenever the shape is drawn rotated.
pub fn screen_to_shape_space(cursor: &Point, bounds: &Extent, rotation: &Rotation) -> (r: Point)
    requires
        cursor.in_abs_range(),
        bounds.wf(),
        rotation.wf(),
    ensures
        r == shape_space_point(*cursor, *bounds, *rotation),
        r.x == shape_space_x(*cursor, *bounds, *rotation),
        r.y == shape_space_y(*cursor, *bounds, *rotation),
{
    proof {
        lemma_tdiv_bounded(bounds.width as int, 2, ABS_LIMIT as int);
        lemma_tdiv_bounded(bounds.height as int, 2, ABS_LIMIT as int);
    }
    let center = Point { x: div_trunc(bounds.width, 2), y: div_trunc(bounds.height, 2) };
    let back = rotation.inverse();
    let rotated = rotate_point(cursor, &center, &back);
    proof {
        lemma_rot_in_bound(
            cursor.x as int,
            cursor.y as int,
            center.x as int,
            center.y as int,
            back.cos as int,
            back.sin as int,
            ABS_LIMIT as int,
        );
        lemma_mul_bound(rotated.x as int, SCALE as int, 5 * ABS_LIMIT as int, SCALE as int);
        lemma_mul_bound(rotated.y as int, SCALE as int, 5 * ABS_LIMIT as int, SCALE as int);
        lemma_tdiv_bounded(
            rotated.x * SCALE,
            bounds.width as int,
            5 * ABS_LIMIT as int * SCALE as int,
        );
        lemma_tdiv_bounded(
            rotated.y * SCALE,
            bounds.height as int,
            5 * ABS_LIMIT as int * SCALE as int,
        );
    }
    Point {
        x: div_trunc(rotated.x * SCALE, bounds.width),
        y: div_trunc(rotated.y * SCALE, bounds.height),
    }
}

/// Law: rotating by the zero angle moves no point.
pub proof fn lemma_rotate_by_zero(p: Point, c: Point, r: Rotation)
    requires
        r.cos == SCALE,
        r.sin == 0,
    ensures
        rotated_x(p, c, r) == p.x,
        rotated_y(p, c, r) == p.y,
{
    let s = SCALE as int;
    let dx = p.x - c.x;
    let dy = p.y - c.y;
    assert(dx * s - dy * 0 == dx * s) by (nonlinear_arith);
    assert(dx * 0 + dy * s == dy * s) by (nonlinear_arith);
    lemma_tdiv_exact(dx, s);
    lemma_tdiv_exact(dy, s);
}

/// Law: rotating the center about itself moves nothing, whatever the angle.
pub proof fn lemma_rotate_center_fixed(c: Point, r: Rotation)
    ensures
        rotated_x(c, c, r) == c.x,
        rotated_y(c, c, r) == c.y,
{
    let s = SCALE as int;
    assert(0 * r.cos as int == 0) by (nonlinear_arith);
    assert(0 * r.sin as int == 0) by (nonlinear_arith);
    lemma_tdiv_exact(0, s);
    assert(0 * s == 0) by (nonlinear_arith);
}

/// Multiplying out one matrix row: scaling the second rotation's row by the
/// divisor exposes the first rotation's unrounded row, less the rounding
/// error, each multiplied by one trigonometric component.
proof fn lemma_row_times_scale(u: int, v: int, a: int, b: int, s: int, e: int, f: int, n: int, m: int)
    requires
        u * s == n - e,
        v * s == m - f,
    ensures
        s * (u * a + v * b) == n * a - e * a + (m * b - f * b),
        s * (v * a - u * b) == m * a - f * a - (n * b - e * b),
{
    assert(s * (u * a + v * b) == (u * s) * a + (v * s) * b) by (nonlinear_arith);
    assert(s * (v * a - u * b) == (v * s) * a - (u * s) * b) by (nonlinear_arith);
    assert((n - e) * a == n * a - e * a) by (nonlinear_arith);
    assert((m - f) * b == m * b - f * b) by (nonlinear_arith);
    assert((m - f) * a == m * a - f * a) by (nonlinear_arith);
    assert((n - e) * b == n * b - e * b) by (nonlinear_arith);
}

/// Multiplying out the unrounded rows of the two opposite rotations: the
/// cross terms cancel and the squared circle radius remains.
proof fn lemma_rows_cancel(dx: int, dy: int, cos: int, sin: int, n: int, m: int)
    requires
        n == dx * cos - dy * sin,
        m == dx * sin + dy * cos,
    ensures
        n * cos + m * sin == dx * (cos * cos + sin * sin),
        m * cos - n * sin == dy * (cos * cos + sin * sin),
{
    assert((dx * cos - dy * sin) * cos == dx * (cos * cos) - dy * (sin * cos))
        by (nonlinear_arith);
    assert((dx * sin + dy * cos) * sin == dx * (sin * sin) + dy * (cos * sin))
        by (nonlinear_arith);
    assert((dx * sin + dy * cos) * cos == dx * (sin * cos) + dy * (cos * cos))
        by (nonlinear_arith);
    assert((dx * cos - dy * sin) * sin == dx * (cos * sin) - dy * (sin * sin))
        by (nonlinear_arith);
    assert(dy * (sin * cos) == dy * (cos * sin)) by (nonlinear_arith);
    assert(dx * (sin * cos) == dx * (cos * sin)) by (nonlinear_arith);
    assert(dx * (cos * cos) + dx * (sin * sin) == dx * (cos * cos + sin * sin))
        by (nonlinear_arith);
    assert(dy * (cos * cos) + dy * (sin * sin) == dy * (cos * cos + sin * sin))
        by (nonlinear_arith);
}

/// Law: rotating about a center and then rotating back by the opposite
/// angle returns to the starting point, up to the two scale divisions'
/// rounding and the cosine/sine pair's defect.  For a pair whose squared
/// length misses the squared circle radius by at most `slack`, and a point
/// whose offsets from the center stay within `spread`, each coordinate of
/// the round trip, scaled by the squared radius, lands strictly within
/// three squared radii plus `spread * slack` of where it started.
pub proof fn lemma_rotate_round_trip_rounded(
    p: Point,
    c: Point,
    r: Rotation,
    back: Rotation,
    mid: Point,
    slack: int,
    spread: int,
)
    requires
        r.wf(),
        back.cos == r.cos,
        back.sin == -r.sin,
        0 <= slack,
        0 <= spread,
        -slack <= r.cos * r.cos + r.sin * r.sin - SCALE * SCALE <= slack,
        -spread <= p.x - c.x <= spread,
        -spread <= p.y - c.y <= spread,
        mid.x == rotated_x(p, c, r),
        mid.y == rotated_y(p, c, r),
    ensures
        -(3 * ((SCALE * SCALE) as int) + spread * slack) < (rotated_x(mid, c, back) - p.x) * ((
        SCALE * SCALE) as int),
        (rotated_x(mid, c, back) - p.x) * ((SCALE * SCALE) as int) < 3 * ((SCALE * SCALE) as int)
            + spread * slack,
        -(3 * ((SCALE * SCALE) as int) + spread * slack) < (rotated_y(mid, c, back) - p.y) * ((
        SCALE * SCALE) as int),
        (rotated_y(mid, c, back) - p.y) * ((SCALE * SCALE) as int) < 3 * ((SCALE * SCALE) as int)
            + spread * slack,
{
    let s = SCALE as int;
    let cos = r.cos as int;
    let sin = r.sin as int;
    let delta = cos * cos + sin * sin - s * s;
    let dx = p.x - c.x;
    let dy = p.y - c.y;
    let nx = dx * cos - dy * sin;
    let ny = dx * sin + dy * cos;
    let qx = tdiv(nx, s);
    let qy = tdiv(ny, s);
    lemma_tdiv_remainder(nx, s);
    lemma_tdiv_remainder(ny, s);
    let e1 = nx - qx * s;
    let e2 = ny - qy * s;
    assert(mid.x - c.x == qx);
    assert(mid.y - c.y == qy);
    let n2x = qx * cos + qy * sin;
    let n2y = qy * cos - qx * sin;
    assert(qx * cos - qy * (-sin) == qx * cos + qy * sin) by (nonlinear_arith);
    assert(qx * (-sin) + qy * cos == qy * cos - qx * sin) by (nonlinear_arith);
    assert(rotated_x(mid, c, back) == c.x + tdiv(n2x, s));
    assert(rotated_y(mid, c, back) == c.y + tdiv(n2y, s));
    lemma_row_times_scale(qx, qy, cos, sin, s, e1, e2, nx, ny);
    lemma_rows_cancel(dx, dy, cos, sin, nx, ny);
    assert(s * n2x == dx * (cos * cos + sin * sin) - e1 * cos - e2 * sin);
    assert(s * n2y == dy * (cos * cos + sin * sin) + e1 * sin - e2 * cos);
    assert(dx * (cos * cos + sin * sin) == dx * (s * s) + dx * delta) by (nonlinear_arith)
        requires
            delta == cos * cos + sin * sin - s * s,
    ;
    assert(dy * (cos * cos + sin * sin) == dy * (s * s) + dy * delta) by (nonlinear_arith)
        requires
            delta == cos * cos + sin * sin - s * s,
    ;
    lemma_mul_bound(e1, cos, s - 1, s);
    lemma_mul_bound(e2, sin, s - 1, s);
    lemma_mul_bound(e1, sin, s - 1, s);
    lemma_mul_bound(e2, cos, s - 1, s);
    lemma_mul_bound(dx, delta, spread, slack);
    lemma_mul_bound(dy, delta, spread, slack);
    let q2x = tdiv(n2x, s);
    let q2y = tdiv(n2y, s);
    lemma_tdiv_remainder(n2x, s);
    lemma_tdiv_remainder(n2y, s);
    // s * n2x is within 2 * (s - 1) * s + spread * slack of dx * s * s, and
    // q2x * s is within s - 1 of n2x, so q2x * s * s is within
    // 3 * (s - 1) * s + spread * slack of dx * s * s.
    lemma_scaled_gap(
        q2x,
        dx,
        n2x,
        s,
        e1 * cos + e2 * sin - dx * delta,
        2 * ((s - 1) * s) + spread * slack,
    );
    lemma_scaled_gap(
        q2y,
        dy,
        n2y,
        s,
        e2 * cos - e1 * sin - dy * delta,
        2 * ((s - 1) * s) + spread * slack,
    );
}

/// Law: rotating about a center and then rotating back by the opposite
/// angle returns to the starting point, up to the rounding of the two
/// scale divisions: each coordinate of the round trip lands within two
/// fixed-point steps (two millionths of a unit) of where it started.
/// Holds for every point and center, and every rotation pair that lies
/// exactly on the unit circle.
pub proof fn lemma_rotate_round_trip(p: Point, c: Point, r: Rotation, back: Rotation, mid: Point)
    requires
        r.wf(),
        r.on_unit_circle(),
        back.cos == r.cos,
        back.sin == -r.sin,
        mid.x == rotated_x(p, c, r),
        mid.y == rotated_y(p, c, r),
    ensures
        -2 <= rotated_x(mid, c, back) - p.x <= 2,
        -2 <= rotated_y(mid, c, back) - p.y <= 2,
{
    let dx = p.x - c.x;
    let dy = p.y - c.y;
    let spread = if dx < 0 {
        -dx
    } else {
        dx
    } + if dy < 0 {
        -dy
    } else {
        dy
    };
    lemma_rotate_round_trip_rounded(p, c, r, back, mid, 0, spread);
    // With no slack the scaled gap is strictly under three squared radii,
    // so each coordinate's gap is at most two.
    let gap_x = rotated_x(mid, c, back) - p.x;
    let gap_y = rotated_y(mid, c, back) - p.y;
    assert(spread * 0 == 0) by (nonlinear_arith);
    assert(-2 <= gap_x <= 2) by (nonlinear_arith)
        requires
            -3 * ((SCALE * SCALE) as int) < gap_x * ((SCALE * SCALE) as int) < 3 * ((SCALE
                * SCALE) as int),
    ;
    assert(-2 <= gap_y <= 2) by (nonlinear_arith)
        requires
            -3 * ((SCALE * SCALE) as int) < gap_y * ((SCALE * SCALE) as int) < 3 * ((SCALE
                * SCALE) as int),
    ;
}

/// From the scaled equations back to the coordinates: if the second
/// division's input misses the scaled coordinate by at most `bound`, the
/// quotient times the squared divisor misses the coordinate times the same
/// factor by strictly less than a squared divisor more.
proof fn lemma_scaled_gap(q: int, d: int, n: int, s: int, err: int, bound: int)
    requires
        2 <= s,
        0 <= bound,
        n - (s - 1) <= q * s <= n + (s - 1),
        s * n == d * (s * s) - err,
        -bound <= err <= bound,
    ensures
        -((s - 1) * s + bound) <= (q - d) * (s * s) <= (s - 1) * s + bound,
        -(s * s + bound) < (q - d) * (s * s) < s * s + bound,
{
    let g = (s - 1) * s;
    assert((q * s) * s == q * (s * s)) by (nonlinear_arith);
    assert(n * s - g <= (q * s) * s <= n * s + g) by (nonlinear_arith)
        requires
            0 < s,
            g == (s - 1) * s,
            n - (s - 1) <= q * s <= n + (s - 1),
    ;
    assert(n * s == s * n) by (nonlinear_arith);
    assert(q * (s * s) - d * (s * s) == (q - d) * (s * s)) by (nonlinear_arith);
    assert((s - 1) * s < s * s) by (nonlinear_arith)
        requires
            2 <= s,
    ;
}

} // verus!
