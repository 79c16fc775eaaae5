//! A verified planar-geometry kernel and the mouse-interaction state machines
//! of a small set of canvas drawing demos.
//!
//! All coordinates, widths and scale factors are fixed-point numbers: an
//! `i64` counts steps of `1 / scalar::SCALE` of a unit.  A shape stores its
//! geometry in relative units (fractions of the frame extent); rendering
//! converts to absolute pixel units.  Rotations are carried as fixed-point
//! cosine/sine pairs, so that every function here is exact integer
//! arithmetic with a contract, while the host computes the trigonometry.

pub mod event;
pub mod geometry;
pub mod line_shape;
pub mod panzoom;
pub mod rect_shape;
pub mod render;
pub mod scene;
pub mod scalar;

pub use scalar::ABS_LIMIT;
pub use scalar::COORD_LIMIT;
pub use scalar::REL_LIMIT;
pub use scalar::SCALE;

pub use geometry::Extent;
pub use geometry::Point;
pub use geometry::Rect;
pub use geometry::Rotation;
pub use geometry::is_point_on_horizontal_line;
pub use geometry::is_point_on_line_corner;
pub use geometry::rel_to_abs_pt;
pub use geometry::rel_to_abs_rct;
pub use geometry::rotate_line;
pub use geometry::rotate_point;
pub use geometry::rotate_rectangle;
pub use geometry::rotate_rectangle_corners_at_center;
pub use geometry::screen_to_shape_space;
