//! The ordered point-sequence abstractions: an open polyline, a closed
//! contour, and the plain point capability they measure with.

pub mod contour;
pub mod point;
pub mod polyline;

pub use contour::Contour;
pub use contour::SurfaceContour;
pub use point::Point;
pub use polyline::Polyline;
