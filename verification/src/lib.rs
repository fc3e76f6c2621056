//! Planar and geodesic geometry primitives: points, segments, polylines,
//! closed contours, an ellipsoidal datum, and the Web Mercator projection.
//!
//! Coordinates are double-precision floating-point values carried by their
//! IEEE-754 bit patterns (see [`scalar`]). The structure of every computation
//! — which point pairs form segments, how the shoelace sum is assembled and
//! shifted, when a projection fails — is stated in contracts and verified;
//! the floating-point operations themselves are performed by `libm` behind
//! trusted wrappers and named as opaque functions of the bits.

pub mod cartesian;
pub mod common;
pub mod datum;
pub mod error;
pub mod geo;
pub mod projection;
pub mod scalar;
pub mod segment;
