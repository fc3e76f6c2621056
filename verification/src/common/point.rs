//! The minimal point capability: a squared distance between two points of
//! the same kind, and the distance it induces.

use vstd::prelude::*;
use crate::scalar::{Scalar, sqrt_bits};
use crate::cartesian::{CartesianPoint2, PointXY, distance_square_bits};

verus! {

/// Any value with a squared distance to values of its own kind. The
/// Euclidean distance is provided once, as the square root of the squared
/// distance, whatever the representation.
pub trait Point: Sized {
    /// The bit pattern of the squared distance to `other`.
    spec fn distance_square_spec(&self, other: &Self) -> u64;

    /// The squared distance to `other`.
    fn distance_square(&self, other: &Self) -> (r: Scalar)
        ensures
            r.bits == self.distance_square_spec(other),
    ;

    /// The distance to `other`: the square root of the squared distance.
    fn distance(&self, other: &Self) -> (r: Scalar)
        ensures
            r.bits == sqrt_bits(self.distance_square_spec(other)),
    {
        self.distance_square(other).sqrt()
    }
}

impl Point for PointXY {
    open spec fn distance_square_spec(&self, other: &Self) -> u64 {
        distance_square_bits(self.sx(), self.sy(), other.sx(), other.sy())
    }

    fn distance_square(&self, other: &Self) -> (r: Scalar) {
        CartesianPoint2::distance_square(self, other)
    }
}

} // verus!
