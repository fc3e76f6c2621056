//! Planar point capability sets and the distances they induce.
//!
//! A type is a planar point as soon as it exposes its two coordinates; the
//! squared Euclidean distance, the Euclidean distance and the taxicab
//! distance are then provided once, generically, and never reimplemented per
//! concrete representation. A coordinate pair and a two-element array are
//! given as ready-made representations.

use vstd::prelude::*;
use crate::scalar::{Scalar, add_bits, sub_bits, mul_bits, sqrt_bits, abs_bits};

verus! {

/// The squared Euclidean distance of two coordinate pairs:
/// `(x1-x2)*(x1-x2) + (y1-y2)*(y1-y2)`, each operation a double-precision
/// floating-point step on the bit patterns.
pub open spec fn distance_square_bits(x1: u64, y1: u64, x2: u64, y2: u64) -> u64 {
    add_bits(
        mul_bits(sub_bits(x1, x2), sub_bits(x1, x2)),
        mul_bits(sub_bits(y1, y2), sub_bits(y1, y2)),
    )
}

/// The Euclidean distance of two coordinate pairs: the square root of their
/// squared distance.
pub open spec fn distance_bits(x1: u64, y1: u64, x2: u64, y2: u64) -> u64 {
    sqrt_bits(distance_square_bits(x1, y1, x2, y2))
}

/// The taxicab distance of two coordinate pairs: `|x1-x2| + |y1-y2|`.
pub open spec fn taxicab_bits(x1: u64, y1: u64, x2: u64, y2: u64) -> u64 {
    add_bits(abs_bits(sub_bits(x1, x2)), abs_bits(sub_bits(y1, y2)))
}

/// A planar point: any value exposing an x and a y coordinate.
pub trait CartesianPoint2: Sized + Copy {
    /// The bit pattern of the x coordinate.
    spec fn sx(&self) -> u64;

    /// The bit pattern of the y coordinate.
    spec fn sy(&self) -> u64;

    /// The x coordinate.
    fn x(&self) -> (r: Scalar)
        ensures
            r.bits == self.sx(),
    ;

    /// The y coordinate.
    fn y(&self) -> (r: Scalar)
        ensures
            r.bits == self.sy(),
    ;

    /// The squared Euclidean distance to `other`.
    fn distance_square(&self, other: &Self) -> (r: Scalar)
        ensures
            r.bits == distance_square_bits(self.sx(), self.sy(), other.sx(), other.sy()),
    {
        let dx = self.x().minus(other.x());
        let dy = self.y().minus(other.y());
        dx.times(dx).plus(dy.times(dy))
    }

    /// The Euclidean distance to `other`.
    fn distance(&self, other: &Self) -> (r: Scalar)
        ensures
            r.bits == distance_bits(self.sx(), self.sy(), other.sx(), other.sy()),
    {
        self.distance_square(other).sqrt()
    }
}

/// A point with a taxicab distance; every planar point gains it through the
/// blanket implementation below.
pub trait CartesianPoint: Sized {
    /// The bit pattern of the taxicab distance to `other`.
    spec fn taxicab_spec(&self, other: &Self) -> u64;

    /// The taxicab distance to `other`.
    fn taxicab_distance(&self, other: &Self) -> (r: Scalar)
        ensures
            r.bits == self.taxicab_spec(other),
    ;
}

impl<P: CartesianPoint2> CartesianPoint for P {
    open spec fn taxicab_spec(&self, other: &Self) -> u64 {
        taxicab_bits(self.sx(), self.sy(), other.sx(), other.sy())
    }

    fn taxicab_distance(&self, other: &Self) -> (r: Scalar) {
        self.x().minus(other.x()).abs().plus(self.y().minus(other.y()).abs())
    }
}

/// A plain coordinate pair, the simplest planar point representation.
#[derive(Clone, Copy, Debug, PartialEq, Eq, Structural)]
pub struct PointXY {
    pub x: Scalar,
    pub y: Scalar,
}

impl CartesianPoint2 for PointXY {
    open spec fn sx(&self) -> u64 {
        self.x.bits
    }

    open spec fn sy(&self) -> u64 {
        self.y.bits
    }

    fn x(&self) -> (r: Scalar) {
        self.x
    }

    fn y(&self) -> (r: Scalar) {
        self.y
    }
}

impl CartesianPoint2 for [Scalar; 2] {
    open spec fn sx(&self) -> u64 {
        self[0].bits
    }

    open spec fn sy(&self) -> u64 {
        self[1].bits
    }

    fn x(&self) -> (r: Scalar) {
        self[0]
    }

    fn y(&self) -> (r: Scalar) {
        self[1]
    }
}

} // verus!
