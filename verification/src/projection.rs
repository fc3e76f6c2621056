//! Map projections: from geographic points to planar points, failing on
//! points outside the projection's domain; Web Mercator is the one concrete
//! projection.

use vstd::prelude::*;
use crate::scalar::{Scalar, add_bits, mul_bits, half_bits, tan_bits, ln_bits, is_finite_bits};
use crate::cartesian::{CartesianPoint2, PointXY};
use crate::geo::GeoPoint;
use crate::error::NotFlatError;

verus! {

/// Bit pattern of a quarter of π.
pub const FRAC_PI_4_BITS: u64 = 0x3FE9_21FB_5444_2D18;

/// Bit pattern of π over 180, the radians in one degree; one multiplication
/// by it is exactly the standard degrees-to-radians conversion.
pub const RAD_PER_DEG_BITS: u64 = 0x3F91_DF46_A252_9D39;

/// Degrees to radians: one multiplication by π/180.
pub open spec fn to_radians_bits(deg: u64) -> u64 {
    mul_bits(deg, RAD_PER_DEG_BITS)
}

/// The Web Mercator abscissa of a longitude (degrees) on the ellipsoid with
/// semi-major axis `a`: the longitude in radians, scaled by `a`.
pub open spec fn mercator_x_bits(a: u64, lon: u64) -> u64 {
    mul_bits(a, to_radians_bits(lon))
}

/// The Web Mercator ordinate of a latitude (degrees) on the ellipsoid with
/// semi-major axis `a`: `a * ln(tan(π/4 + lat_radians / 2))`. The tangent
/// term diverges as the latitude nears ±90 degrees, where the ordinate stops
/// being finite.
pub open spec fn mercator_y_bits(a: u64, lat: u64) -> u64 {
    mul_bits(a, ln_bits(tan_bits(add_bits(FRAC_PI_4_BITS, half_bits(to_radians_bits(lat))))))
}

/// A planar point that can be built from an x/y coordinate pair: the target
/// capability of a projection.
pub trait FromXy: CartesianPoint2 {
    /// The point with the given coordinate bit patterns.
    spec fn spec_from_xy(x: u64, y: u64) -> Self;

    /// The point with the given coordinates.
    fn from_xy(x: Scalar, y: Scalar) -> (p: Self)
        ensures
            p == Self::spec_from_xy(x.bits, y.bits),
            p.sx() == x.bits,
            p.sy() == y.bits,
    ;
}

impl FromXy for PointXY {
    open spec fn spec_from_xy(x: u64, y: u64) -> PointXY {
        PointXY { x: Scalar { bits: x }, y: Scalar { bits: y } }
    }

    fn from_xy(x: Scalar, y: Scalar) -> (p: PointXY) {
        PointXY { x, y }
    }
}

/// A transform from one point kind to another, stateless and total except on
/// points outside its domain of validity, where it reports why it failed.
pub trait Projection<PFrom, PTo>: Sized {
    /// Whether the projection is defined at `p`.
    spec fn projects(&self, p: PFrom) -> bool;

    /// The projected point, where the projection is defined.
    spec fn projected(&self, p: PFrom) -> PTo;

    /// The error reported at a point where the projection is undefined.
    spec fn rejection(&self, p: PFrom) -> NotFlatError;

    /// The projected point, or the error naming what made `point`
    /// unprojectable: success exactly on the points the projection is
    /// defined at.
    fn project(&self, point: &PFrom) -> (r: Result<PTo, NotFlatError>)
        ensures
            self.projects(*point) ==> r == Ok::<PTo, NotFlatError>(self.projected(*point)),
            !self.projects(*point) ==> r == Err::<PTo, NotFlatError>(self.rejection(*point)),
    ;

    /// Projects every point of a line, all or nothing: either every point in
    /// order, or the rejection of the first unprojectable point with no
    /// partial result.
    fn project_line(&self, line: &Vec<PFrom>) -> (r: Result<Vec<PTo>, NotFlatError>)
        ensures
            match r {
                Ok(v) => v@.len() == line@.len() && (forall|i: int|
                    0 <= i < line@.len() ==> self.projects(#[trigger] line@[i]) && v@[i]
                        == self.projected(line@[i])),
                Err(e) => exists|i: int|
                    0 <= i < line@.len() && !self.projects(#[trigger] line@[i]) && e
                        == self.rejection(line@[i]) && (forall|j: int|
                        0 <= j < i ==> self.projects(#[trigger] line@[j])),
            },
    {
        let mut out: Vec<PTo> = Vec::new();
        let mut i: usize = 0;
        while i < line.len()
            invariant
                i <= line@.len(),
                out@.len() == i,
                forall|k: int|
                    0 <= k < i ==> self.projects(#[trigger] line@[k]) && out@[k]
                        == self.projected(line@[k]),
            decreases line@.len() - i,
        {
            match self.project(&line[i]) {
                Ok(p) => {
                    out.push(p);
                },
                Err(e) => {
                    return Err(e);
                },
            }
            i = i + 1;
        }
        Ok(out)
    }
}

/// The Web Mercator direct projection: maps a geographic point to the plane
/// of a conformal cylindrical map, and fails on points whose ordinate is not
/// finite — as the latitude approaches ±90 degrees, the poles cannot be
/// drawn.
pub struct WebMercator {}

impl<PFrom: GeoPoint, PTo: FromXy> Projection<PFrom, PTo> for WebMercator {
    open spec fn projects(&self, p: PFrom) -> bool {
        is_finite_bits(mercator_y_bits(PFrom::spec_datum().0, p.slat()))
    }

    open spec fn projected(&self, p: PFrom) -> PTo {
        PTo::spec_from_xy(
            mercator_x_bits(PFrom::spec_datum().0, p.slon()),
            mercator_y_bits(PFrom::spec_datum().0, p.slat()),
        )
    }

    open spec fn rejection(&self, p: PFrom) -> NotFlatError {
        NotFlatError::InvalidLatitude(Scalar { bits: p.slat() })
    }

    fn project(&self, point: &PFrom) -> (r: Result<PTo, NotFlatError>) {
        let lon = point.lon().times(Scalar::from_bits(RAD_PER_DEG_BITS));
        let lat = point.lat().times(Scalar::from_bits(RAD_PER_DEG_BITS));
        let datum = PFrom::datum();
        let a = datum.a();
        let x = a.times(lon);
        let y = a.times(Scalar::from_bits(FRAC_PI_4_BITS).plus(lat.half()).tan().ln());
        if y.is_finite() {
            Ok(PTo::from_xy(x, y))
        } else {
            Err(NotFlatError::InvalidLatitude(point.lat()))
        }
    }
}

} // verus!
