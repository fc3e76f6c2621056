//! Geographic points: the latitude/longitude capability and a plain WGS84
//! point.

use vstd::prelude::*;
use crate::scalar::Scalar;
use crate::datum::{Datum, WGS84_A_BITS, WGS84_F_BITS, geodesic_distance_bits};

verus! {

/// A geographic point: latitude and longitude in degrees, measured on the
/// datum its whole type is associated with.
pub trait GeoPoint: Sized {
    /// The defining constants — semi-major axis and flattening bit patterns —
    /// of the datum every point of this type measures on.
    spec fn spec_datum() -> (u64, u64);

    /// The bit pattern of the latitude, degrees.
    spec fn slat(&self) -> u64;

    /// The bit pattern of the longitude, degrees.
    spec fn slon(&self) -> u64;

    /// The datum points of this type measure on.
    fn datum() -> (d: Datum)
        ensures
            d.spec_a() == Self::spec_datum().0,
            d.spec_inv_f() == Self::spec_datum().1,
    ;

    /// Latitude in degrees. Expected within [-90, 90]; an out-of-range value
    /// is not rejected here and propagates into whatever is computed from it.
    fn lat(&self) -> (r: Scalar)
        ensures
            r.bits == self.slat(),
    ;

    /// Longitude in degrees, unconstrained.
    fn lon(&self) -> (r: Scalar)
        ensures
            r.bits == self.slon(),
    ;

    /// The geodesic distance to `other`, in meters, on this type's datum.
    fn distance(&self, other: &Self) -> (r: Scalar)
        ensures
            r.bits == geodesic_distance_bits(
                Self::spec_datum().0,
                Self::spec_datum().1,
                self.slat(),
                self.slon(),
                other.slat(),
                other.slon(),
            ),
    {
        let datum = Self::datum();
        datum.distance_latlon(self.lat(), self.lon(), other.lat(), other.lon())
    }
}

/// A plain latitude/longitude pair, in degrees, measuring on WGS84. The
/// fields are exposed so that contracts can speak of the coordinates.
#[derive(Debug, Clone, Copy, PartialEq, Eq, Structural)]
pub struct Wgs84Point {
    pub lat: Scalar,
    pub lon: Scalar,
}

impl Wgs84Point {
    /// A point from latitude and longitude, in that order.
    pub fn latlon(lat: Scalar, lon: Scalar) -> (p: Wgs84Point)
        ensures
            p.lat == lat,
            p.lon == lon,
    {
        Wgs84Point { lat, lon }
    }

    /// A point from longitude and latitude, in that order.
    pub fn lonlat(lon: Scalar, lat: Scalar) -> (p: Wgs84Point)
        ensures
            p.lat == lat,
            p.lon == lon,
    {
        Wgs84Point { lat, lon }
    }
}

impl GeoPoint for Wgs84Point {
    open spec fn spec_datum() -> (u64, u64) {
        (WGS84_A_BITS, WGS84_F_BITS)
    }

    open spec fn slat(&self) -> u64 {
        self.lat.bits
    }

    open spec fn slon(&self) -> u64 {
        self.lon.bits
    }

    fn datum() -> (d: Datum) {
        Datum::wgs84()
    }

    fn lat(&self) -> (r: Scalar) {
        self.lat
    }

    fn lon(&self) -> (r: Scalar) {
        self.lon
    }
}

} // verus!
