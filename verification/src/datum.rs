//! An ellipsoidal earth model and the geodesic distance it induces.

use vstd::prelude::*;
use crate::scalar::Scalar;
use crate::geo::GeoPoint;

verus! {

#[verifier::external_type_specification]
#[verifier::external_body]
pub struct ExGeodesic(geographiclib_rs::Geodesic);

/// The geodesic distance, in meters, between two latitude/longitude pairs
/// (degrees) on the ellipsoid with semi-major axis `a` and flattening `f`,
/// as geographiclib's inverse solver computes it — every argument and the
/// result carried as a double-precision bit pattern, the result a function
/// of the six bit patterns alone.
pub uninterp spec fn geodesic_distance_bits(
    a: u64,
    f: u64,
    lat1: u64,
    lon1: u64,
    lat2: u64,
    lon2: u64,
) -> u64;

/// Bit pattern of the WGS84 semi-major axis, 6378137 meters.
pub const WGS84_A_BITS: u64 = 0x4158_54A6_4000_0000;
/// Bit pattern of the WGS84 flattening, one over 298.257223563.
pub const WGS84_F_BITS: u64 = 0x3F6B_775A_84F3_E128;

/// An ellipsoid model with a prepared inverse-geodesic solver.
///
/// The defining constants are stored beside the solver. The only way to
/// obtain a `Datum` is [`Datum::new`], which hands exactly those constants to
/// the solver; the contract of the trusted call inside [`Datum::distance`]
/// relies on that coupling.
pub struct Datum {
    geodesic: geographiclib_rs::Geodesic,
    a_bits: u64,
    inv_f_bits: u64,
}

impl Datum {
    /// Bit pattern of the semi-major axis, meters.
    pub closed spec fn spec_a(&self) -> u64 {
        self.a_bits
    }

    /// Bit pattern of the flattening handed to the solver at construction.
    pub closed spec fn spec_inv_f(&self) -> u64 {
        self.inv_f_bits
    }
}

/// Relies on `geographiclib_rs::Geodesic::new`: prepares an inverse-geodesic
/// solver for the ellipsoid with the given semi-major axis and flattening,
/// both given as double bit patterns.
#[verifier::external_body]
fn geodesic_new(a: u64, f: u64) -> geographiclib_rs::Geodesic {
    geographiclib_rs::Geodesic::new(bytemuck::cast(a), bytemuck::cast(f))
}

/// Relies on `geographiclib_rs::Geodesic::_gen_inverse_azi` with the
/// `DISTANCE` capability, whose second output is `s12`, the geodesic distance
/// in meters — the very value the crate's `InverseGeodesic<f64>`
/// implementation returns. The solver a `Datum` holds is the one its
/// constructor built from the stored constants, so the distance is a
/// function of those bits and the two coordinate pairs.
#[verifier::external_body]
fn datum_inverse(d: &Datum, lat1: u64, lon1: u64, lat2: u64, lon2: u64) -> (r: u64)
    ensures
        r == geodesic_distance_bits(d.spec_a(), d.spec_inv_f(), lat1, lon1, lat2, lon2),
{
    let out = d.geodesic._gen_inverse_azi(
        bytemuck::cast(lat1),
        bytemuck::cast(lon1),
        bytemuck::cast(lat2),
        bytemuck::cast(lon2),
        geographiclib_rs::capability::DISTANCE,
    );
    bytemuck::cast(out.1)
}

impl Datum {
    /// A datum for the ellipsoid with the given semi-major axis (meters) and
    /// flattening, handed to the solver unchanged.
    pub fn new(a: Scalar, inv_f: Scalar) -> (d: Datum)
        ensures
            d.spec_a() == a.bits,
            d.spec_inv_f() == inv_f.bits,
    {
        Datum { geodesic: geodesic_new(a.bits, inv_f.bits), a_bits: a.bits, inv_f_bits: inv_f.bits }
    }

    /// The semi-major axis, meters.
    pub fn a(&self) -> (r: Scalar)
        ensures
            r.bits == self.spec_a(),
    {
        Scalar::from_bits(self.a_bits)
    }

    /// The flattening constant the datum was built with.
    pub fn inv_f(&self) -> (r: Scalar)
        ensures
            r.bits == self.spec_inv_f(),
    {
        Scalar::from_bits(self.inv_f_bits)
    }

    /// The geodesic distance in meters between two latitude/longitude pairs,
    /// in degrees, measured along this datum's ellipsoid by the inverse
    /// solver.
    pub fn distance_latlon(&self, lat1: Scalar, lon1: Scalar, lat2: Scalar, lon2: Scalar) -> (r:
        Scalar)
        ensures
            r.bits == geodesic_distance_bits(
                self.spec_a(),
                self.spec_inv_f(),
                lat1.bits,
                lon1.bits,
                lat2.bits,
                lon2.bits,
            ),
    {
        Scalar::from_bits(datum_inverse(self, lat1.bits, lon1.bits, lat2.bits, lon2.bits))
    }

    /// The geodesic distance in meters between two geographic points,
    /// measured along this datum's ellipsoid by the inverse solver.
    pub fn distance<P: GeoPoint>(&self, p1: &P, p2: &P) -> (r: Scalar)
        ensures
            r.bits == geodesic_distance_bits(
                self.spec_a(),
                self.spec_inv_f(),
                p1.slat(),
                p1.slon(),
                p2.slat(),
                p2.slon(),
            ),
    {
        self.distance_latlon(p1.lat(), p1.lon(), p2.lat(), p2.lon())
    }

    /// The standard WGS84 datum. Every call yields a freshly prepared,
    /// immutable value with the same defining constants.
    pub fn wgs84() -> (d: Datum)
        ensures
            d.spec_a() == WGS84_A_BITS,
            d.spec_inv_f() == WGS84_F_BITS,
    {
        Datum::new(Scalar::from_bits(WGS84_A_BITS), Scalar::from_bits(WGS84_F_BITS))
    }
}

} // verus!
