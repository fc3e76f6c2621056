//! The one failure this library reports.

use vstd::prelude::*;
use crate::scalar::Scalar;

verus! {

/// Why a geographic point could not be projected onto a flat map.
#[derive(Debug, Clone, Copy, PartialEq, Eq, Structural)]
pub enum NotFlatError {
    /// The latitude, in degrees, whose projected ordinate came out
    /// non-finite: the point lies outside the projection's domain of
    /// validity, practically near a pole.
    InvalidLatitude(Scalar),
}

} // verus!
