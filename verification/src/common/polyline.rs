//! Open ordered point sequences and their summed segment length.

use vstd::prelude::*;
use crate::scalar::{Scalar, ZERO_BITS, add_bits};
use crate::cartesian::{CartesianPoint2, distance_bits};
use crate::segment::{Segments, segment_count, segment_end_index};

verus! {

/// The summed length of the first `k` segments of a point sequence: a left
/// fold of floating-point addition, starting at positive zero, over the
/// Euclidean length of each segment in order.
pub open spec fn length_upto<P: CartesianPoint2>(pts: Seq<P>, k: int, closed: bool) -> u64
    decreases k,
{
    if k <= 0 {
        ZERO_BITS
    } else {
        add_bits(
            length_upto(pts, k - 1, closed),
            distance_bits(
                pts[k - 1].sx(),
                pts[k - 1].sy(),
                pts[segment_end_index(pts.len() as int, k - 1, closed)].sx(),
                pts[segment_end_index(pts.len() as int, k - 1, closed)].sy(),
            ),
        )
    }
}

/// The length of a point sequence: the summed length of all its segments,
/// positive zero when it has none.
pub open spec fn length_bits<P: CartesianPoint2>(pts: Seq<P>, closed: bool) -> u64 {
    length_upto(pts, segment_count(pts.len(), closed) as int, closed)
}

/// The summed length of every segment of a pass, in order.
pub fn summed_length<P: CartesianPoint2>(segs: &mut Segments<'_, P>) -> (r: Scalar)
    requires
        old(segs).index == 0,
    ensures
        r.bits == length_bits(old(segs).points@, old(segs).closed),
{
    let mut acc = Scalar::zero();
    loop
        invariant
            segs.points@ == old(segs).points@,
            segs.closed == old(segs).closed,
            segs.index as nat <= segment_count(segs.points@.len(), segs.closed),
            acc.bits == length_upto(segs.points@, segs.index as int, segs.closed),
        ensures
            acc.bits == length_bits(old(segs).points@, old(segs).closed),
        decreases segment_count(segs.points@.len(), segs.closed) - segs.index as nat,
    {
        match segs.next() {
            Some(seg) => {
                acc = acc.plus(seg.length());
            },
            None => {
                break ;
            },
        }
    }
    acc
}

/// An open ordered point sequence: `n` points make `max(n-1, 0)` segments,
/// with no edge from the last point back to the first.
pub trait Polyline<P: CartesianPoint2>: Sized {
    /// The points of the sequence, in stored order.
    spec fn pts(&self) -> Seq<P>;

    /// The number of vertices.
    fn points_count(&self) -> (n: usize)
        ensures
            n == self.pts().len(),
    ;

    /// The stored points, in order.
    fn points(&self) -> (v: &Vec<P>)
        ensures
            v@ == self.pts(),
    ;

    /// A fresh open pass over the segments; every call starts over at the
    /// first segment.
    fn segments<'a>(&'a self) -> (s: Segments<'a, P>)
        ensures
            s.points@ == self.pts(),
            s.index == 0,
            !s.closed,
    {
        Segments::new(self.points())
    }

    /// The length: the sum of the lengths of the segments, zero when there
    /// are fewer than two points.
    fn length(&self) -> (r: Scalar)
        ensures
            r.bits == length_bits(self.pts(), false),
    {
        let mut segs = self.segments();
        summed_length(&mut segs)
    }
}

impl<P: CartesianPoint2> Polyline<P> for Vec<P> {
    open spec fn pts(&self) -> Seq<P> {
        self@
    }

    fn points_count(&self) -> usize {
        self.len()
    }

    fn points(&self) -> &Vec<P> {
        self
    }
}

} // verus!
