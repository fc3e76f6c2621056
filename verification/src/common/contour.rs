//! Closed ordered point sequences: perimeter and shoelace area.

use vstd::prelude::*;
use crate::scalar::{Scalar, ZERO_BITS, add_bits, abs_bits, half_bits, neg_bits};
use crate::cartesian::CartesianPoint2;
use crate::segment::{Segments, segment_count, segment_end_index, determinant_shifted_bits};
use crate::common::polyline::{length_bits, summed_length};

verus! {

/// The shoelace sum over the first `k` closed segments of a point sequence,
/// every vertex first translated by `(dx, dy)`: a left fold of floating-point
/// addition, starting at positive zero, over the shifted determinant of each
/// segment in order.
pub open spec fn shoelace_upto<P: CartesianPoint2>(pts: Seq<P>, dx: u64, dy: u64, k: int) -> u64
    decreases k,
{
    if k <= 0 {
        ZERO_BITS
    } else {
        add_bits(
            shoelace_upto(pts, dx, dy, k - 1),
            determinant_shifted_bits(
                pts[k - 1].sx(),
                pts[k - 1].sy(),
                pts[segment_end_index(pts.len() as int, k - 1, true)].sx(),
                pts[segment_end_index(pts.len() as int, k - 1, true)].sy(),
                dx,
                dy,
            ),
        )
    }
}

/// The unsigned area of a contour: positive zero for fewer than three
/// points; otherwise half the magnitude of the shoelace sum over every
/// closed segment, the whole contour first translated so that its first
/// vertex sits at the origin. The translation keeps the products small for
/// far-away contours; for a self-intersecting contour the sum is the
/// clockwise parts less the counter-clockwise parts, not a geometric area.
pub open spec fn area_bits<P: CartesianPoint2>(pts: Seq<P>) -> u64 {
    if pts.len() < 3 {
        ZERO_BITS
    } else {
        half_bits(
            abs_bits(
                shoelace_upto(pts, neg_bits(pts[0].sx()), neg_bits(pts[0].sy()), pts.len() as int),
            ),
        )
    }
}

/// A closed ordered point sequence: `n` points make `n` segments for
/// `n >= 1`, the last one connecting the final point back to the first.
pub trait Contour<P: CartesianPoint2>: Sized {
    /// The points of the contour, in stored order, the closing edge implicit.
    spec fn pts(&self) -> Seq<P>;

    /// The number of vertices; the implicit closing point is not counted.
    fn points_count(&self) -> (n: usize)
        ensures
            n == self.pts().len(),
    ;

    /// The stored points, in order, without the closing duplicate.
    fn points(&self) -> (v: &Vec<P>)
        ensures
            v@ == self.pts(),
    ;

    /// The stored points with the first one appended again at the end,
    /// making the ring explicit: `n + 1` points for `n >= 1`, none for an
    /// empty contour.
    fn points_closed(&self) -> (v: Vec<P>)
        ensures
            self.pts().len() == 0 ==> v@ == self.pts(),
            self.pts().len() >= 1 ==> v@ == self.pts().push(self.pts()[0]),
    {
        let src = self.points();
        let mut out: Vec<P> = Vec::new();
        let mut i: usize = 0;
        while i < src.len()
            invariant
                i <= src.len(),
                out@ == src@.subrange(0, i as int),
            decreases src.len() - i,
        {
            out.push(src[i]);
            i = i + 1;
        }
        proof {
            assert(out@ == src@.subrange(0, src@.len() as int));
            assert(src@.subrange(0, src@.len() as int) == src@);
        }
        if src.len() > 0 {
            let first = src[0];
            out.push(first);
        }
        out
    }

    /// A fresh closed pass over the segments: each adjacent pair and one
    /// final segment from the last point back to the first.
    fn segments<'a>(&'a self) -> (s: Segments<'a, P>)
        ensures
            s.points@ == self.pts(),
            s.index == 0,
            s.closed,
    {
        Segments::new_closed(self.points())
    }

    /// The perimeter: the sum of the lengths of the closed segments.
    fn length(&self) -> (r: Scalar)
        ensures
            r.bits == length_bits(self.pts(), true),
    {
        let mut segs = self.segments();
        summed_length(&mut segs)
    }
}

/// A contour that encloses a surface and can report its area.
pub trait SurfaceContour<P: CartesianPoint2>: Contour<P> {
    /// The unsigned area enclosed by the contour: zero for fewer than three
    /// points, otherwise half the magnitude of the shifted shoelace sum (see
    /// [`area_bits`]). Assumes a simple contour; for a self-intersecting one
    /// the clockwise and counter-clockwise parts cancel.
    fn area(&self) -> (r: Scalar)
        ensures
            r.bits == area_bits(self.pts()),
            self.pts().len() < 3 ==> r.bits == ZERO_BITS,
    {
        let pts = self.points();
        if pts.len() < 3 {
            return Scalar::zero();
        }
        let dx = pts[0].x().neg();
        let dy = pts[0].y().neg();
        let mut segs = self.segments();
        let mut acc = Scalar::zero();
        loop
            invariant
                segs.points@ == self.pts(),
                segs.closed,
                segs.index as nat <= segment_count(segs.points@.len(), true),
                self.pts().len() >= 3,
                dx.bits == neg_bits(self.pts()[0].sx()),
                dy.bits == neg_bits(self.pts()[0].sy()),
                acc.bits == shoelace_upto(segs.points@, dx.bits, dy.bits, segs.index as int),
            ensures
                acc.bits == shoelace_upto(
                    self.pts(),
                    dx.bits,
                    dy.bits,
                    self.pts().len() as int,
                ),
            decreases segment_count(segs.points@.len(), true) - segs.index as nat,
        {
            match segs.next() {
                Some(seg) => {
                    acc = acc.plus(seg.determinant_shifted(dx, dy));
                },
                None => {
                    break ;
                },
            }
        }
        acc.abs().half()
    }
}

impl<P: CartesianPoint2> Contour<P> for Vec<P> {
    open spec fn pts(&self) -> Seq<P> {
        self@
    }

    fn points_count(&self) -> usize {
        self.len()
    }

    fn points(&self) -> &Vec<P> {
        self
    }
}

impl<P: CartesianPoint2> SurfaceContour<P> for Vec<P> {

}

} // verus!
