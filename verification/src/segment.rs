//! Segments: transient, non-owning pairings of two adjacent points.
//!
//! A [`Segment`] borrows its endpoints from the sequence they belong to and
//! is valid only while that sequence is. [`Segments`] walks a point sequence
//! and yields each adjacent pair in order, either openly (no pairing of the
//! last point with the first) or closed (one final segment back to the first
//! point).

use vstd::prelude::*;
use crate::scalar::{Scalar, add_bits, sub_bits, mul_bits};
use crate::cartesian::{CartesianPoint2, distance_bits};

verus! {

/// The determinant `x1*y2 - y1*x2` of two coordinate pairs: twice the signed
/// area of the triangle they span with the origin.
pub open spec fn determinant_bits(x1: u64, y1: u64, x2: u64, y2: u64) -> u64 {
    sub_bits(mul_bits(x1, y2), mul_bits(y1, x2))
}

/// The determinant of two coordinate pairs after both are translated by
/// `(dx, dy)`: `(x1+dx)*(y2+dy) - (x2+dx)*(y1+dy)`.
pub open spec fn determinant_shifted_bits(
    x1: u64,
    y1: u64,
    x2: u64,
    y2: u64,
    dx: u64,
    dy: u64,
) -> u64 {
    sub_bits(
        mul_bits(add_bits(x1, dx), add_bits(y2, dy)),
        mul_bits(add_bits(x2, dx), add_bits(y1, dy)),
    )
}

/// How many segments a sequence of `n` points yields: one per adjacent pair
/// when open, one per point (the last pairs with the first) when closed.
pub open spec fn segment_count(n: nat, closed: bool) -> nat {
    if closed {
        n
    } else if n > 0 {
        (n - 1) as nat
    } else {
        0
    }
}

/// The index of the point that ends segment `i` of a sequence of `n` points:
/// the next point, except that the last closed segment ends at the first.
pub open spec fn segment_end_index(n: int, i: int, closed: bool) -> int {
    if closed && i + 1 == n {
        0
    } else {
        i + 1
    }
}

/// A segment sequence over `n` points yields `max(n-1, 0)` segments when
/// open; when closed it yields `n` segments for `n >= 1` and none otherwise.
pub proof fn lemma_segment_count(n: nat)
    ensures
        segment_count(n, false) == if n > 0 { (n - 1) as nat } else { 0nat },
        n >= 1 ==> segment_count(n, true) == n,
        segment_count(0, true) == 0,
{
}

/// A non-owning pairing of two adjacent points, borrowed from their sequence.
/// The fields are exposed so that contracts can speak of the endpoints.
pub struct Segment<'a, P> {
    pub start: &'a P,
    pub end: &'a P,
}

impl<'a, P> Segment<'a, P> {
    /// The first endpoint.
    pub fn start(&self) -> (r: &'a P)
        ensures
            r == self.start,
    {
        self.start
    }

    /// The second endpoint.
    pub fn end(&self) -> (r: &'a P)
        ensures
            r == self.end,
    {
        self.end
    }
}

impl<'a, P: CartesianPoint2> Segment<'a, P> {
    /// The Euclidean distance between the endpoints.
    pub fn length(&self) -> (r: Scalar)
        ensures
            r.bits == distance_bits(self.start.sx(), self.start.sy(), self.end.sx(), self.end.sy()),
    {
        self.start.distance(self.end)
    }

    /// The determinant of the endpoints: `x1*y2 - y1*x2`.
    pub fn determinant(&self) -> (r: Scalar)
        ensures
            r.bits == determinant_bits(self.start.sx(), self.start.sy(), self.end.sx(), self.end.sy()),
    {
        self.start.x().times(self.end.y()).minus(self.start.y().times(self.end.x()))
    }

    /// The determinant of the endpoints translated by `(dx, dy)` before
    /// multiplying; translating a whole contour towards the origin keeps the
    /// products small and the shoelace sum numerically stable.
    pub fn determinant_shifted(&self, dx: Scalar, dy: Scalar) -> (r: Scalar)
        ensures
            r.bits == determinant_shifted_bits(
                self.start.sx(),
                self.start.sy(),
                self.end.sx(),
                self.end.sy(),
                dx.bits,
                dy.bits,
            ),
    {
        let x1 = self.start.x().plus(dx);
        let y1 = self.start.y().plus(dy);
        let x2 = self.end.x().plus(dx);
        let y2 = self.end.y().plus(dy);
        x1.times(y2).minus(x2.times(y1))
    }
}

/// A single-pass producer of the segments of a point sequence. A fresh value
/// starts at the first segment; each call to [`Segments::next`] yields one
/// segment and advances. The fields are exposed so that contracts can speak
/// of the position of the pass.
pub struct Segments<'a, P> {
    /// The underlying point sequence.
    pub points: &'a Vec<P>,
    /// The index of the segment the next call yields.
    pub index: usize,
    /// Whether the last point is paired back with the first.
    pub closed: bool,
}

impl<'a, P> Segments<'a, P> {
    /// A fresh open pass: adjacent pairs only, `max(n-1, 0)` segments in all.
    pub fn new(points: &'a Vec<P>) -> (s: Self)
        ensures
            s.points == points,
            s.index == 0,
            !s.closed,
    {
        Segments { points, index: 0, closed: false }
    }

    /// A fresh closed pass: adjacent pairs plus one final segment from the
    /// last point back to the first, `n` segments in all for `n >= 1`.
    pub fn new_closed(points: &'a Vec<P>) -> (s: Self)
        ensures
            s.points == points,
            s.index == 0,
            s.closed,
    {
        Segments { points, index: 0, closed: true }
    }

    /// The next segment of the pass, or `None` once every segment has been
    /// yielded.
    pub fn next(&mut self) -> (r: Option<Segment<'a, P>>)
        ensures
            final(self).points == old(self).points,
            final(self).closed == old(self).closed,
            (old(self).index as nat) < segment_count(old(self).points@.len(), old(self).closed)
                ==> {
                &&& final(self).index == old(self).index + 1
                &&& r matches Some(s) && *s.start == old(self).points@[old(self).index as int]
                    && *s.end == old(self).points@[segment_end_index(
                    old(self).points@.len() as int,
                    old(self).index as int,
                    old(self).closed,
                )]
            },
            (old(self).index as nat) >= segment_count(old(self).points@.len(), old(self).closed)
                ==> r is None && *final(self) == *old(self),
    {
        let n = self.points.len();
        if self.closed {
            if self.index < n {
                let e = if self.index + 1 == n {
                    0
                } else {
                    self.index + 1
                };
                let seg = Segment { start: &self.points[self.index], end: &self.points[e] };
                self.index = self.index + 1;
                Some(seg)
            } else {
                None
            }
        } else {
            if n > 0 && self.index < n - 1 {
                let seg = Segment {
                    start: &self.points[self.index],
                    end: &self.points[self.index + 1],
                };
                self.index = self.index + 1;
                Some(seg)
            } else {
                None
            }
        }
    }
}

} // verus!
