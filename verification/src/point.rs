//! Positions in the plane, bare or with a payload.

use vstd::prelude::*;
use crate::scalar::Scalar;

verus! {

/// A vector of the plane.
#[derive(Clone, Copy, Debug, PartialEq, Eq, Structural)]
pub struct Point {
    pub x: Scalar,
    pub y: Scalar,
}

impl Point {
    /// The vector with the given coordinates.
    pub fn new(x: Scalar, y: Scalar) -> (r: Point)
        ensures
            r == (Point { x, y }),
    {
        Point { x, y }
    }

    /// The vector turned by a quarter turn: `(a, b)` becomes `(-b, a)`.
    pub open spec fn quarter_turn(self) -> Point {
        Point { x: self.y.opposite(), y: self.x }
    }

    /// A vector normal to `self`: for `(a, b)` it is `(-b, a)`.
    pub fn minusb_a(self) -> (r: Point)
        ensures
            r == self.quarter_turn(),
    {
        Point { x: self.y.neg(), y: self.x }
    }

    /// The same position, carrying `data`.
    pub fn with_data<T>(self, data: T) -> (r: DataPoint<T>)
        ensures
            r.point == self,
            r.data == data,
    {
        DataPoint::new(self.x, self.y, data)
    }
}

/// Four quarter turns bring a vector back, and two of them reverse it.
pub proof fn lemma_quarter_turns(p: Point)
    ensures
        p.quarter_turn().quarter_turn() == (Point { x: p.x.opposite(), y: p.y.opposite() }),
        p.quarter_turn().quarter_turn().quarter_turn().quarter_turn() == p,
{
}

/// A position together with a payload.
#[derive(Clone, Copy, Debug)]
pub struct DataPoint<T> {
    pub point: Point,
    pub data: T,
}

impl<T> DataPoint<T> {
    /// The payload at the position with the given coordinates.
    pub fn new(x: Scalar, y: Scalar, data: T) -> (r: Self)
        ensures
            r.point == (Point { x, y }),
            r.data == data,
    {
        Self::from_point(Point::new(x, y), data)
    }

    /// The payload at the given position.
    pub fn from_point(point: Point, data: T) -> (r: Self)
        ensures
            r.point == point,
            r.data == data,
    {
        Self { point, data }
    }

    /// Replaces the payload by its image under `f`; the position stays.
    pub fn map<F, U>(self, f: F) -> (r: DataPoint<U>) where F: FnOnce(T) -> U
        requires
            f.requires((self.data,)),
        ensures
            r.point == self.point,
            f.ensures((self.data,), r.data),
    {
        DataPoint { point: self.point, data: f(self.data) }
    }
}

impl<T> std::ops::Deref for DataPoint<T> {
    type Target = T;

    /// The payload.
    fn deref(&self) -> (r: &T)
        ensures
            *r == self.data,
    {
        &self.data
    }
}

impl<T> std::ops::DerefMut for DataPoint<T> {
    /// The payload, to be changed in place; the position stays.
    fn deref_mut(&mut self) -> (r: &mut T)
        ensures
            *r == old(self).data,
            final(self).data == *final(r),
            final(self).point == old(self).point,
    {
        &mut self.data
    }
}

} // verus!
