//! Circles.

use core::marker::PhantomData;
use vstd::prelude::*;
use crate::d3::dual::DLine;
use crate::d3::flat::Plane;
use crate::d3::round::Point;
use crate::d3::round::Sphere;
use crate::field::Field;
use crate::r410::R410;
use crate::spaces::infinity_spec;
use crate::spaces::join_spec;
use crate::spaces::split_spec;
use crate::spaces::Euclidean;
use crate::spaces::Space;
use crate::Multivec;
use crate::Outer;

verus! {

/// A circle.
#[derive(Copy, Debug, PartialEq)]
pub struct Circle<T, S = Euclidean> {
    pub e123: T,
    pub e12p: T,
    pub e12n: T,
    pub e13p: T,
    pub e13n: T,
    pub e23p: T,
    pub e23n: T,
    pub e1pn: T,
    pub e2pn: T,
    pub e3pn: T,
    pub _pd: PhantomData<S>,
}

impl<T: Copy, S: Copy> Clone for Circle<T, S> {
    fn clone(&self) -> (r: Self)
        ensures
            r == *self,
    {
        *self
    }
}

impl<T: Field, S: Space> Multivec for Circle<T, S> {
    type Element = T;

    open spec fn into_mv_spec(self) -> R410<T> {
        R410 {
            e123: self.e123,
            e12p: self.e12p,
            e12n: self.e12n,
            e13p: self.e13p,
            e13n: self.e13n,
            e23p: self.e23p,
            e23n: self.e23n,
            e1pn: self.e1pn,
            e2pn: self.e2pn,
            e3pn: self.e3pn,
            ..R410::zero_spec()
        }
    }

    open spec fn from_mv_spec(v: R410<T>) -> Self {
        Circle {
            e123: v.e123,
            e12p: v.e12p,
            e12n: v.e12n,
            e13p: v.e13p,
            e13n: v.e13n,
            e23p: v.e23p,
            e23n: v.e23n,
            e1pn: v.e1pn,
            e2pn: v.e2pn,
            e3pn: v.e3pn,
            _pd: PhantomData,
        }
    }

    open spec fn supports(i: int) -> bool {
        i == 16 || i == 17 || i == 18 || i == 19 || i == 20 || i == 21 || i == 22 || i == 23
            || i == 24 || i == 25
    }

    fn into_mv(self) -> (r: R410<T>) {
        let Circle { e123, e12p, e12n, e13p, e13n, e23p, e23n, e1pn, e2pn, e3pn, _pd } = self;
        R410 {
            e123,
            e12p,
            e12n,
            e13p,
            e13n,
            e23p,
            e23n,
            e1pn,
            e2pn,
            e3pn,
            ..R410::zero()
        }
    }

    fn from_mv(v: R410<T>) -> (r: Self) {
        let R410 { e123, e12p, e12n, e13p, e13n, e23p, e23n, e1pn, e2pn, e3pn, .. } = v;
        Self {
            e123,
            e12p,
            e12n,
            e13p,
            e13n,
            e23p,
            e23n,
            e1pn,
            e2pn,
            e3pn,
            _pd: PhantomData,
        }
    }

    proof fn lemma_round_trip(self) {
    }

    proof fn lemma_grade_pure(self, i: int) {
    }
}

impl<T: Field, S: Space> Circle<T, S> {
    pub open spec fn extend_spec(self) -> Plane<T, S> {
        Plane::from_mv_spec(self.into_mv_spec().outer_spec(infinity_spec::<T>(S::kind())))
    }

    pub open spec fn axis_spec(self) -> DLine<T, S> {
        DLine::from_mv_spec(infinity_spec::<T>(S::kind()).inner_spec(self.into_mv_spec()))
    }

    /// Extends the circle into the infinite plane containing it.
    pub fn extend(self) -> (r: Plane<T, S>)
        ensures
            r == self.extend_spec(),
    {
        Plane::from_mv(self.into_mv().bitxor(S::infinity()))
    }

    /// Constructs the dual form of the perpendicular line through the circle's center.
    pub fn axis(self) -> (r: DLine<T, S>)
        ensures
            r == self.axis_spec(),
    {
        DLine::from_mv(S::infinity::<T>().bitor(self.into_mv()))
    }
}

/// Construct the sphere passing through the given point and this circle.
impl<T: Field, S: Space> Outer<Point<T, S>> for Circle<T, S> {
    type Output = Sphere<T, S>;
}

} // verus!
