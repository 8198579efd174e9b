//! Point pairs.

use core::marker::PhantomData;
use vstd::prelude::*;
use crate::d3::dual::DPlane;
use crate::d3::flat::Line;
use crate::d3::round::Circle;
use crate::d3::round::Point;
use crate::field::Field;
use crate::r410::R410;
use crate::spaces::infinity_spec;
use crate::spaces::join_spec;
use crate::spaces::split_spec;
use crate::spaces::Euclidean;
use crate::spaces::Space;
use crate::Inner;
use crate::Multivec;
use crate::Outer;
use crate::Scalar;

verus! {

/// A pair of points.
#[derive(Copy, Debug, PartialEq)]
pub struct Pair<T, S = Euclidean> {
    pub e12: T,
    pub e13: T,
    pub e23: T,
    pub e1p: T,
    pub e1n: T,
    pub e2p: T,
    pub e2n: T,
    pub e3p: T,
    pub e3n: T,
    pub epn: T,
    pub _pd: PhantomData<S>,
}

impl<T: Copy, S: Copy> Clone for Pair<T, S> {
    fn clone(&self) -> (r: Self)
        ensures
            r == *self,
    {
        *self
    }
}

impl<T: Field, S: Space> Multivec for Pair<T, S> {
    type Element = T;

    open spec fn into_mv_spec(self) -> R410<T> {
        R410 {
            e12: self.e12,
            e13: self.e13,
            e23: self.e23,
            e1p: self.e1p,
            e1n: self.e1n,
            e2p: self.e2p,
            e2n: self.e2n,
            e3p: self.e3p,
            e3n: self.e3n,
            epn: self.epn,
            ..R410::zero_spec()
        }
    }

    open spec fn from_mv_spec(v: R410<T>) -> Self {
        Pair {
            e12: v.e12,
            e13: v.e13,
            e23: v.e23,
            e1p: v.e1p,
            e1n: v.e1n,
            e2p: v.e2p,
            e2n: v.e2n,
            e3p: v.e3p,
            e3n: v.e3n,
            epn: v.epn,
            _pd: PhantomData,
        }
    }

    open spec fn supports(i: int) -> bool {
        i == 6 || i == 7 || i == 8 || i == 9 || i == 10 || i == 11 || i == 12 || i == 13
            || i == 14 || i == 15
    }

    fn into_mv(self) -> (r: R410<T>) {
        let Pair { e12, e13, e23, e1p, e1n, e2p, e2n, e3p, e3n, epn, _pd } = self;
        R410 {
            e12,
            e13,
            e23,
            e1p,
            e1n,
            e2p,
            e2n,
            e3p,
            e3n,
            epn,
            ..R410::zero()
        }
    }

    fn from_mv(v: R410<T>) -> (r: Self) {
        let R410 { e12, e13, e23, e1p, e1n, e2p, e2n, e3p, e3n, epn, .. } = v;
        Self {
            e12,
            e13,
            e23,
            e1p,
            e1n,
            e2p,
            e2n,
            e3p,
            e3n,
            epn,
            _pd: PhantomData,
        }
    }

    proof fn lemma_round_trip(self) {
    }

    proof fn lemma_grade_pure(self, i: int) {
    }
}

impl<T: Field, S: Space> Pair<T, S> {
    pub open spec fn norm_squared_spec(self) -> T {
        self.into_mv_spec().norm_squared_spec()
    }

    pub open spec fn extend_spec(self) -> Line<T, S> {
        Line::from_mv_spec(self.into_mv_spec().outer_spec(infinity_spec::<T>(S::kind())))
    }

    pub open spec fn midplane_spec(self) -> DPlane<T, S> {
        DPlane::from_mv_spec(infinity_spec::<T>(S::kind()).inner_spec(self.into_mv_spec()))
    }

    /// The square of the pair under the inner product; the pair is real where it has a root.
    pub open spec fn radicand_spec(self) -> T {
        self.into_mv_spec().inner_spec(self.into_mv_spec()).s
    }

    /// The plane through infinity that the pair is contracted against: infinity inner the
    /// pair.
    pub open spec fn carrier_spec(self) -> R410<T> {
        infinity_spec::<T>(S::kind()).inner_spec(self.into_mv_spec())
    }

    /// The first point of the pair, not yet normalized, given the root `s` of its square:
    /// `(-pair + s)` contracted against the carrier.
    pub open spec fn first_spec(self, s: T) -> Point<T, S> {
        Point::from_mv_spec(
            self.into_mv_spec().neg_spec().add_scalar_spec(s).inner_spec(self.carrier_spec()),
        )
    }

    /// The second point of the pair, not yet normalized, given the root `s` of its square:
    /// `(pair + s)` contracted against the carrier.
    pub open spec fn second_spec(self, s: T) -> Point<T, S> {
        Point::from_mv_spec(
            self.into_mv_spec().add_scalar_spec(s).inner_spec(self.carrier_spec()),
        )
    }

    /// The two points of the pair, given the root `s` of its square. They are absent where the
    /// carrier has no direction, which is so where one of the points is infinity, and where
    /// one of the points found has no weight.
    pub open spec fn split_spec(self, s: T) -> Option<(Point<T, S>, Point<T, S>)> {
        let plane = self.carrier_spec();
        if plane.e1.is_zero_spec() && plane.e2.is_zero_spec() && plane.e3.is_zero_spec() {
            None
        } else if self.first_spec(s).norm_spec().is_zero_spec() || self.second_spec(
            s,
        ).norm_spec().is_zero_spec() {
            None
        } else {
            Some((self.first_spec(s).normalize_spec(), self.second_spec(s).normalize_spec()))
        }
    }

    /// The two points of the pair; absent where the square of the pair has no root, and
    /// where `split_spec` finds none.
    pub open spec fn decompose_spec(self) -> Option<(Point<T, S>, Point<T, S>)> {
        if self.radicand_spec().has_sqrt_spec() {
            self.split_spec(self.radicand_spec().sqrt_spec())
        } else {
            None
        }
    }

    /// The two points of the pair, given the root `s` of its square.
    pub fn split(self, s: T) -> (r: Option<(Point<T, S>, Point<T, S>)>)
        ensures
            r == self.split_spec(s),
    {
        let pair = self.into_mv();
        let plane = S::infinity::<T>().bitor(pair);
        if plane.e1.is_zero() && plane.e2.is_zero() && plane.e3.is_zero() {
            // Second point is infinity
            None
        } else {
            let first: Point<T, S> = Point::from_mv(pair.neg().add_scalar(s).bitor(plane));
            let second: Point<T, S> = Point::from_mv(pair.add_scalar(s).bitor(plane));
            if first.norm().is_zero() || second.norm().is_zero() {
                None
            } else {
                Some((first.normalize(), second.normalize()))
            }
        }
    }

    /// The two points of the pair; absent where the pair is imaginary or holds infinity.
    pub fn decompose(self) -> (r: Option<(Point<T, S>, Point<T, S>)>)
        ensures
            r == self.decompose_spec(),
    {
        match self.inner(self).0.try_sqrt() {
            Some(s) => self.split(s),
            None => None,
        }
    }

    pub fn norm_squared(self) -> (r: T)
        ensures
            r == self.norm_squared_spec(),
    {
        self.into_mv().norm_squared()
    }

    /// Extends the pair into the infinite line connecting the two.
    pub fn extend(self) -> (r: Line<T, S>)
        ensures
            r == self.extend_spec(),
    {
        Line::from_mv(self.into_mv().bitxor(S::infinity()))
    }

    /// Constructs the dual form of the plane halfway between the two points.
    pub fn midplane(self) -> (r: DPlane<T, S>)
        ensures
            r == self.midplane_spec(),
    {
        // ei · self
        DPlane::from_mv(S::infinity::<T>().bitor(self.into_mv()))
    }
}

/// Construct the circle passing through all 3 points.
impl<T: Field, S: Space> Outer<Point<T, S>> for Pair<T, S> {
    type Output = Circle<T>;
}

impl<T: Field, S: Space> Inner for Pair<T, S> {
    type Output = Scalar<T>;
}

/// Construct the point at the intersection of the given plane and the line between the pair of
/// points.
impl<T: Field, S: Space> Inner<DPlane<T, S>> for Pair<T, S> {
    type Output = Point<T, S>;
}

} // verus!
