//! Tangent vectors.

use core::marker::PhantomData;
use vstd::prelude::*;
use crate::d3::direction::DVector;
use crate::d3::flat::Line;
use crate::d3::round::Point;
use crate::field::Field;
use crate::r410::R410;
use crate::spaces::infinity_spec;
use crate::spaces::Euclidean;
use crate::spaces::Space;
use crate::Multivec;

verus! {

/// A tangent vector: a direction fixed at the origin, on the blades `e1 e2 e3` times the
/// origin `(en - ep) / 2`.
#[derive(Copy, Debug, PartialEq)]
pub struct TVector<T, S = Euclidean> {
    pub e1o: T,
    pub e2o: T,
    pub e3o: T,
    pub _pd: PhantomData<S>,
}

impl<T: Copy, S: Copy> Clone for TVector<T, S> {
    fn clone(&self) -> (r: Self)
        ensures
            r == *self,
    {
        *self
    }
}

impl<T: Field, S: Space> Multivec for TVector<T, S> {
    type Element = T;

    open spec fn into_mv_spec(self) -> R410<T> {
        R410 {
            e1p: self.e1o.neg_spec(),
            e1n: self.e1o,
            e2p: self.e2o.neg_spec(),
            e2n: self.e2o,
            e3p: self.e3o.neg_spec(),
            e3n: self.e3o,
            ..R410::zero_spec()
        }
    }

    open spec fn from_mv_spec(v: R410<T>) -> Self {
        TVector { e1o: v.e1n, e2o: v.e2n, e3o: v.e3n, _pd: PhantomData }
    }

    open spec fn supports(i: int) -> bool {
        i == 8 || i == 9 || i == 11 || i == 12 || i == 13 || i == 14
    }

    fn into_mv(self) -> (r: R410<T>) {
        let TVector { e1o, e2o, e3o, _pd } = self;
        R410 {
            e1p: e1o.neg(),
            e1n: e1o,
            e2p: e2o.neg(),
            e2n: e2o,
            e3p: e3o.neg(),
            e3n: e3o,
            ..R410::zero()
        }
    }

    fn from_mv(v: R410<T>) -> (r: Self) {
        let R410 { e1n, e2n, e3n, .. } = v;
        Self { e1o: e1n, e2o: e2n, e3o: e3n, _pd: PhantomData }
    }

    proof fn lemma_round_trip(self) {
    }

    proof fn lemma_grade_pure(self, i: int) {
    }
}

impl<T: Field, S: Space> TVector<T, S> {
    pub open spec fn into_line_spec(self) -> Line<T, S> {
        Line::from_mv_spec(self.into_mv_spec().outer_spec(infinity_spec::<T>(S::kind())))
    }

    /// The point that the tangent vector is fixed at: the vector divided by minus infinity
    /// inner the vector.
    pub open spec fn position_spec(self) -> Point<T, S> {
        let v = self.into_mv_spec();
        Point::from_mv_spec(v.div_spec(infinity_spec::<T>(S::kind()).neg_spec().inner_spec(v)))
    }

    /// The direction of the tangent vector: minus infinity inner the vector, joined with
    /// infinity.
    pub open spec fn direction_spec(self) -> DVector<T, S> {
        let v = self.into_mv_spec();
        let ni = infinity_spec::<T>(S::kind());
        DVector::from_mv_spec(ni.inner_spec(v).neg_spec().outer_spec(ni))
    }

    pub open spec fn mul_scalar_spec(self, rhs: T) -> Self {
        Self::from_mv_spec(self.into_mv_spec().mul_scalar_spec(rhs))
    }

    pub open spec fn div_scalar_spec(self, rhs: T) -> Self {
        Self::from_mv_spec(self.into_mv_spec().div_scalar_spec(rhs))
    }

    /// Extends the tangent vector into a line passing through its location.
    pub fn into_line(self) -> (r: Line<T, S>)
        ensures
            r == self.into_line_spec(),
    {
        Line::from_mv(self.into_mv().bitxor(S::infinity()))
    }

    /// The point that the tangent vector is fixed at.
    pub fn position(self) -> (r: Point<T, S>)
        ensures
            r == self.position_spec(),
    {
        let v = self.into_mv();
        Point::from_mv(v.div(S::infinity::<T>().neg().bitor(v)))
    }

    /// The direction of the tangent vector.
    pub fn direction(self) -> (r: DVector<T, S>)
        ensures
            r == self.direction_spec(),
    {
        let v = self.into_mv();
        DVector::from_mv(S::infinity::<T>().bitor(v).neg().bitxor(S::infinity()))
    }

    /// The tangent vector divided by the scalar `rhs`.
    pub fn div_scalar(self, rhs: T) -> (r: Self)
        ensures
            r == self.div_scalar_spec(rhs),
    {
        Self::from_mv(self.into_mv().div_scalar(rhs))
    }

    /// The tangent vector stretched by the scalar `rhs`.
    pub fn mul_scalar(self, rhs: T) -> (r: Self)
        ensures
            r == self.mul_scalar_spec(rhs),
    {
        Self::from_mv(self.into_mv().mul_scalar(rhs))
    }
}

} // verus!
