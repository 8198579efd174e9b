//! Tangent bivectors.

use core::marker::PhantomData;
use vstd::prelude::*;
use crate::d3::flat::Plane;
use crate::field::Field;
use crate::r410::R410;
use crate::spaces::infinity_spec;
use crate::spaces::join_spec;
use crate::spaces::split_spec;
use crate::spaces::Euclidean;
use crate::spaces::Space;
use crate::Multivec;

verus! {

/// An object containing the position and orientation of a tangent plane.
#[derive(Copy, Debug, PartialEq)]
pub struct TBivector<T, S = Euclidean> {
    pub e123: T,
    pub e12p: T,
    pub e12n: T,
    pub e13p: T,
    pub e13n: T,
    pub e23p: T,
    pub e23n: T,
    pub _pd: PhantomData<S>,
}

impl<T: Copy, S: Copy> Clone for TBivector<T, S> {
    fn clone(&self) -> (r: Self)
        ensures
            r == *self,
    {
        *self
    }
}

impl<T: Field, S: Space> Multivec for TBivector<T, S> {
    type Element = T;

    open spec fn into_mv_spec(self) -> R410<T> {
        R410 {
            e123: self.e123,
            e12p: self.e12p,
            e12n: self.e12n,
            e13p: self.e13p,
            e13n: self.e13n,
            e23p: self.e23p,
            e23n: self.e23n,
            ..R410::zero_spec()
        }
    }

    open spec fn from_mv_spec(v: R410<T>) -> Self {
        TBivector {
            e123: v.e123,
            e12p: v.e12p,
            e12n: v.e12n,
            e13p: v.e13p,
            e13n: v.e13n,
            e23p: v.e23p,
            e23n: v.e23n,
            _pd: PhantomData,
        }
    }

    open spec fn supports(i: int) -> bool {
        i == 16 || i == 17 || i == 18 || i == 19 || i == 20 || i == 22 || i == 23
    }

    fn into_mv(self) -> (r: R410<T>) {
        let TBivector { e123, e12p, e12n, e13p, e13n, e23p, e23n, _pd } = self;
        R410 {
            e123,
            e12p,
            e12n,
            e13p,
            e13n,
            e23p,
            e23n,
            ..R410::zero()
        }
    }

    fn from_mv(v: R410<T>) -> (r: Self) {
        let R410 { e123, e12p, e12n, e13p, e13n, e23p, e23n, .. } = v;
        Self {
            e123,
            e12p,
            e12n,
            e13p,
            e13n,
            e23p,
            e23n,
            _pd: PhantomData,
        }
    }

    proof fn lemma_round_trip(self) {
    }

    proof fn lemma_grade_pure(self, i: int) {
    }
}

impl<T: Field, S: Space> TBivector<T, S> {
    pub open spec fn into_plane_spec(self) -> Plane<T, S> {
        Plane::from_mv_spec(self.into_mv_spec().outer_spec(infinity_spec::<T>(S::kind())))
    }

    /// Extends the tangent bivector into a plane passing through its location.
    pub fn into_plane(self) -> (r: Plane<T, S>)
        ensures
            r == self.into_plane_spec(),
    {
        Plane::from_mv(self.into_mv().bitxor(S::infinity()))
    }
}

} // verus!
