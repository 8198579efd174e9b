//! Planes.

use core::marker::PhantomData;
use vstd::prelude::*;
use crate::d3::dual::DPlane;
use crate::d3::round::Sphere;
use crate::field::Field;
use crate::r410::R410;
use crate::spaces::join_spec;
use crate::spaces::split_spec;
use crate::spaces::DualSpace;
use crate::spaces::Euclidean;
use crate::spaces::Space;
use crate::Dual;
use crate::Multivec;

verus! {

/// An infinite plane.
#[derive(Copy, Debug, PartialEq)]
pub struct Plane<T, S = Euclidean> {
    /// Corresponds to both e123p and e123n
    pub e123i: T,
    pub e12pn: T,
    pub e13pn: T,
    pub e23pn: T,
    pub _pd: PhantomData<S>,
}

impl<T: Copy, S: Copy> Clone for Plane<T, S> {
    fn clone(&self) -> (r: Self)
        ensures
            r == *self,
    {
        *self
    }
}

impl<T: Field, S: Space> Multivec for Plane<T, S> {
    type Element = T;

    open spec fn into_mv_spec(self) -> R410<T> {
        R410 {
            e123p: split_spec(S::kind(), self.e123i).ep,
            e123n: split_spec(S::kind(), self.e123i).en,
            e12pn: self.e12pn,
            e13pn: self.e13pn,
            e23pn: self.e23pn,
            ..R410::zero_spec()
        }
    }

    open spec fn from_mv_spec(v: R410<T>) -> Self {
        Plane {
            e123i: join_spec(S::kind(), v.e123p, v.e123n),
            e12pn: v.e12pn,
            e13pn: v.e13pn,
            e23pn: v.e23pn,
            _pd: PhantomData,
        }
    }

    open spec fn supports(i: int) -> bool {
        i == 26 || i == 27 || i == 28 || i == 29 || i == 30
    }

    fn into_mv(self) -> (r: R410<T>) {
        let Plane { e123i, e12pn, e13pn, e23pn, _pd } = self;
        R410 {
            e123p: S::split(e123i).ep,
            e123n: S::split(e123i).en,
            e12pn,
            e13pn,
            e23pn,
            ..R410::zero()
        }
    }

    fn from_mv(v: R410<T>) -> (r: Self) {
        let R410 { e123p, e123n, e12pn, e13pn, e23pn, .. } = v;
        Self {
            e123i: S::join(e123p, e123n),
            e12pn,
            e13pn,
            e23pn,
            _pd: PhantomData,
        }
    }

    proof fn lemma_round_trip(self) {
    }

    proof fn lemma_grade_pure(self, i: int) {
    }
}

impl<T: Field, S: Space> Plane<T, S> {
    pub open spec fn to_round_spec(self) -> Sphere<T> {
        Sphere::from_mv_spec(self.into_mv_spec())
    }

    /// Interprets the plane as a sphere with infinite radius.
    pub fn to_round(self) -> (r: Sphere<T>)
        ensures
            r == self.to_round_spec(),
    {
        Sphere::from_mv(self.into_mv())
    }
}

impl<T: Field, S: DualSpace> Dual for Plane<T, S> {
    type Output = DPlane<T, S::Dual>;
}

} // verus!
