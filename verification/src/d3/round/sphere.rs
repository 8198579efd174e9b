//! Spheres.

use core::marker::PhantomData;
use vstd::prelude::*;
use crate::d3::dual::DSphere;
use crate::d3::round::Point;
use crate::field::Field;
use crate::r410::R410;
use crate::spaces::infinity_spec;
use crate::spaces::join_spec;
use crate::spaces::split_spec;
use crate::spaces::Euclidean;
use crate::spaces::Space;
use crate::Dual;
use crate::Multivec;

verus! {

/// A sphere.
#[derive(Copy, Debug, PartialEq)]
pub struct Sphere<T, S = Euclidean> {
    pub e123p: T,
    pub e123n: T,
    pub e12pn: T,
    pub e13pn: T,
    pub e23pn: T,
    pub _pd: PhantomData<S>,
}

impl<T: Copy, S: Copy> Clone for Sphere<T, S> {
    fn clone(&self) -> (r: Self)
        ensures
            r == *self,
    {
        *self
    }
}

impl<T: Field, S: Space> Multivec for Sphere<T, S> {
    type Element = T;

    open spec fn into_mv_spec(self) -> R410<T> {
        R410 {
            e123p: self.e123p,
            e123n: self.e123n,
            e12pn: self.e12pn,
            e13pn: self.e13pn,
            e23pn: self.e23pn,
            ..R410::zero_spec()
        }
    }

    open spec fn from_mv_spec(v: R410<T>) -> Self {
        Sphere {
            e123p: v.e123p,
            e123n: v.e123n,
            e12pn: v.e12pn,
            e13pn: v.e13pn,
            e23pn: v.e23pn,
            _pd: PhantomData,
        }
    }

    open spec fn supports(i: int) -> bool {
        i == 26 || i == 27 || i == 28 || i == 29 || i == 30
    }

    fn into_mv(self) -> (r: R410<T>) {
        let Sphere { e123p, e123n, e12pn, e13pn, e23pn, _pd } = self;
        R410 {
            e123p,
            e123n,
            e12pn,
            e13pn,
            e23pn,
            ..R410::zero()
        }
    }

    fn from_mv(v: R410<T>) -> (r: Self) {
        let R410 { e123p, e123n, e12pn, e13pn, e23pn, .. } = v;
        Self {
            e123p,
            e123n,
            e12pn,
            e13pn,
            e23pn,
            _pd: PhantomData,
        }
    }

    proof fn lemma_round_trip(self) {
    }

    proof fn lemma_grade_pure(self, i: int) {
    }
}

impl<T: Field, S: Space> Sphere<T, S> {
    /// The centre: the sandwich `s * infinity * s` of infinity in the sphere, divided by its
    /// inner product with infinity.
    pub open spec fn center_spec(self) -> Point<T, S> {
        let ni = infinity_spec::<T>(S::kind());
        let s = self.into_mv_spec();
        let p = s.mul_spec(ni).mul_spec(s);
        Point::from_mv_spec(p.div_spec(p.inner_spec(ni)))
    }

    /// The centre of the sphere.
    pub fn center(self) -> (r: Point<T, S>)
        ensures
            r == self.center_spec(),
    {
        let ni = S::infinity::<T>();
        let s = self.into_mv();
        let p = s.mul(ni).mul(s);
        Point::from_mv(p.div(p.bitor(ni)))
    }
}

/// Converts the sphere into its dual form of a point with radius.
impl<T: Field, S: Space> Dual for Sphere<T, S> {
    type Output = DSphere<T, S>;
}

} // verus!
