//! Translators.

use core::marker::PhantomData;
use vstd::prelude::*;
use crate::d3::dual::DSphere;
use crate::d3::round::Point;
use crate::d3::round::Sphere;
use crate::d3::transform::Transform;
use crate::field::Field;
use crate::r410::R410;
use crate::spaces::join_spec;
use crate::spaces::split_spec;
use crate::spaces::Euclidean;
use crate::spaces::Space;
use crate::Multivec;

verus! {

/// A translation.
#[derive(Copy, Debug, PartialEq)]
pub struct Translator<T, S = Euclidean> {
    pub e1i: T,
    pub e2i: T,
    pub e3i: T,
    pub s: T,
    pub _pd: PhantomData<S>,
}

impl<T: Copy, S: Copy> Clone for Translator<T, S> {
    fn clone(&self) -> (r: Self)
        ensures
            r == *self,
    {
        *self
    }
}

impl<T: Field, S: Space> Multivec for Translator<T, S> {
    type Element = T;

    open spec fn into_mv_spec(self) -> R410<T> {
        R410 {
            e1p: split_spec(S::kind(), self.e1i).ep,
            e1n: split_spec(S::kind(), self.e1i).en,
            e2p: split_spec(S::kind(), self.e2i).ep,
            e2n: split_spec(S::kind(), self.e2i).en,
            e3p: split_spec(S::kind(), self.e3i).ep,
            e3n: split_spec(S::kind(), self.e3i).en,
            s: self.s,
            ..R410::zero_spec()
        }
    }

    open spec fn from_mv_spec(v: R410<T>) -> Self {
        Translator {
            e1i: join_spec(S::kind(), v.e1p, v.e1n),
            e2i: join_spec(S::kind(), v.e2p, v.e2n),
            e3i: join_spec(S::kind(), v.e3p, v.e3n),
            s: v.s,
            _pd: PhantomData,
        }
    }

    open spec fn supports(i: int) -> bool {
        i == 0 || i == 8 || i == 9 || i == 11 || i == 12 || i == 13 || i == 14
    }

    fn into_mv(self) -> (r: R410<T>) {
        let Translator { e1i, e2i, e3i, s, _pd } = self;
        R410 {
            e1p: S::split(e1i).ep,
            e1n: S::split(e1i).en,
            e2p: S::split(e2i).ep,
            e2n: S::split(e2i).en,
            e3p: S::split(e3i).ep,
            e3n: S::split(e3i).en,
            s,
            ..R410::zero()
        }
    }

    fn from_mv(v: R410<T>) -> (r: Self) {
        let R410 { e1p, e1n, e2p, e2n, e3p, e3n, s, .. } = v;
        Self {
            e1i: S::join(e1p, e1n),
            e2i: S::join(e2p, e2n),
            e3i: S::join(e3p, e3n),
            s,
            _pd: PhantomData,
        }
    }

    proof fn lemma_round_trip(self) {
    }

    proof fn lemma_grade_pure(self, i: int) {
    }
}

impl<T: Field, S: Space> Translator<T, S> {
    /// The translation `self` followed by `rhs`: the geometric product.
    pub open spec fn mul_spec(self, rhs: Self) -> Self {
        Self::from_mv_spec(self.into_mv_spec().mul_spec(rhs.into_mv_spec()))
    }

    pub open spec fn mul_scalar_spec(self, rhs: T) -> Self {
        Self::from_mv_spec(self.into_mv_spec().mul_scalar_spec(rhs))
    }

    /// The translation `self` followed by `rhs`.
    pub fn mul(self, rhs: Self) -> (r: Self)
        ensures
            r == self.mul_spec(rhs),
    {
        Self::from_mv(self.into_mv().mul(rhs.into_mv()))
    }

    /// The translator with every coefficient multiplied by the scalar `rhs`.
    pub fn mul_scalar(self, rhs: T) -> (r: Self)
        ensures
            r == self.mul_scalar_spec(rhs),
    {
        Self::from_mv(self.into_mv().mul_scalar(rhs))
    }
}

/// A translator built from a displacement `d` is `1 - d infinity / 2`. It moves an object by
/// `d` when the object stands between the translator and its reverse, in this order.
impl<T: Field, S: Space> Transform<Sphere<T>> for Translator<T, S> {
    fn transform(self, obj: Sphere<T>) -> (r: Sphere<T>)
        ensures
            r == Sphere::<T>::from_mv_spec(
                self.into_mv_spec().reversed_sandwich_spec(obj.into_mv_spec()),
            ),
    {
        Sphere::from_mv(self.into_mv().reversed_sandwich(obj.into_mv()))
    }
}

impl<T: Field, S: Space> Transform<DSphere<T>> for Translator<T, S> {
    fn transform(self, obj: DSphere<T>) -> (r: DSphere<T>)
        ensures
            r == DSphere::<T>::from_mv_spec(
                self.into_mv_spec().reversed_sandwich_spec(obj.into_mv_spec()),
            ),
    {
        DSphere::from_mv(self.into_mv().reversed_sandwich(obj.into_mv()))
    }
}

impl<T: Field, S: Space> Transform<Point<T>> for Translator<T, S> {
    fn transform(self, obj: Point<T>) -> (r: Point<T>)
        ensures
            r == Point::<T>::from_mv_spec(
                self.into_mv_spec().reversed_sandwich_spec(obj.into_mv_spec()),
            ),
    {
        Point::from_mv(self.into_mv().reversed_sandwich(obj.into_mv()))
    }
}

} // verus!
