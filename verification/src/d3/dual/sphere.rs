//! Spheres in dual form.

use core::marker::PhantomData;
use vstd::prelude::*;
use crate::d3::flat::Line;
use crate::d3::round::Circle;
use crate::d3::round::Pair;
use crate::d3::round::Point;
use crate::d3::round::Sphere;
use crate::field::Field;
use crate::r410::R410;
use crate::spaces::infinity_spec;
use crate::spaces::join_spec;
use crate::spaces::split_spec;
use crate::spaces::DualSpace;
use crate::spaces::Euclidean;
use crate::spaces::Space;
use crate::Inner;
use crate::Multivec;
use crate::Scalar;

verus! {

/// A sphere in dual form: its centre, with the radius folded into the null pair.
#[derive(Copy, Debug, PartialEq)]
pub struct DSphere<T, S = Euclidean> {
    pub e1: T,
    pub e2: T,
    pub e3: T,
    pub ep: T,
    pub en: T,
    pub _pd: PhantomData<S>,
}

impl<T: Copy, S: Copy> Clone for DSphere<T, S> {
    fn clone(&self) -> (r: Self)
        ensures
            r == *self,
    {
        *self
    }
}

impl<T: Field, S: Space> Multivec for DSphere<T, S> {
    type Element = T;

    open spec fn into_mv_spec(self) -> R410<T> {
        R410 {
            e1: self.e1,
            e2: self.e2,
            e3: self.e3,
            ep: self.ep,
            en: self.en,
            ..R410::zero_spec()
        }
    }

    open spec fn from_mv_spec(v: R410<T>) -> Self {
        DSphere {
            e1: v.e1,
            e2: v.e2,
            e3: v.e3,
            ep: v.ep,
            en: v.en,
            _pd: PhantomData,
        }
    }

    open spec fn supports(i: int) -> bool {
        i == 1 || i == 2 || i == 3 || i == 4 || i == 5
    }

    fn into_mv(self) -> (r: R410<T>) {
        let DSphere { e1, e2, e3, ep, en, _pd } = self;
        R410 {
            e1,
            e2,
            e3,
            ep,
            en,
            ..R410::zero()
        }
    }

    fn from_mv(v: R410<T>) -> (r: Self) {
        let R410 { e1, e2, e3, ep, en, .. } = v;
        Self {
            e1,
            e2,
            e3,
            ep,
            en,
            _pd: PhantomData,
        }
    }

    proof fn lemma_round_trip(self) {
    }

    proof fn lemma_grade_pure(self, i: int) {
    }
}

impl<T: Field, S: Space> DSphere<T, S> {
    /// The scalar product of two dual spheres, by its closed form.
    pub open spec fn dot_spec(self, rhs: Self) -> T {
        self.e1.mul_spec(rhs.e1).add_spec(self.e2.mul_spec(rhs.e2)).add_spec(
            self.e3.mul_spec(rhs.e3),
        ).add_spec(self.ep.mul_spec(rhs.ep)).sub_spec(self.en.mul_spec(rhs.en))
    }

    /// The radius: the root of the scalar part of the inner product of the sphere with
    /// itself.
    pub open spec fn radius_spec(self) -> T {
        self.into_mv_spec().inner_spec(self.into_mv_spec()).s.sqrt_spec()
    }

    /// The centre, not normalized: the sandwich `s * infinity * s`.
    pub open spec fn center_spec(self) -> Point<T, S> {
        let s = self.into_mv_spec();
        Point::from_mv_spec(s.mul_spec(infinity_spec::<T>(S::kind())).mul_spec(s))
    }

    /// The scalar product of two dual spheres.
    pub fn dot(self, rhs: Self) -> (r: T)
        ensures
            r == self.dot_spec(rhs),
    {
        self.e1.mul(rhs.e1).add(self.e2.mul(rhs.e2)).add(self.e3.mul(rhs.e3)).add(
            self.ep.mul(rhs.ep),
        ).sub(self.en.mul(rhs.en))
    }

    /// The radius of the sphere.
    pub fn radius(self) -> (r: T)
        ensures
            r == self.radius_spec(),
    {
        self.inner(self).0.sqrt()
    }

    /// The centre of the sphere, not normalized.
    pub fn center(self) -> (r: Point<T, S>)
        ensures
            r == self.center_spec(),
    {
        let s = self.into_mv();
        Point::from_mv(s.mul(S::infinity()).mul(s))
    }
}

impl<T: Field, S: DualSpace> DSphere<T, S> {
    pub open spec fn undual_spec(self) -> Sphere<T, S::Dual> {
        Sphere::from_mv_spec(self.into_mv_spec().undual_spec())
    }

    /// Converts the dual sphere to standard form.
    pub fn undual(self) -> (r: Sphere<T, S::Dual>)
        ensures
            r == self.undual_spec(),
    {
        Sphere::from_mv(self.into_mv().undual())
    }
}

impl<T: Field, S: Space> Inner for DSphere<T, S> {
    type Output = Scalar<T>;
}

impl<T: Field, S: Space> Inner<Sphere<T, S>> for DSphere<T, S> {
    type Output = Circle<T, S>;
}

impl<T: Field, S: Space> Inner<Line<T, S>> for DSphere<T, S> {
    type Output = Pair<T, S>;
}

} // verus!
