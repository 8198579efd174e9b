//! Free vectors.

use core::marker::PhantomData;
use vstd::prelude::*;
use crate::d3::direction::DVector;
use crate::d3::dual::DPlane;
use crate::d3::free::Bivector;
use crate::d3::round::point::origin;
use crate::d3::round::point::origin_spec;
use crate::d3::round::Point;
use crate::d3::transform::Rotor;
use crate::d3::transform::Translator;
use crate::field::half;
use crate::field::half_spec;
use crate::field::Field;
use crate::r410::R410;
use crate::spaces::infinity_spec;
use crate::spaces::split_spec;
use crate::spaces::Space;
use crate::Inner;
use crate::Multivec;
use crate::Outer;
use crate::Reflect;
use crate::Scalar;

verus! {

/// A free vector of Euclidean space.
#[derive(Clone, Copy, Debug, PartialEq)]
pub struct Vector<T> {
    pub e1: T,
    pub e2: T,
    pub e3: T,
}

impl<T: Field> Multivec for Vector<T> {
    type Element = T;

    open spec fn into_mv_spec(self) -> R410<T> {
        R410 {
            e1: self.e1,
            e2: self.e2,
            e3: self.e3,
            ..R410::zero_spec()
        }
    }

    open spec fn from_mv_spec(v: R410<T>) -> Self {
        Vector {
            e1: v.e1,
            e2: v.e2,
            e3: v.e3,
        }
    }

    open spec fn supports(i: int) -> bool {
        i == 1 || i == 2 || i == 3
    }

    fn into_mv(self) -> (r: R410<T>) {
        let Vector { e1, e2, e3 } = self;
        R410 {
            e1,
            e2,
            e3,
            ..R410::zero()
        }
    }

    fn from_mv(v: R410<T>) -> (r: Self) {
        let R410 { e1, e2, e3, .. } = v;
        Self {
            e1,
            e2,
            e3,
        }
    }

    proof fn lemma_round_trip(self) {
    }

    proof fn lemma_grade_pure(self, i: int) {
    }
}

impl<T: Field> Vector<T> {
    /// The conformal lift of the vector `x`: the point `x + (x * x / 2) infinity + origin`.
    pub open spec fn into_point_spec<S: Space>(self) -> Point<T, S> {
        let v = self.into_mv_spec();
        Point::from_mv_spec(
            v.add_spec(
                infinity_spec::<T>(S::kind()).mul_spec(v.mul_spec(v)).mul_scalar_spec(
                    half_spec::<T>(),
                ),
            ).add_spec(origin_spec::<T>()),
        )
    }

    /// The conformal lift written out in coordinates: the coordinates of the vector, and on
    /// the null pair the parts of half its square, less a half on `ep` and more a half on
    /// `en`.
    pub open spec fn into_point_expanded_spec<S: Space>(self) -> Point<T, S> {
        let square = self.norm_squared_spec().mul_spec(half_spec::<T>());
        Point {
            e1: self.e1,
            e2: self.e2,
            e3: self.e3,
            ep: split_spec(S::kind(), square).ep.sub_spec(half_spec::<T>()),
            en: split_spec(S::kind(), square).en.add_spec(half_spec::<T>()),
            _pd: PhantomData,
        }
    }

    pub open spec fn normal_spec<S: Space>(self, dist: T) -> DPlane<T, S> {
        DPlane::from_mv_spec(
            self.into_mv_spec().add_spec(infinity_spec::<T>(S::kind()).mul_scalar_spec(dist)),
        )
    }

    pub open spec fn as_direction_spec<S: Space>(self) -> DVector<T, S> {
        DVector::from_mv_spec(self.into_mv_spec().mul_spec(infinity_spec::<T>(S::kind())))
    }

    pub open spec fn into_translator_spec<S: Space>(self) -> Translator<T, S> {
        self.as_direction_spec::<S>().into_translator_spec()
    }

    /// The length of the vector: the norm of its multivector.
    pub open spec fn norm_spec(self) -> T {
        self.into_mv_spec().norm_spec()
    }

    /// The square of the vector: its scalar product with itself.
    pub open spec fn norm_squared_spec(self) -> T {
        self.dot_spec(self)
    }

    /// The vector divided by its norm; the vector itself where the norm is zero.
    pub open spec fn normalize_spec(self) -> Self {
        if self.norm_spec().is_zero_spec() {
            self
        } else {
            Self::from_mv_spec(self.into_mv_spec().div_scalar_spec(self.norm_spec()))
        }
    }

    pub open spec fn dot_spec(self, rhs: Self) -> T {
        self.e1.mul_spec(rhs.e1).add_spec(self.e2.mul_spec(rhs.e2)).add_spec(
            self.e3.mul_spec(rhs.e3),
        )
    }

    pub open spec fn add_spec(self, rhs: Self) -> Self {
        Self::from_mv_spec(self.into_mv_spec().add_spec(rhs.into_mv_spec()))
    }

    pub open spec fn sub_spec(self, rhs: Self) -> Self {
        Self::from_mv_spec(self.into_mv_spec().sub_spec(rhs.into_mv_spec()))
    }

    pub open spec fn mul_scalar_spec(self, rhs: T) -> Self {
        Self::from_mv_spec(self.into_mv_spec().mul_scalar_spec(rhs))
    }

    pub open spec fn div_scalar_spec(self, rhs: T) -> Self {
        Self::from_mv_spec(self.into_mv_spec().div_scalar_spec(rhs))
    }

    pub open spec fn neg_spec(self) -> Self {
        self.mul_scalar_spec(T::one_spec().neg_spec())
    }

    pub open spec fn zero_spec() -> Self {
        Self::from_mv_spec(R410::zero_spec())
    }

    /// Whether the vector is zero: every coordinate is, or the squared norm is.
    pub open spec fn is_zero_spec(self) -> bool {
        (self.e1.is_zero_spec() && self.e2.is_zero_spec() && self.e3.is_zero_spec())
            || self.norm_squared_spec().is_zero_spec()
    }

    /// The rotor that turns by twice the angle from `self` to `rhs`.
    pub open spec fn mul_spec(self, rhs: Self) -> Rotor<T> {
        Rotor {
            s: self.dot_spec(rhs),
            e12: self.e1.mul_spec(rhs.e2).sub_spec(self.e2.mul_spec(rhs.e1)),
            e13: self.e1.mul_spec(rhs.e3).sub_spec(self.e3.mul_spec(rhs.e1)),
            e23: self.e2.mul_spec(rhs.e3).sub_spec(self.e3.mul_spec(rhs.e2)),
        }
    }

    /// The bivector spanned by `self` and `rhs`, by its closed form.
    pub open spec fn outer_spec(self, rhs: Self) -> Bivector<T> {
        Bivector {
            e12: self.e1.mul_spec(rhs.e2).sub_spec(self.e2.mul_spec(rhs.e1)),
            e13: self.e1.mul_spec(rhs.e3).sub_spec(self.e3.mul_spec(rhs.e1)),
            e23: self.e2.mul_spec(rhs.e3).sub_spec(self.e3.mul_spec(rhs.e2)),
        }
    }

    pub open spec fn reflect_spec(self, object: Self) -> Self {
        Self::from_mv_spec(self.into_mv_spec().sandwich_spec(object.into_mv_spec()))
    }

    pub fn new(e1: T, e2: T, e3: T) -> (r: Self)
        ensures
            r == (Vector { e1, e2, e3 }),
    {
        Self { e1, e2, e3 }
    }

    pub fn x(self) -> (r: T)
        ensures
            r == self.e1,
    {
        self.e1
    }

    pub fn y(self) -> (r: T)
        ensures
            r == self.e2,
    {
        self.e2
    }

    pub fn z(self) -> (r: T)
        ensures
            r == self.e3,
    {
        self.e3
    }

    /// The vector with the coordinates `v`.
    pub fn from(v: [T; 3]) -> (r: Self)
        ensures
            r == (Vector { e1: v@[0], e2: v@[1], e3: v@[2] }),
    {
        Self { e1: v[0], e2: v[1], e3: v[2] }
    }

    /// Constructs the point at the coordinates pointed to by this vector.
    pub fn into_point<S: Space>(self) -> (r: Point<T, S>)
        ensures
            r == self.into_point_spec::<S>(),
    {
        let h = half::<T>();
        let no = origin::<T>();
        let ni = S::infinity::<T>();
        let v = self.into_mv();
        Point::from_mv(v.add(ni.mul(v.mul(v)).mul_scalar(h)).add(no))
    }

    /// Constructs the point at the coordinates pointed to by this vector, coordinate by
    /// coordinate. It is the point that `into_point` gives, found without a product of
    /// multivectors.
    pub fn into_point_expanded<S: Space>(self) -> (r: Point<T, S>)
        ensures
            r == self.into_point_expanded_spec::<S>(),
    {
        let h = half::<T>();
        let square = self.norm_squared().mul(h);
        Point {
            e1: self.e1,
            e2: self.e2,
            e3: self.e3,
            ep: S::split(square).ep.sub(h),
            en: S::split(square).en.add(h),
            _pd: PhantomData,
        }
    }

    /// Constructs the plane perpendicular to this vector at a distance `dist` from the origin.
    pub fn normal<S: Space>(self, dist: T) -> (r: DPlane<T, S>)
        ensures
            r == self.normal_spec::<S>(dist),
    {
        DPlane::from_mv(self.into_mv().add(S::infinity::<T>().mul_scalar(dist)))
    }

    /// Convert the vector into a translator that brings the origin to the vector's coordinates.
    pub fn into_translator<S: Space>(self) -> (r: Translator<T, S>)
        ensures
            r == self.into_translator_spec::<S>(),
    {
        self.as_direction::<S>().into_translator()
    }

    /// Converts the free vector into a direction vector.
    /// Also seen as the bivector part of a translator.
    pub fn as_direction<S: Space>(self) -> (r: DVector<T, S>)
        ensures
            r == self.as_direction_spec::<S>(),
    {
        DVector::from_mv(self.into_mv().mul(S::infinity::<T>()))
    }

    /// The vector divided by its norm; the vector itself where the norm is zero.
    pub fn normalize(self) -> (r: Self)
        ensures
            r == self.normalize_spec(),
    {
        let norm = self.norm();
        if norm.is_zero() {
            self
        } else {
            Self::from_mv(self.into_mv().div_scalar(norm))
        }
    }

    pub fn norm(self) -> (r: T)
        ensures
            r == self.norm_spec(),
    {
        self.into_mv().norm()
    }

    /// The square of the vector. The squared norm of its multivector is the negative of
    /// this, a vector being the negative of its conjugate.
    pub fn norm_squared(self) -> (r: T)
        ensures
            r == self.norm_squared_spec(),
    {
        self.dot(self)
    }

    pub fn dot(self, rhs: Self) -> (r: T)
        ensures
            r == self.dot_spec(rhs),
    {
        self.e1.mul(rhs.e1).add(self.e2.mul(rhs.e2)).add(self.e3.mul(rhs.e3))
    }

    /// Constructs the rotor that brings an object twice the angle between the two vectors.
    pub fn mul(self, rhs: Self) -> (r: Rotor<T>)
        ensures
            r == self.mul_spec(rhs),
    {
        Rotor {
            s: self.e1.mul(rhs.e1).add(self.e2.mul(rhs.e2)).add(self.e3.mul(rhs.e3)),
            e12: self.e1.mul(rhs.e2).sub(self.e2.mul(rhs.e1)),
            e13: self.e1.mul(rhs.e3).sub(self.e3.mul(rhs.e1)),
            e23: self.e2.mul(rhs.e3).sub(self.e3.mul(rhs.e2)),
        }
    }

    pub fn add(self, rhs: Self) -> (r: Self)
        ensures
            r == self.add_spec(rhs),
    {
        Self::from_mv(self.into_mv().add(rhs.into_mv()))
    }

    pub fn sub(self, rhs: Self) -> (r: Self)
        ensures
            r == self.sub_spec(rhs),
    {
        Self::from_mv(self.into_mv().sub(rhs.into_mv()))
    }

    pub fn zero() -> (r: Self)
        ensures
            r == Self::zero_spec(),
    {
        Self::from_mv(R410::zero())
    }

    /// Whether the vector is zero: every coordinate is, or the squared norm is.
    pub fn is_zero(&self) -> (r: bool)
        ensures
            r == self.is_zero_spec(),
    {
        (self.e1.is_zero() && self.e2.is_zero() && self.e3.is_zero())
            || self.norm_squared().is_zero()
    }

    /// The vector stretched by the scalar `rhs`.
    pub fn mul_scalar(self, rhs: T) -> (r: Self)
        ensures
            r == self.mul_scalar_spec(rhs),
    {
        Self::from_mv(self.into_mv().mul_scalar(rhs))
    }

    /// The vector divided by the scalar `rhs`.
    pub fn div_scalar(self, rhs: T) -> (r: Self)
        ensures
            r == self.div_scalar_spec(rhs),
    {
        Self::from_mv(self.into_mv().div_scalar(rhs))
    }

    /// Stretches the vector by the scalar `rhs` in place.
    pub fn mul_assign(&mut self, rhs: T)
        ensures
            *final(self) == old(self).mul_scalar_spec(rhs),
    {
        *self = self.mul_scalar(rhs);
    }

    /// Divides the vector by the scalar `rhs` in place.
    pub fn div_assign(&mut self, rhs: T)
        ensures
            *final(self) == old(self).div_scalar_spec(rhs),
    {
        *self = self.div_scalar(rhs);
    }

    pub fn neg(self) -> (r: Self)
        ensures
            r == self.neg_spec(),
    {
        self.mul_scalar(T::one().neg())
    }
}

impl<T: Field> Inner for Vector<T> {
    type Output = Scalar<T>;
}

impl<T: Field> Outer for Vector<T> {
    type Output = Bivector<T>;

    fn outer(self, rhs: Self) -> (r: Bivector<T>)
        ensures
            r == self.outer_spec(rhs),
    {
        Bivector {
            e12: self.e1.mul(rhs.e2).sub(self.e2.mul(rhs.e1)),
            e13: self.e1.mul(rhs.e3).sub(self.e3.mul(rhs.e1)),
            e23: self.e2.mul(rhs.e3).sub(self.e3.mul(rhs.e2)),
        }
    }
}

impl<T: Field> Reflect<Self> for Vector<T> {
    fn reflect(self, object: Self) -> (r: Self)
        ensures
            r == self.reflect_spec(object),
    {
        let m = self.into_mv();
        Self::from_mv(m.reverse().mul(object.into_mv()).mul(m))
    }
}

} // verus!
