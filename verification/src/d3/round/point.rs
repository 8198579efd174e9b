//! Points.

use core::marker::PhantomData;
use vstd::prelude::*;
use crate::d3::direction::DVector;
use crate::d3::dual::DPlane;
use crate::d3::dual::DSphere;
use crate::d3::flat::FPoint;
use crate::d3::flat::Line;
use crate::d3::free::Vector;
use crate::d3::round::Circle;
use crate::d3::round::Pair;
use crate::d3::round::Sphere;
use crate::field::half;
use crate::field::half_spec;
use crate::field::two;
use crate::field::two_spec;
use crate::field::Field;
use crate::r410::R410;
use crate::spaces::infinity_spec;
use crate::spaces::join_spec;
use crate::spaces::split_spec;
use crate::spaces::Euclidean;
use crate::spaces::Space;
use crate::Inner;
use crate::Multivec;
use crate::Outer;
use crate::Scalar;

verus! {

/// A point, as a null vector of the conformal model.
#[derive(Copy, Debug, PartialEq)]
pub struct Point<T, S = Euclidean> {
    pub e1: T,
    pub e2: T,
    pub e3: T,
    pub ep: T,
    pub en: T,
    pub _pd: PhantomData<S>,
}

impl<T: Copy, S: Copy> Clone for Point<T, S> {
    fn clone(&self) -> (r: Self)
        ensures
            r == *self,
    {
        *self
    }
}

impl<T: Field, S: Space> Multivec for Point<T, S> {
    type Element = T;

    open spec fn into_mv_spec(self) -> R410<T> {
        R410 {
            e1: self.e1,
            e2: self.e2,
            e3: self.e3,
            ep: self.ep,
            en: self.en,
            ..R410::zero_spec()
        }
    }

    open spec fn from_mv_spec(v: R410<T>) -> Self {
        Point {
            e1: v.e1,
            e2: v.e2,
            e3: v.e3,
            ep: v.ep,
            en: v.en,
            _pd: PhantomData,
        }
    }

    open spec fn supports(i: int) -> bool {
        i == 1 || i == 2 || i == 3 || i == 4 || i == 5
    }

    fn into_mv(self) -> (r: R410<T>) {
        let Point { e1, e2, e3, ep, en, _pd } = self;
        R410 {
            e1,
            e2,
            e3,
            ep,
            en,
            ..R410::zero()
        }
    }

    fn from_mv(v: R410<T>) -> (r: Self) {
        let R410 { e1, e2, e3, ep, en, .. } = v;
        Self {
            e1,
            e2,
            e3,
            ep,
            en,
            _pd: PhantomData,
        }
    }

    proof fn lemma_round_trip(self) {
    }

    proof fn lemma_grade_pure(self, i: int) {
    }
}

/// The point at the origin, `(en - ep) / 2`.
pub open spec fn origin_spec<T: Field>() -> R410<T> {
    R410 { ep: half_spec::<T>().neg_spec(), en: half_spec::<T>(), ..R410::zero_spec() }
}

/// The point at the origin, `(en - ep) / 2`.
pub fn origin<T: Field>() -> (r: R410<T>)
    ensures
        r == origin_spec::<T>(),
{
    let h = half::<T>();
    R410 { ep: h.neg(), en: h, ..R410::zero() }
}

impl<T: Field, S: Space> Point<T, S> {
    /// The point at the origin.
    pub open spec fn no_spec() -> Self {
        Self::from_mv_spec(origin_spec::<T>())
    }

    /// The point at infinity.
    pub open spec fn ni_spec() -> Self {
        Self::from_mv_spec(infinity_spec::<T>(S::kind()))
    }

    pub open spec fn into_flat_spec(self) -> FPoint<T, S> {
        FPoint::from_mv_spec(self.into_mv_spec().outer_spec(infinity_spec::<T>(S::kind())))
    }

    /// The scalar product of two points: the scalar part of their inner product.
    pub open spec fn dot_spec(self, other: Self) -> T {
        self.into_mv_spec().inner_spec(other.into_mv_spec()).s
    }

    /// The weight of the point: its scalar product with infinity. It is zero for the point at
    /// infinity.
    pub open spec fn norm_spec(self) -> T {
        self.dot_spec(Self::ni_spec())
    }

    /// The point divided by its weight.
    pub open spec fn normalize_spec(self) -> Self {
        Self::from_mv_spec(self.into_mv_spec().div_scalar_spec(self.norm_spec()))
    }

    /// The point divided by its weight; absent where the weight is zero.
    pub open spec fn try_normalize_spec(self) -> Option<Self> {
        if self.norm_spec().is_zero_spec() {
            None
        } else {
            Some(self.normalize_spec())
        }
    }

    /// The distance of two points; absent where one of them has no weight.
    pub open spec fn try_distance_spec(self, other: Self) -> Option<T> {
        if self.norm_spec().is_zero_spec() || other.norm_spec().is_zero_spec() {
            None
        } else {
            Some(self.distance_spec(other))
        }
    }

    /// The distance of two points: the root of `-2` times the scalar product of the two,
    /// normalized.
    pub open spec fn distance_spec(self, other: Self) -> T {
        self.normalize_spec().dot_spec(other.normalize_spec()).mul_spec(
            two_spec::<T>().neg_spec(),
        ).sqrt_spec()
    }

    pub open spec fn midplane_spec(self, other: Self) -> DPlane<T, S> {
        DPlane::from_mv_spec(self.into_mv_spec().sub_spec(other.into_mv_spec()))
    }

    /// The sphere about the point with the given radius, in dual form: the point less
    /// `radius * radius / 2` times infinity.
    pub open spec fn into_sphere_spec(self, radius: T) -> DSphere<T> {
        DSphere::from_mv_spec(
            self.into_mv_spec().sub_spec(
                infinity_spec::<T>(S::kind()).mul_scalar_spec(
                    radius.mul_spec(radius).mul_spec(half_spec::<T>()),
                ),
            ),
        )
    }

    pub open spec fn extend_along_vec_spec(self, dir: DVector<T, S>) -> Line<T, S> {
        Line::from_mv_spec(self.into_mv_spec().outer_spec(dir.into_mv_spec()))
    }

    /// The join of two points.
    pub open spec fn outer_spec(self, other: Self) -> Pair<T, S> {
        Pair::from_mv_spec(self.into_mv_spec().outer_spec(other.into_mv_spec()))
    }

    /// The vector from the origin to the point; absent for a point without weight, such as
    /// the point at infinity.
    pub open spec fn from_origin_spec(self) -> Option<Vector<T>> {
        if self.norm_spec().is_zero_spec() || Self::no_spec().norm_spec().is_zero_spec() {
            None
        } else {
            let direction = Self::no_spec().outer_spec(
                self,
            ).extend_spec().into_vector_spec().normalize_spec();
            Some(direction.mul_scalar_spec(Self::no_spec().distance_spec(self)))
        }
    }

    /// The point with the coordinates `v`.
    pub fn from(v: [T; 3]) -> (r: Self)
        ensures
            r == (Vector { e1: v@[0], e2: v@[1], e3: v@[2] }).into_point_spec::<S>(),
    {
        Self::new(Vector::from(v))
    }

    /// The point at the place that the vector `v` points to.
    pub fn new(v: Vector<T>) -> (r: Self)
        ensures
            r == v.into_point_spec::<S>(),
    {
        v.into_point()
    }

    /// The point at the origin.
    pub fn no() -> (r: Self)
        ensures
            r == Self::no_spec(),
    {
        Point::from_mv(origin())
    }

    /// The point at infinity.
    pub fn ni() -> (r: Self)
        ensures
            r == Self::ni_spec(),
    {
        Point::from_mv(S::infinity())
    }

    /// Convert this point into a flat point.
    pub fn into_flat(self) -> (r: FPoint<T, S>)
        ensures
            r == self.into_flat_spec(),
    {
        FPoint::from_mv(self.into_mv().bitxor(S::infinity()))
    }

    /// Calculate the euclidean distance between two points. Both must have weight: neither is
    /// the point at infinity.
    pub fn distance(self, other: Self) -> (r: T)
        requires
            !self.norm_spec().is_zero_spec(),
            !other.norm_spec().is_zero_spec(),
        ensures
            r == self.distance_spec(other),
    {
        let n2 = two::<T>().neg();
        self.normalize().dot(other.normalize()).mul(n2).sqrt()
    }

    /// The euclidean distance between two points; absent where one of them has no weight, as
    /// the point at infinity has none.
    pub fn try_distance(self, other: Self) -> (r: Option<T>)
        ensures
            r == self.try_distance_spec(other),
    {
        if self.norm().is_zero() || other.norm().is_zero() {
            None
        } else {
            Some(self.distance(other))
        }
    }

    /// The point divided by its weight; absent where the weight is zero.
    pub fn try_normalize(self) -> (r: Option<Self>)
        ensures
            r == self.try_normalize_spec(),
    {
        if self.norm().is_zero() {
            None
        } else {
            Some(self.normalize())
        }
    }

    /// The scalar product of two points. Returns negative a half of the distance squared
    /// between them.
    pub fn dot(self, other: Self) -> (r: T)
        ensures
            r == self.dot_spec(other),
    {
        self.inner(other).0
    }

    /// The point divided by its weight, which must not be zero.
    pub fn normalize(self) -> (r: Self)
        requires
            !self.norm_spec().is_zero_spec(),
        ensures
            r == self.normalize_spec(),
    {
        let norm = self.norm();
        Self::from_mv(self.into_mv().div_scalar(norm))
    }

    /// The weight of the point: its scalar product with infinity.
    pub fn norm(self) -> (r: T)
        ensures
            r == self.norm_spec(),
    {
        self.dot(Self::ni())
    }

    /// Constructs the dual form of the plane halfway between the two points.
    pub fn midplane(self, other: Self) -> (r: DPlane<T, S>)
        ensures
            r == self.midplane_spec(other),
    {
        DPlane::from_mv(self.into_mv().sub(other.into_mv()))
    }

    /// Constructs the dual form of the sphere centered at this point with the given radius.
    pub fn into_sphere(self, radius: T) -> (r: DSphere<T>)
        ensures
            r == self.into_sphere_spec(radius),
    {
        let h = half::<T>();
        let r2 = radius.mul(radius).mul(h);
        DSphere::from_mv(self.into_mv().sub(S::infinity::<T>().mul_scalar(r2)))
    }

    /// Constructs the line in the direction of `dir` that passes through self.
    pub fn extend_along_vec(self, dir: DVector<T, S>) -> (r: Line<T, S>)
        ensures
            r == self.extend_along_vec_spec(dir),
    {
        self.outer(dir)
    }

    /// Gets the vector pointing to this point from the origin; absent for a point without
    /// weight, such as the point at infinity.
    pub fn from_origin(self) -> (r: Option<Vector<T>>)
        ensures
            r == self.from_origin_spec(),
    {
        let pair = Self::no().outer(self);
        if self.norm().is_zero() || Self::no().norm().is_zero() {
            None
        } else {
            Some(pair.extend().into_vector().normalize().mul_scalar(Self::no().distance(self)))
        }
    }
}

impl<T: Field, S: Space> Inner for Point<T, S> {
    type Output = Scalar<T>;
}

impl<T: Field, S: Space> Inner<Sphere<T, S>> for Point<T, S> {
    type Output = Circle<T, S>;
}

/// Join two points into a pair.
impl<T: Field, S: Space> Outer for Point<T, S> {
    type Output = Pair<T, S>;
}

impl<T: Field, S: Space> Outer<FPoint<T, S>> for Point<T, S> {
    type Output = Line<T, S>;
}

impl<T: Field, S: Space> Outer<DVector<T, S>> for Point<T, S> {
    type Output = Line<T, S>;
}

} // verus!
