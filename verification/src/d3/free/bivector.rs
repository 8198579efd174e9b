//! Free bivectors.

use vstd::prelude::*;
use crate::d3::free::Trivector;
use crate::d3::free::Vector;
use crate::d3::transform::Rotor;
use crate::field::half;
use crate::field::half_spec;
use crate::field::Field;
use crate::r410::R410;
use crate::Inner;
use crate::Multivec;
use crate::Outer;
use crate::Scalar;

verus! {

/// A free bivector: an oriented plane element through no particular point.
#[derive(Clone, Copy, Debug, PartialEq)]
pub struct Bivector<T> {
    pub e12: T,
    pub e13: T,
    pub e23: T,
}

impl<T: Field> Multivec for Bivector<T> {
    type Element = T;

    open spec fn into_mv_spec(self) -> R410<T> {
        R410 {
            e12: self.e12,
            e13: self.e13,
            e23: self.e23,
            ..R410::zero_spec()
        }
    }

    open spec fn from_mv_spec(v: R410<T>) -> Self {
        Bivector {
            e12: v.e12,
            e13: v.e13,
            e23: v.e23,
        }
    }

    open spec fn supports(i: int) -> bool {
        i == 6 || i == 7 || i == 10
    }

    fn into_mv(self) -> (r: R410<T>) {
        let Bivector { e12, e13, e23 } = self;
        R410 {
            e12,
            e13,
            e23,
            ..R410::zero()
        }
    }

    fn from_mv(v: R410<T>) -> (r: Self) {
        let R410 { e12, e13, e23, .. } = v;
        Self {
            e12,
            e13,
            e23,
        }
    }

    proof fn lemma_round_trip(self) {
    }

    proof fn lemma_grade_pure(self, i: int) {
    }
}

impl<T: Field> Bivector<T> {
    pub open spec fn dot_spec(self, rhs: Self) -> T {
        self.e12.neg_spec().mul_spec(rhs.e12).sub_spec(self.e13.mul_spec(rhs.e13)).sub_spec(
            self.e23.mul_spec(rhs.e23),
        )
    }

    pub open spec fn norm_squared_spec(self) -> T {
        self.into_mv_spec().norm_squared_spec()
    }

    /// The root of the squared norm.
    pub open spec fn norm_spec(self) -> T {
        self.norm_squared_spec().sqrt_spec()
    }

    pub open spec fn div_scalar_spec(self, rhs: T) -> Self {
        Self::from_mv_spec(self.into_mv_spec().div_scalar_spec(rhs))
    }

    pub open spec fn normalized_spec(self) -> Self {
        self.div_scalar_spec(self.norm_spec())
    }

    /// The rotor about this bivector by `angle`: the cosine of half the angle, and the
    /// bivector times its sine.
    pub open spec fn with_angle_spec(self, angle: T) -> Rotor<T> {
        let h = angle.mul_spec(half_spec::<T>());
        Rotor {
            s: h.cos_spec(),
            e12: self.e12.mul_spec(h.sin_spec()),
            e13: self.e13.mul_spec(h.sin_spec()),
            e23: self.e23.mul_spec(h.sin_spec()),
        }
    }

    /// The volume spanned by the bivector and the vector `rhs`, by its closed form.
    pub open spec fn outer_spec(self, rhs: Vector<T>) -> Trivector<T> {
        Trivector {
            e123: self.e12.mul_spec(rhs.e3).sub_spec(self.e13.mul_spec(rhs.e2)).add_spec(
                self.e23.mul_spec(rhs.e1),
            ),
        }
    }

    /// The product with a trivector: the vector orthogonal to the bivector.
    pub open spec fn mul_spec(self, rhs: Trivector<T>) -> Vector<T> {
        Vector {
            e1: self.e23.neg_spec().mul_spec(rhs.e123),
            e2: self.e13.mul_spec(rhs.e123),
            e3: self.e12.neg_spec().mul_spec(rhs.e123),
        }
    }

    pub fn dot(self, rhs: Self) -> (r: T)
        ensures
            r == self.dot_spec(rhs),
    {
        self.e12.neg().mul(rhs.e12).sub(self.e13.mul(rhs.e13)).sub(self.e23.mul(rhs.e23))
    }

    pub fn normalized(self) -> (r: Self)
        ensures
            r == self.normalized_spec(),
    {
        self.div_scalar(self.norm())
    }

    pub fn norm(self) -> (r: T)
        ensures
            r == self.norm_spec(),
    {
        self.norm_squared().sqrt()
    }

    pub fn norm_squared(self) -> (r: T)
        ensures
            r == self.norm_squared_spec(),
    {
        self.into_mv().norm_squared()
    }

    /// The rotor that turns about this bivector by `angle`.
    pub fn with_angle(self, angle: T) -> (r: Rotor<T>)
        ensures
            r == self.with_angle_spec(angle),
    {
        let h = half::<T>();
        let (sin, cos) = angle.mul(h).sin_cos();
        Rotor {
            s: cos,
            e12: self.e12.mul(sin),
            e13: self.e13.mul(sin),
            e23: self.e23.mul(sin),
        }
    }

    /// The product with a trivector: the vector orthogonal to the bivector.
    pub fn mul(self, rhs: Trivector<T>) -> (r: Vector<T>)
        ensures
            r == self.mul_spec(rhs),
    {
        Vector {
            e1: self.e23.neg().mul(rhs.e123),
            e2: self.e13.mul(rhs.e123),
            e3: self.e12.neg().mul(rhs.e123),
        }
    }

    /// The bivector divided by the scalar `rhs`.
    pub fn div_scalar(self, rhs: T) -> (r: Self)
        ensures
            r == self.div_scalar_spec(rhs),
    {
        Self::from_mv(self.into_mv().div_scalar(rhs))
    }
}

impl<T: Field> Inner for Bivector<T> {
    type Output = Scalar<T>;
}

impl<T: Field> Outer<Vector<T>> for Bivector<T> {
    type Output = Trivector<T>;

    fn outer(self, rhs: Vector<T>) -> (r: Trivector<T>)
        ensures
            r == self.outer_spec(rhs),
    {
        Trivector {
            e123: self.e12.mul(rhs.e3).sub(self.e13.mul(rhs.e2)).add(self.e23.mul(rhs.e1)),
        }
    }
}

} // verus!
