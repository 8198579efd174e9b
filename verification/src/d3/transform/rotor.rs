//! Rotors.

use vstd::prelude::*;
use crate::d3::free::Vector;
use crate::d3::transform::Transform;
use crate::field::Field;
use crate::r410::R410;
use crate::Multivec;

verus! {

/// A rotation about the origin.
#[derive(Clone, Copy, Debug, PartialEq)]
pub struct Rotor<T> {
    pub s: T,
    pub e12: T,
    pub e13: T,
    pub e23: T,
}

impl<T: Field> Multivec for Rotor<T> {
    type Element = T;

    open spec fn into_mv_spec(self) -> R410<T> {
        R410 {
            s: self.s,
            e12: self.e12,
            e13: self.e13,
            e23: self.e23,
            ..R410::zero_spec()
        }
    }

    open spec fn from_mv_spec(v: R410<T>) -> Self {
        Rotor {
            s: v.s,
            e12: v.e12,
            e13: v.e13,
            e23: v.e23,
        }
    }

    open spec fn supports(i: int) -> bool {
        i == 0 || i == 6 || i == 7 || i == 10
    }

    fn into_mv(self) -> (r: R410<T>) {
        let Rotor { s, e12, e13, e23 } = self;
        R410 {
            s,
            e12,
            e13,
            e23,
            ..R410::zero()
        }
    }

    fn from_mv(v: R410<T>) -> (r: Self) {
        let R410 { s, e12, e13, e23, .. } = v;
        Self {
            s,
            e12,
            e13,
            e23,
        }
    }

    proof fn lemma_round_trip(self) {
    }

    proof fn lemma_grade_pure(self, i: int) {
    }
}

impl<T: Field> Rotor<T> {
    /// The rotation `self` followed by `rhs`: the geometric product.
    pub open spec fn mul_spec(self, rhs: Self) -> Self {
        Self::from_mv_spec(self.into_mv_spec().mul_spec(rhs.into_mv_spec()))
    }

    /// The rotation `self` followed by `rhs`.
    pub fn mul(self, rhs: Self) -> (r: Self)
        ensures
            r == self.mul_spec(rhs),
    {
        Self::from_mv(self.into_mv().mul(rhs.into_mv()))
    }
}

impl<T: Field> Transform<Vector<T>> for Rotor<T> {
    fn transform(self, p: Vector<T>) -> (r: Vector<T>)
        ensures
            r == Vector::from_mv_spec(self.into_mv_spec().sandwich_spec(p.into_mv_spec())),
    {
        let t = self.into_mv();
        Vector::from_mv(t.reverse().mul(p.into_mv()).mul(t))
    }
}

} // verus!
