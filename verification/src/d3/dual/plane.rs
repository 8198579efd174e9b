//! Planes in dual form.

use core::marker::PhantomData;
use vstd::prelude::*;
use crate::d3::flat::FPoint;
use crate::d3::flat::Line;
use crate::d3::flat::Plane;
use crate::d3::transform::Transform;
use crate::field::Field;
use crate::r410::R410;
use crate::spaces::join_spec;
use crate::spaces::split_spec;
use crate::spaces::DualSpace;
use crate::spaces::Euclidean;
use crate::spaces::Space;
use crate::Inner;
use crate::Multivec;

verus! {

/// A plane in dual form: its normal and its distance from the origin.
#[derive(Copy, Debug, PartialEq)]
pub struct DPlane<T, S = Euclidean> {
    pub e1: T,
    pub e2: T,
    pub e3: T,
    /// Corresponds to both ep and en
    pub ei: T,
    pub _pd: PhantomData<S>,
}

impl<T: Copy, S: Copy> Clone for DPlane<T, S> {
    fn clone(&self) -> (r: Self)
        ensures
            r == *self,
    {
        *self
    }
}

impl<T: Field, S: Space> Multivec for DPlane<T, S> {
    type Element = T;

    open spec fn into_mv_spec(self) -> R410<T> {
        R410 {
            e1: self.e1,
            e2: self.e2,
            e3: self.e3,
            ep: split_spec(S::kind(), self.ei).ep,
            en: split_spec(S::kind(), self.ei).en,
            ..R410::zero_spec()
        }
    }

    open spec fn from_mv_spec(v: R410<T>) -> Self {
        DPlane {
            e1: v.e1,
            e2: v.e2,
            e3: v.e3,
            ei: join_spec(S::kind(), v.ep, v.en),
            _pd: PhantomData,
        }
    }

    open spec fn supports(i: int) -> bool {
        i == 1 || i == 2 || i == 3 || i == 4 || i == 5
    }

    fn into_mv(self) -> (r: R410<T>) {
        let DPlane { e1, e2, e3, ei, _pd } = self;
        R410 {
            e1,
            e2,
            e3,
            ep: S::split(ei).ep,
            en: S::split(ei).en,
            ..R410::zero()
        }
    }

    fn from_mv(v: R410<T>) -> (r: Self) {
        let R410 { e1, e2, e3, ep, en, .. } = v;
        Self {
            e1,
            e2,
            e3,
            ei: S::join(ep, en),
            _pd: PhantomData,
        }
    }

    proof fn lemma_round_trip(self) {
    }

    proof fn lemma_grade_pure(self, i: int) {
    }
}

impl<T: Field, S: DualSpace> DPlane<T, S> {
    pub open spec fn undual_spec(self) -> Plane<T, S::Dual> {
        Plane::from_mv_spec(self.into_mv_spec().undual_spec())
    }

    /// Converts the dual plane to standard form.
    pub fn undual(self) -> (r: Plane<T, S::Dual>)
        ensures
            r == self.undual_spec(),
    {
        Plane::from_mv(self.into_mv().undual())
    }
}

impl<T: Field, S: Space> Inner<Line<T, S>> for DPlane<T, S> {
    type Output = FPoint<T, S>;
}

/// A plane carries a line along by reflecting it.
impl<T: Field, S: Space> Transform<Line<T, S>> for DPlane<T, S> {
}

} // verus!
