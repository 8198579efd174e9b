//! Lines in dual form.

use core::marker::PhantomData;
use vstd::prelude::*;
use crate::d3::flat::FPoint;
use crate::d3::flat::Line;
use crate::d3::flat::Plane;
use crate::d3::round::Pair;
use crate::d3::round::Sphere;
use crate::field::Field;
use crate::r410::R410;
use crate::spaces::join_spec;
use crate::spaces::split_spec;
use crate::spaces::DualSpace;
use crate::spaces::Euclidean;
use crate::spaces::Space;
use crate::Inner;
use crate::Multivec;

verus! {

/// A line in dual form.
#[derive(Copy, Debug, PartialEq)]
pub struct DLine<T, S = Euclidean> {
    pub e12: T,
    pub e13: T,
    pub e23: T,
    pub e1i: T,
    pub e2i: T,
    pub e3i: T,
    pub _pd: PhantomData<S>,
}

impl<T: Copy, S: Copy> Clone for DLine<T, S> {
    fn clone(&self) -> (r: Self)
        ensures
            r == *self,
    {
        *self
    }
}

impl<T: Field, S: Space> Multivec for DLine<T, S> {
    type Element = T;

    open spec fn into_mv_spec(self) -> R410<T> {
        R410 {
            e12: self.e12,
            e13: self.e13,
            e23: self.e23,
            e1p: split_spec(S::kind(), self.e1i).ep,
            e1n: split_spec(S::kind(), self.e1i).en,
            e2p: split_spec(S::kind(), self.e2i).ep,
            e2n: split_spec(S::kind(), self.e2i).en,
            e3p: split_spec(S::kind(), self.e3i).ep,
            e3n: split_spec(S::kind(), self.e3i).en,
            ..R410::zero_spec()
        }
    }

    open spec fn from_mv_spec(v: R410<T>) -> Self {
        DLine {
            e12: v.e12,
            e13: v.e13,
            e23: v.e23,
            e1i: join_spec(S::kind(), v.e1p, v.e1n),
            e2i: join_spec(S::kind(), v.e2p, v.e2n),
            e3i: join_spec(S::kind(), v.e3p, v.e3n),
            _pd: PhantomData,
        }
    }

    open spec fn supports(i: int) -> bool {
        i == 6 || i == 7 || i == 8 || i == 9 || i == 10 || i == 11 || i == 12 || i == 13
            || i == 14
    }

    fn into_mv(self) -> (r: R410<T>) {
        let DLine { e12, e13, e23, e1i, e2i, e3i, _pd } = self;
        R410 {
            e12,
            e13,
            e23,
            e1p: S::split(e1i).ep,
            e1n: S::split(e1i).en,
            e2p: S::split(e2i).ep,
            e2n: S::split(e2i).en,
            e3p: S::split(e3i).ep,
            e3n: S::split(e3i).en,
            ..R410::zero()
        }
    }

    fn from_mv(v: R410<T>) -> (r: Self) {
        let R410 { e12, e13, e23, e1p, e1n, e2p, e2n, e3p, e3n, .. } = v;
        Self {
            e12,
            e13,
            e23,
            e1i: S::join(e1p, e1n),
            e2i: S::join(e2p, e2n),
            e3i: S::join(e3p, e3n),
            _pd: PhantomData,
        }
    }

    proof fn lemma_round_trip(self) {
    }

    proof fn lemma_grade_pure(self, i: int) {
    }
}

impl<T: Field, S: DualSpace> DLine<T, S> {
    pub open spec fn undual_spec(self) -> Line<T, S::Dual> {
        Line::from_mv_spec(self.into_mv_spec().undual_spec())
    }

    /// Converts the dual line to standard form.
    pub fn undual(self) -> (r: Line<T, S::Dual>)
        ensures
            r == self.undual_spec(),
    {
        Line::from_mv(self.into_mv().undual())
    }
}

impl<T: Field, S: Space> Inner<Sphere<T>> for DLine<T, S> {
    type Output = Pair<T, S>;
}

impl<T: Field, S: Space> Inner<Plane<T, S>> for DLine<T, S> {
    type Output = FPoint<T, S>;
}

} // verus!
