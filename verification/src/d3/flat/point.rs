//! Flat points.

use core::marker::PhantomData;
use vstd::prelude::*;
use crate::d3::flat::Line;
use crate::d3::free::Vector;
use crate::d3::transform::Translator;
use crate::field::Field;
use crate::r410::R410;
use crate::spaces::join_spec;
use crate::spaces::split_spec;
use crate::spaces::Euclidean;
use crate::spaces::Space;
use crate::Multivec;

verus! {

/// A flat point: a point joined with infinity.
#[derive(Copy, Debug, PartialEq)]
pub struct FPoint<T, S = Euclidean> {
    /// Corresponds to both e1p and e1n
    pub e1i: T,
    /// Corresponds to both e2p and e2n
    pub e2i: T,
    /// Corresponds to both e3p and e3n
    pub e3i: T,
    pub epn: T,
    pub _pd: PhantomData<S>,
}

impl<T: Copy, S: Copy> Clone for FPoint<T, S> {
    fn clone(&self) -> (r: Self)
        ensures
            r == *self,
    {
        *self
    }
}

impl<T: Field, S: Space> Multivec for FPoint<T, S> {
    type Element = T;

    open spec fn into_mv_spec(self) -> R410<T> {
        R410 {
            e1p: split_spec(S::kind(), self.e1i).ep,
            e1n: split_spec(S::kind(), self.e1i).en,
            e2p: split_spec(S::kind(), self.e2i).ep,
            e2n: split_spec(S::kind(), self.e2i).en,
            e3p: split_spec(S::kind(), self.e3i).ep,
            e3n: split_spec(S::kind(), self.e3i).en,
            epn: self.epn,
            ..R410::zero_spec()
        }
    }

    open spec fn from_mv_spec(v: R410<T>) -> Self {
        FPoint {
            e1i: join_spec(S::kind(), v.e1p, v.e1n),
            e2i: join_spec(S::kind(), v.e2p, v.e2n),
            e3i: join_spec(S::kind(), v.e3p, v.e3n),
            epn: v.epn,
            _pd: PhantomData,
        }
    }

    open spec fn supports(i: int) -> bool {
        i == 8 || i == 9 || i == 11 || i == 12 || i == 13 || i == 14 || i == 15
    }

    fn into_mv(self) -> (r: R410<T>) {
        let FPoint { e1i, e2i, e3i, epn, _pd } = self;
        R410 {
            e1p: S::split(e1i).ep,
            e1n: S::split(e1i).en,
            e2p: S::split(e2i).ep,
            e2n: S::split(e2i).en,
            e3p: S::split(e3i).ep,
            e3n: S::split(e3i).en,
            epn,
            ..R410::zero()
        }
    }

    fn from_mv(v: R410<T>) -> (r: Self) {
        let R410 { e1p, e1n, e2p, e2n, e3p, e3n, epn, .. } = v;
        Self {
            e1i: S::join(e1p, e1n),
            e2i: S::join(e2p, e2n),
            e3i: S::join(e3p, e3n),
            epn,
            _pd: PhantomData,
        }
    }

    proof fn lemma_round_trip(self) {
    }

    proof fn lemma_grade_pure(self, i: int) {
    }
}

impl<T: Field, S: Space> FPoint<T, S> {
    pub open spec fn extend_along_vec_spec(self, dir: Vector<T>) -> Line<T> {
        Line::from_mv_spec(self.into_mv_spec().neg_spec().outer_spec(dir.into_mv_spec()))
    }

    /// The geometric product of two flat points, as a translator.
    pub open spec fn mul_spec(self, rhs: Self) -> Translator<T> {
        Translator::from_mv_spec(self.into_mv_spec().mul_spec(rhs.into_mv_spec()))
    }

    /// Constructs the line along `dir` that passes through self.
    pub fn extend_along_vec(self, dir: Vector<T>) -> (r: Line<T>)
        ensures
            r == self.extend_along_vec_spec(dir),
    {
        Line::from_mv(self.into_mv().neg().bitxor(dir.into_mv()))
    }

    /// Constructs the translator the brings an object twice the distance from `rhs` to `self`.
    pub fn mul(self, rhs: Self) -> (r: Translator<T>)
        ensures
            r == self.mul_spec(rhs),
    {
        Translator::from_mv(self.into_mv().mul(rhs.into_mv()))
    }
}

} // verus!
