//! Direction vectors.

use core::marker::PhantomData;
use vstd::prelude::*;
use crate::d3::transform::Translator;
use crate::field::half;
use crate::field::half_spec;
use crate::field::Field;
use crate::r410::R410;
use crate::spaces::join_spec;
use crate::spaces::split_spec;
use crate::spaces::Euclidean;
use crate::spaces::Space;
use crate::Multivec;

verus! {

/// A light-like direction vector: the bivector part of a translator.
#[derive(Copy, Debug, PartialEq)]
pub struct DVector<T, S = Euclidean> {
    pub e1i: T,
    pub e2i: T,
    pub e3i: T,
    pub _pd: PhantomData<S>,
}

impl<T: Copy, S: Copy> Clone for DVector<T, S> {
    fn clone(&self) -> (r: Self)
        ensures
            r == *self,
    {
        *self
    }
}

impl<T: Field, S: Space> Multivec for DVector<T, S> {
    type Element = T;

    open spec fn into_mv_spec(self) -> R410<T> {
        R410 {
            e1p: split_spec(S::kind(), self.e1i).ep,
            e1n: split_spec(S::kind(), self.e1i).en,
            e2p: split_spec(S::kind(), self.e2i).ep,
            e2n: split_spec(S::kind(), self.e2i).en,
            e3p: split_spec(S::kind(), self.e3i).ep,
            e3n: split_spec(S::kind(), self.e3i).en,
            ..R410::zero_spec()
        }
    }

    open spec fn from_mv_spec(v: R410<T>) -> Self {
        DVector {
            e1i: join_spec(S::kind(), v.e1p, v.e1n),
            e2i: join_spec(S::kind(), v.e2p, v.e2n),
            e3i: join_spec(S::kind(), v.e3p, v.e3n),
            _pd: PhantomData,
        }
    }

    open spec fn supports(i: int) -> bool {
        i == 8 || i == 9 || i == 11 || i == 12 || i == 13 || i == 14
    }

    fn into_mv(self) -> (r: R410<T>) {
        let DVector { e1i, e2i, e3i, _pd } = self;
        R410 {
            e1p: S::split(e1i).ep,
            e1n: S::split(e1i).en,
            e2p: S::split(e2i).ep,
            e2n: S::split(e2i).en,
            e3p: S::split(e3i).ep,
            e3n: S::split(e3i).en,
            ..R410::zero()
        }
    }

    fn from_mv(v: R410<T>) -> (r: Self) {
        let R410 { e1p, e1n, e2p, e2n, e3p, e3n, .. } = v;
        Self {
            e1i: S::join(e1p, e1n),
            e2i: S::join(e2p, e2n),
            e3i: S::join(e3p, e3n),
            _pd: PhantomData,
        }
    }

    proof fn lemma_round_trip(self) {
    }

    proof fn lemma_grade_pure(self, i: int) {
    }
}

impl<T: Field, S: Space> DVector<T, S> {
    pub open spec fn mul_scalar_spec(self, rhs: T) -> Self {
        Self::from_mv_spec(self.into_mv_spec().mul_scalar_spec(rhs))
    }

    pub open spec fn div_scalar_spec(self, rhs: T) -> Self {
        Self::from_mv_spec(self.into_mv_spec().div_scalar_spec(rhs))
    }

    pub open spec fn neg_spec(self) -> Self {
        Self::from_mv_spec(self.into_mv_spec().neg_spec())
    }

    /// The exponential `e^self`, which for a direction is `1 - self`.
    pub open spec fn exp_spec(self) -> Translator<T, S> {
        Translator::from_mv_spec(self.into_mv_spec().neg_spec().add_scalar_spec(T::one_spec()))
    }

    /// The translator along the direction by its length: the exponential of its half.
    pub open spec fn into_translator_spec(self) -> Translator<T, S> {
        self.mul_scalar_spec(half_spec::<T>()).exp_spec()
    }

    /// Converts the direction vector into a translator that moves along the direction the same
    /// distance.
    pub fn into_translator(self) -> (r: Translator<T, S>)
        ensures
            r == self.into_translator_spec(),
    {
        let h = half::<T>();
        self.mul_scalar(h).exp()
    }

    /// Computes `e^self`. Has the same effect as converting to a translator with twice the
    /// distance.
    pub fn exp(self) -> (r: Translator<T, S>)
        ensures
            r == self.exp_spec(),
    {
        Translator::from_mv(self.into_mv().neg().add_scalar(T::one()))
    }

    /// The direction divided by the scalar `rhs`.
    pub fn div_scalar(self, rhs: T) -> (r: Self)
        ensures
            r == self.div_scalar_spec(rhs),
    {
        Self::from_mv(self.into_mv().div_scalar(rhs))
    }

    /// The direction stretched by the scalar `rhs`.
    pub fn mul_scalar(self, rhs: T) -> (r: Self)
        ensures
            r == self.mul_scalar_spec(rhs),
    {
        Self::from_mv(self.into_mv().mul_scalar(rhs))
    }

    /// The opposite direction.
    pub fn neg(self) -> (r: Self)
        ensures
            r == self.neg_spec(),
    {
        Self::from_mv(self.into_mv().neg())
    }
}

} // verus!
