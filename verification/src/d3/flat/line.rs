//! Lines.

use core::marker::PhantomData;
use vstd::prelude::*;
use crate::d3::direction::DVector;
use crate::d3::dual::DLine;
use crate::d3::free::Vector;
use crate::d3::round::Point;
use crate::d3::transform::Motor;
use crate::field::Field;
use crate::r410::R410;
use crate::spaces::infinity_spec;
use crate::spaces::join_spec;
use crate::spaces::split_spec;
use crate::spaces::DualSpace;
use crate::spaces::Euclidean;
use crate::spaces::Space;
use crate::Dual;
use crate::Inner;
use crate::Multivec;

verus! {

/// An infinite line.
#[derive(Copy, Debug, PartialEq)]
pub struct Line<T, S = Euclidean> {
    /// Corresponds to both e12p and e12n
    pub e12i: T,
    /// Corresponds to both e13p and e13n
    pub e13i: T,
    /// Corresponds to both e23p and e23n
    pub e23i: T,
    pub e1pn: T,
    pub e2pn: T,
    pub e3pn: T,
    pub _pd: PhantomData<S>,
}

impl<T: Copy, S: Copy> Clone for Line<T, S> {
    fn clone(&self) -> (r: Self)
        ensures
            r == *self,
    {
        *self
    }
}

impl<T: Field, S: Space> Multivec for Line<T, S> {
    type Element = T;

    open spec fn into_mv_spec(self) -> R410<T> {
        R410 {
            e12p: split_spec(S::kind(), self.e12i).ep,
            e12n: split_spec(S::kind(), self.e12i).en,
            e13p: split_spec(S::kind(), self.e13i).ep,
            e13n: split_spec(S::kind(), self.e13i).en,
            e23p: split_spec(S::kind(), self.e23i).ep,
            e23n: split_spec(S::kind(), self.e23i).en,
            e1pn: self.e1pn,
            e2pn: self.e2pn,
            e3pn: self.e3pn,
            ..R410::zero_spec()
        }
    }

    open spec fn from_mv_spec(v: R410<T>) -> Self {
        Line {
            e12i: join_spec(S::kind(), v.e12p, v.e12n),
            e13i: join_spec(S::kind(), v.e13p, v.e13n),
            e23i: join_spec(S::kind(), v.e23p, v.e23n),
            e1pn: v.e1pn,
            e2pn: v.e2pn,
            e3pn: v.e3pn,
            _pd: PhantomData,
        }
    }

    open spec fn supports(i: int) -> bool {
        i == 17 || i == 18 || i == 19 || i == 20 || i == 21 || i == 22 || i == 23 || i == 24
            || i == 25
    }

    fn into_mv(self) -> (r: R410<T>) {
        let Line { e12i, e13i, e23i, e1pn, e2pn, e3pn, _pd } = self;
        R410 {
            e12p: S::split(e12i).ep,
            e12n: S::split(e12i).en,
            e13p: S::split(e13i).ep,
            e13n: S::split(e13i).en,
            e23p: S::split(e23i).ep,
            e23n: S::split(e23i).en,
            e1pn,
            e2pn,
            e3pn,
            ..R410::zero()
        }
    }

    fn from_mv(v: R410<T>) -> (r: Self) {
        let R410 { e12p, e12n, e13p, e13n, e23p, e23n, e1pn, e2pn, e3pn, .. } = v;
        Self {
            e12i: S::join(e12p, e12n),
            e13i: S::join(e13p, e13n),
            e23i: S::join(e23p, e23n),
            e1pn,
            e2pn,
            e3pn,
            _pd: PhantomData,
        }
    }

    proof fn lemma_round_trip(self) {
    }

    proof fn lemma_grade_pure(self, i: int) {
    }
}

impl<T: Field, S: Space> Line<T, S> {
    /// The direction of the line as a free vector: the Minkowski plane `epn` inner the line.
    pub open spec fn into_vector_spec(self) -> Vector<T> {
        Vector::from_mv_spec(R410::<T>::basis_spec(15).inner_spec(self.into_mv_spec()))
    }

    /// The direction of the line: minus infinity, inner the line.
    pub open spec fn direction_spec(self) -> DVector<T> {
        DVector::from_mv_spec(
            infinity_spec::<T>(S::kind()).neg_spec().inner_spec(self.into_mv_spec()),
        )
    }

    /// Where the point `p` lies along the line; absent for a point without weight, such as
    /// the point at infinity.
    pub open spec fn position_on_spec(self, p: Point<T, S>) -> Option<T> {
        if p.norm_spec().is_zero_spec() {
            None
        } else {
            Some(
                self.into_vector_spec().into_mv_spec().inner_spec(
                    p.normalize_spec().into_mv_spec(),
                ).s.neg_spec(),
            )
        }
    }

    /// The motor that carries one line onto the other, twice over, by its closed form.
    pub open spec fn mul_spec(self, rhs: Self) -> Motor<T> {
        Motor {
            s: self.e1pn.mul_spec(rhs.e1pn).add_spec(self.e2pn.mul_spec(rhs.e2pn)).add_spec(
                self.e3pn.mul_spec(rhs.e3pn),
            ),
            e12: self.e1pn.mul_spec(rhs.e2pn).sub_spec(self.e2pn.mul_spec(rhs.e1pn)),
            e13: self.e1pn.mul_spec(rhs.e3pn).sub_spec(self.e3pn.mul_spec(rhs.e1pn)),
            e23: self.e2pn.mul_spec(rhs.e3pn).sub_spec(self.e3pn.mul_spec(rhs.e2pn)),
            e1i: self.e12i.mul_spec(rhs.e2pn).sub_spec(self.e2pn.mul_spec(rhs.e12i)).sub_spec(
                self.e13i.mul_spec(rhs.e3pn),
            ).add_spec(self.e3pn.mul_spec(rhs.e13i)),
            e2i: self.e12i.mul_spec(rhs.e1pn).sub_spec(self.e1pn.mul_spec(rhs.e12i)).sub_spec(
                self.e23i.mul_spec(rhs.e3pn),
            ).add_spec(self.e3pn.mul_spec(rhs.e23i)),
            e3i: self.e13i.mul_spec(rhs.e1pn).sub_spec(self.e1pn.mul_spec(rhs.e13i)).add_spec(
                self.e23i.mul_spec(rhs.e2pn),
            ).sub_spec(self.e2pn.mul_spec(rhs.e23i)),
            e123i: self.e12i.neg_spec().mul_spec(rhs.e3pn).sub_spec(
                self.e3pn.mul_spec(rhs.e12i),
            ).add_spec(self.e13i.mul_spec(rhs.e2pn)).add_spec(
                self.e2pn.mul_spec(rhs.e13i),
            ).sub_spec(self.e1pn.mul_spec(rhs.e23i)).sub_spec(self.e23i.mul_spec(rhs.e1pn)),
        }
    }

    /// The direction of the line as a free vector.
    pub fn into_vector(self) -> (r: Vector<T>)
        ensures
            r == self.into_vector_spec(),
    {
        let mink = R410::<T>::epn();
        Vector::from_mv(mink.bitor(self.into_mv()))
    }

    /// The direction of the line.
    pub fn direction(self) -> (r: DVector<T>)
        ensures
            r == self.direction_spec(),
    {
        DVector::from_mv(S::infinity::<T>().neg().bitor(self.into_mv()))
    }

    /// Gets a relative coordinate for a point's position on this line. Exact value may not be
    /// meaningful, but can be used for comparisions.
    /// Returns None if the point is infinite.
    pub fn position_on(self, p: Point<T, S>) -> (r: Option<T>)
        ensures
            r == self.position_on_spec(p),
    {
        if p.inner(Point::<T, S>::ni()).0.is_zero() {
            None
        } else {
            Some(self.into_vector().into_mv().bitor(p.normalize().into_mv()).s.neg())
        }
    }

    /// The motor that carries `rhs` onto `self`, twice over.
    pub fn mul(self, rhs: Self) -> (r: Motor<T>)
        ensures
            r == self.mul_spec(rhs),
    {
        Motor {
            s: self.e1pn.mul(rhs.e1pn).add(self.e2pn.mul(rhs.e2pn)).add(self.e3pn.mul(rhs.e3pn)),
            e12: self.e1pn.mul(rhs.e2pn).sub(self.e2pn.mul(rhs.e1pn)),
            e13: self.e1pn.mul(rhs.e3pn).sub(self.e3pn.mul(rhs.e1pn)),
            e23: self.e2pn.mul(rhs.e3pn).sub(self.e3pn.mul(rhs.e2pn)),
            e1i: self.e12i.mul(rhs.e2pn).sub(self.e2pn.mul(rhs.e12i)).sub(
                self.e13i.mul(rhs.e3pn),
            ).add(self.e3pn.mul(rhs.e13i)),
            e2i: self.e12i.mul(rhs.e1pn).sub(self.e1pn.mul(rhs.e12i)).sub(
                self.e23i.mul(rhs.e3pn),
            ).add(self.e3pn.mul(rhs.e23i)),
            e3i: self.e13i.mul(rhs.e1pn).sub(self.e1pn.mul(rhs.e13i)).add(
                self.e23i.mul(rhs.e2pn),
            ).sub(self.e2pn.mul(rhs.e23i)),
            e123i: self.e12i.neg().mul(rhs.e3pn).sub(self.e3pn.mul(rhs.e12i)).add(
                self.e13i.mul(rhs.e2pn),
            ).add(self.e2pn.mul(rhs.e13i)).sub(self.e1pn.mul(rhs.e23i)).sub(
                self.e23i.mul(rhs.e1pn),
            ),
        }
    }
}

impl<T: Field, S: DualSpace> Dual for Line<T, S> {
    type Output = DLine<T, S::Dual>;
}

} // verus!
