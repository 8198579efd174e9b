//! The general multivector: one coefficient for each of the 32 basis blades.

use vstd::prelude::*;
use crate::blades::blade_grade;
use crate::blades::count_spec;
use crate::field::Field;

pub mod exact;
pub mod geometric;
pub mod inner;
pub mod outer;
pub mod products;
pub mod roots;
pub mod signature;
pub mod sparse;
pub mod units;

verus! {

/// The general multivector. The compact geometric types are sparse projections of it, and
/// every operation on them is defined through it.
///
/// A field holds the coefficient of the blade it is named after; the fields stand in the
/// order of the enumeration of the blades.
#[derive(Default, Debug, Clone, Copy, PartialEq)]
pub struct R410<T> {
    pub s: T,
    pub e1: T,
    pub e2: T,
    pub e3: T,
    pub ep: T,
    pub en: T,
    pub e12: T,
    pub e13: T,
    pub e1p: T,
    pub e1n: T,
    pub e23: T,
    pub e2p: T,
    pub e2n: T,
    pub e3p: T,
    pub e3n: T,
    pub epn: T,
    pub e123: T,
    pub e12p: T,
    pub e12n: T,
    pub e13p: T,
    pub e13n: T,
    pub e1pn: T,
    pub e23p: T,
    pub e23n: T,
    pub e2pn: T,
    pub e3pn: T,
    pub e123p: T,
    pub e123n: T,
    pub e12pn: T,
    pub e13pn: T,
    pub e23pn: T,
    pub e123pn: T,
}

impl<T> R410<T> {
    /// The coefficient of the blade at place `i` of the enumeration.
    pub open spec fn coeff(self, i: int) -> T {
        if i == 0 {
            self.s
        } else if i == 1 {
            self.e1
        } else if i == 2 {
            self.e2
        } else if i == 3 {
            self.e3
        } else if i == 4 {
            self.ep
        } else if i == 5 {
            self.en
        } else if i == 6 {
            self.e12
        } else if i == 7 {
            self.e13
        } else if i == 8 {
            self.e1p
        } else if i == 9 {
            self.e1n
        } else if i == 10 {
            self.e23
        } else if i == 11 {
            self.e2p
        } else if i == 12 {
            self.e2n
        } else if i == 13 {
            self.e3p
        } else if i == 14 {
            self.e3n
        } else if i == 15 {
            self.epn
        } else if i == 16 {
            self.e123
        } else if i == 17 {
            self.e12p
        } else if i == 18 {
            self.e12n
        } else if i == 19 {
            self.e13p
        } else if i == 20 {
            self.e13n
        } else if i == 21 {
            self.e1pn
        } else if i == 22 {
            self.e23p
        } else if i == 23 {
            self.e23n
        } else if i == 24 {
            self.e2pn
        } else if i == 25 {
            self.e3pn
        } else if i == 26 {
            self.e123p
        } else if i == 27 {
            self.e123n
        } else if i == 28 {
            self.e12pn
        } else if i == 29 {
            self.e13pn
        } else if i == 30 {
            self.e23pn
        } else {
            self.e123pn
        }
    }

    /// The multivector whose coefficient at each place `i` is `f(i)`.
    pub open spec fn build(f: spec_fn(int) -> T) -> Self {
        R410 {
            s: f(0),
            e1: f(1),
            e2: f(2),
            e3: f(3),
            ep: f(4),
            en: f(5),
            e12: f(6),
            e13: f(7),
            e1p: f(8),
            e1n: f(9),
            e23: f(10),
            e2p: f(11),
            e2n: f(12),
            e3p: f(13),
            e3n: f(14),
            epn: f(15),
            e123: f(16),
            e12p: f(17),
            e12n: f(18),
            e13p: f(19),
            e13n: f(20),
            e1pn: f(21),
            e23p: f(22),
            e23n: f(23),
            e2pn: f(24),
            e3pn: f(25),
            e123p: f(26),
            e123n: f(27),
            e12pn: f(28),
            e13pn: f(29),
            e23pn: f(30),
            e123pn: f(31),
        }
    }
}

impl<T> View for R410<T> {
    type V = Seq<T>;

    /// The 32 coefficients, in the order of the enumeration of the blades.
    open spec fn view(&self) -> Seq<T> {
        Seq::new(32, |i: int| self.coeff(i))
    }
}

/// Whether reversing the order of its generators negates a blade of grade `k`: there are
/// `k (k - 1) / 2` swaps to make, an odd number where `k` leaves 2 or 3 when divided by 4.
pub open spec fn reverse_negates(k: int) -> bool {
    k % 4 == 2 || k % 4 == 3
}

/// Whether negating each of its generators negates a blade of grade `k`.
pub open spec fn involute_negates(k: int) -> bool {
    k % 2 == 1
}

/// Whether Clifford conjugation, reversal together with the main involution, negates a blade
/// of grade `k`.
pub open spec fn conjugate_negates(k: int) -> bool {
    reverse_negates(k) != involute_negates(k)
}

impl<T: Field> R410<T> {
    /// The multivector with every coefficient zero.
    pub open spec fn zero_spec() -> Self {
        Self::build(|i: int| T::zero_spec())
    }

    /// The scalar `s` as a multivector.
    pub open spec fn from_scalar_spec(s: T) -> Self {
        Self::build(
            |i: int|
                if i == 0 {
                    s
                } else {
                    T::zero_spec()
                },
        )
    }

    /// The unit blade at place `k`: coefficient one there, zero elsewhere.
    pub open spec fn basis_spec(k: int) -> Self {
        Self::build(
            |i: int|
                if i == k {
                    T::one_spec()
                } else {
                    T::zero_spec()
                },
        )
    }

    /// Each coefficient negated where `negates` says so of its blade's grade.
    pub open spec fn grade_signs(self, negates: spec_fn(int) -> bool) -> Self {
        Self::build(
            |i: int|
                if negates(blade_grade(i)) {
                    self.coeff(i).neg_spec()
                } else {
                    self.coeff(i)
                },
        )
    }

    pub open spec fn reverse_spec(self) -> Self {
        self.grade_signs(|k: int| reverse_negates(k))
    }

    pub open spec fn conjugate_spec(self) -> Self {
        self.grade_signs(|k: int| conjugate_negates(k))
    }

    pub open spec fn involute_spec(self) -> Self {
        self.grade_signs(|k: int| involute_negates(k))
    }

    /// The coefficient-wise sum.
    pub open spec fn add_spec(self, b: Self) -> Self {
        Self::build(|i: int| self.coeff(i).add_spec(b.coeff(i)))
    }

    /// Whether every coefficient is zero.
    pub open spec fn is_zero_spec(self) -> bool {
        &&& self.s.is_zero_spec()
        &&& self.e1.is_zero_spec()
        &&& self.e2.is_zero_spec()
        &&& self.e3.is_zero_spec()
        &&& self.ep.is_zero_spec()
        &&& self.en.is_zero_spec()
        &&& self.e12.is_zero_spec()
        &&& self.e13.is_zero_spec()
        &&& self.e1p.is_zero_spec()
        &&& self.e1n.is_zero_spec()
        &&& self.e23.is_zero_spec()
        &&& self.e2p.is_zero_spec()
        &&& self.e2n.is_zero_spec()
        &&& self.e3p.is_zero_spec()
        &&& self.e3n.is_zero_spec()
        &&& self.epn.is_zero_spec()
        &&& self.e123.is_zero_spec()
        &&& self.e12p.is_zero_spec()
        &&& self.e12n.is_zero_spec()
        &&& self.e13p.is_zero_spec()
        &&& self.e13n.is_zero_spec()
        &&& self.e1pn.is_zero_spec()
        &&& self.e23p.is_zero_spec()
        &&& self.e23n.is_zero_spec()
        &&& self.e2pn.is_zero_spec()
        &&& self.e3pn.is_zero_spec()
        &&& self.e123p.is_zero_spec()
        &&& self.e123n.is_zero_spec()
        &&& self.e12pn.is_zero_spec()
        &&& self.e13pn.is_zero_spec()
        &&& self.e23pn.is_zero_spec()
        &&& self.e123pn.is_zero_spec()
    }

    /// `self` with every coefficient multiplied by the scalar `t`, as the geometric product
    /// with `t`.
    pub open spec fn mul_scalar_spec(self, t: T) -> Self {
        self.mul_spec(Self::from_scalar_spec(t))
    }

    /// `self` with the scalar `t` added to its scalar part.
    pub open spec fn add_scalar_spec(self, t: T) -> Self {
        self.add_spec(Self::from_scalar_spec(t))
    }

    /// The negative, the product with `-1`.
    pub open spec fn neg_spec(self) -> Self {
        self.mul_scalar_spec(T::one_spec().neg_spec())
    }

    /// The difference, `self + (-b)`.
    pub open spec fn sub_spec(self, b: Self) -> Self {
        self.add_spec(b.neg_spec())
    }

    /// `self` with the scalar `t` taken from its scalar part.
    pub open spec fn sub_scalar_spec(self, t: T) -> Self {
        self.sub_spec(Self::from_scalar_spec(t))
    }

    /// `self` divided by the scalar `t`: multiplied by its inverse.
    pub open spec fn div_scalar_spec(self, t: T) -> Self {
        self.mul_scalar_spec(t.recip_spec())
    }

    /// The squared norm: the scalar part of `self * conjugate(self)`.
    pub open spec fn norm_squared_spec(self) -> T {
        self.mul_spec(self.conjugate_spec()).s
    }

    /// The norm: the root of the absolute value of the squared norm.
    pub open spec fn norm_spec(self) -> T {
        self.norm_squared_spec().abs_spec().sqrt_spec()
    }

    /// The inverse: the conjugate divided by the squared norm.
    pub open spec fn recip_spec(self) -> Self {
        self.conjugate_spec().div_scalar_spec(self.norm_squared_spec())
    }

    /// The inverse; absent where the squared norm is zero.
    pub open spec fn try_recip_spec(self) -> Option<Self> {
        if self.norm_squared_spec().is_zero_spec() {
            None
        } else {
            Some(self.recip_spec())
        }
    }

    /// The quotient, `self` times the inverse of `b`.
    pub open spec fn div_spec(self, b: Self) -> Self {
        self.mul_spec(b.recip_spec())
    }

    /// The dual: `self` divided by the unit pseudoscalar.
    pub open spec fn dual_spec(self) -> Self {
        self.div_spec(Self::basis_spec(31))
    }

    /// What `self` is the dual of: `self` times the unit pseudoscalar.
    pub open spec fn undual_spec(self) -> Self {
        self.mul_spec(Self::basis_spec(31))
    }

    /// The regressive product, the dual of the inner product of the dual of `self` with `b`.
    pub open spec fn regressive_spec(self, b: Self) -> Self {
        self.dual_spec().inner_spec(b).dual_spec()
    }

    /// The norm of the dual.
    pub open spec fn inorm_spec(self) -> T {
        self.dual_spec().norm_spec()
    }

    /// `self` divided by its norm.
    pub open spec fn normalized_spec(self) -> Self {
        self.div_scalar_spec(self.norm_spec())
    }

    /// `obj` carried along by `self`: `reverse(self) * obj * self`.
    pub open spec fn sandwich_spec(self, obj: Self) -> Self {
        self.reverse_spec().mul_spec(obj).mul_spec(self)
    }

    /// `obj` carried along by the reverse of `self`: `self * obj * reverse(self)`.
    pub open spec fn reversed_sandwich_spec(self, obj: Self) -> Self {
        self.mul_spec(obj).mul_spec(self.reverse_spec())
    }

    /// The multivector with every coefficient zero.
    pub fn zero() -> (r: Self)
        ensures
            r == Self::zero_spec(),
    {
        Self {
            s: T::zero(),
            e1: T::zero(),
            e2: T::zero(),
            e3: T::zero(),
            ep: T::zero(),
            en: T::zero(),
            e12: T::zero(),
            e13: T::zero(),
            e1p: T::zero(),
            e1n: T::zero(),
            e23: T::zero(),
            e2p: T::zero(),
            e2n: T::zero(),
            e3p: T::zero(),
            e3n: T::zero(),
            epn: T::zero(),
            e123: T::zero(),
            e12p: T::zero(),
            e12n: T::zero(),
            e13p: T::zero(),
            e13n: T::zero(),
            e1pn: T::zero(),
            e23p: T::zero(),
            e23n: T::zero(),
            e2pn: T::zero(),
            e3pn: T::zero(),
            e123p: T::zero(),
            e123n: T::zero(),
            e12pn: T::zero(),
            e13pn: T::zero(),
            e23pn: T::zero(),
            e123pn: T::zero(),
        }
    }

    /// Whether every coefficient is zero.
    pub fn is_zero(&self) -> (r: bool)
        ensures
            r == self.is_zero_spec(),
    {
        self.s.is_zero()
            && self.e1.is_zero()
            && self.e2.is_zero()
            && self.e3.is_zero()
            && self.ep.is_zero()
            && self.en.is_zero()
            && self.e12.is_zero()
            && self.e13.is_zero()
            && self.e1p.is_zero()
            && self.e1n.is_zero()
            && self.e23.is_zero()
            && self.e2p.is_zero()
            && self.e2n.is_zero()
            && self.e3p.is_zero()
            && self.e3n.is_zero()
            && self.epn.is_zero()
            && self.e123.is_zero()
            && self.e12p.is_zero()
            && self.e12n.is_zero()
            && self.e13p.is_zero()
            && self.e13n.is_zero()
            && self.e1pn.is_zero()
            && self.e23p.is_zero()
            && self.e23n.is_zero()
            && self.e2pn.is_zero()
            && self.e3pn.is_zero()
            && self.e123p.is_zero()
            && self.e123n.is_zero()
            && self.e12pn.is_zero()
            && self.e13pn.is_zero()
            && self.e23pn.is_zero()
            && self.e123pn.is_zero()
    }

    /// The scalar one.
    pub fn one() -> (r: Self)
        ensures
            r == Self::basis_spec(0),
    {
        Self { s: T::one(), ..Self::zero() }
    }

    /// The scalar `s` as a multivector.
    pub fn from_scalar(s: T) -> (r: Self)
        ensures
            r == Self::from_scalar_spec(s),
    {
        Self { s, ..Self::zero() }
    }

    /// The unit blade `e1`.
    pub fn e1() -> (r: Self)
        ensures
            r == Self::basis_spec(1),
    {
        Self { e1: T::one(), ..Self::zero() }
    }

    /// The unit blade `e2`.
    pub fn e2() -> (r: Self)
        ensures
            r == Self::basis_spec(2),
    {
        Self { e2: T::one(), ..Self::zero() }
    }

    /// The unit blade `e3`.
    pub fn e3() -> (r: Self)
        ensures
            r == Self::basis_spec(3),
    {
        Self { e3: T::one(), ..Self::zero() }
    }

    /// The unit blade `ep`.
    pub fn ep() -> (r: Self)
        ensures
            r == Self::basis_spec(4),
    {
        Self { ep: T::one(), ..Self::zero() }
    }

    /// The unit blade `en`.
    pub fn en() -> (r: Self)
        ensures
            r == Self::basis_spec(5),
    {
        Self { en: T::one(), ..Self::zero() }
    }

    /// The unit blade `e12`.
    pub fn e12() -> (r: Self)
        ensures
            r == Self::basis_spec(6),
    {
        Self { e12: T::one(), ..Self::zero() }
    }

    /// The unit blade `e13`.
    pub fn e13() -> (r: Self)
        ensures
            r == Self::basis_spec(7),
    {
        Self { e13: T::one(), ..Self::zero() }
    }

    /// The unit blade `e1p`.
    pub fn e1p() -> (r: Self)
        ensures
            r == Self::basis_spec(8),
    {
        Self { e1p: T::one(), ..Self::zero() }
    }

    /// The unit blade `e1n`.
    pub fn e1n() -> (r: Self)
        ensures
            r == Self::basis_spec(9),
    {
        Self { e1n: T::one(), ..Self::zero() }
    }

    /// The unit blade `e23`.
    pub fn e23() -> (r: Self)
        ensures
            r == Self::basis_spec(10),
    {
        Self { e23: T::one(), ..Self::zero() }
    }

    /// The unit blade `e2p`.
    pub fn e2p() -> (r: Self)
        ensures
            r == Self::basis_spec(11),
    {
        Self { e2p: T::one(), ..Self::zero() }
    }

    /// The unit blade `e2n`.
    pub fn e2n() -> (r: Self)
        ensures
            r == Self::basis_spec(12),
    {
        Self { e2n: T::one(), ..Self::zero() }
    }

    /// The unit blade `e3p`.
    pub fn e3p() -> (r: Self)
        ensures
            r == Self::basis_spec(13),
    {
        Self { e3p: T::one(), ..Self::zero() }
    }

    /// The unit blade `e3n`.
    pub fn e3n() -> (r: Self)
        ensures
            r == Self::basis_spec(14),
    {
        Self { e3n: T::one(), ..Self::zero() }
    }

    /// The unit blade `epn`.
    pub fn epn() -> (r: Self)
        ensures
            r == Self::basis_spec(15),
    {
        Self { epn: T::one(), ..Self::zero() }
    }

    /// The unit blade `e123`.
    pub fn e123() -> (r: Self)
        ensures
            r == Self::basis_spec(16),
    {
        Self { e123: T::one(), ..Self::zero() }
    }

    /// The unit blade `e12p`.
    pub fn e12p() -> (r: Self)
        ensures
            r == Self::basis_spec(17),
    {
        Self { e12p: T::one(), ..Self::zero() }
    }

    /// The unit blade `e12n`.
    pub fn e12n() -> (r: Self)
        ensures
            r == Self::basis_spec(18),
    {
        Self { e12n: T::one(), ..Self::zero() }
    }

    /// The unit blade `e13p`.
    pub fn e13p() -> (r: Self)
        ensures
            r == Self::basis_spec(19),
    {
        Self { e13p: T::one(), ..Self::zero() }
    }

    /// The unit blade `e13n`.
    pub fn e13n() -> (r: Self)
        ensures
            r == Self::basis_spec(20),
    {
        Self { e13n: T::one(), ..Self::zero() }
    }

    /// The unit blade `e1pn`.
    pub fn e1pn() -> (r: Self)
        ensures
            r == Self::basis_spec(21),
    {
        Self { e1pn: T::one(), ..Self::zero() }
    }

    /// The unit blade `e23p`.
    pub fn e23p() -> (r: Self)
        ensures
            r == Self::basis_spec(22),
    {
        Self { e23p: T::one(), ..Self::zero() }
    }

    /// The unit blade `e23n`.
    pub fn e23n() -> (r: Self)
        ensures
            r == Self::basis_spec(23),
    {
        Self { e23n: T::one(), ..Self::zero() }
    }

    /// The unit blade `e2pn`.
    pub fn e2pn() -> (r: Self)
        ensures
            r == Self::basis_spec(24),
    {
        Self { e2pn: T::one(), ..Self::zero() }
    }

    /// The unit blade `e3pn`.
    pub fn e3pn() -> (r: Self)
        ensures
            r == Self::basis_spec(25),
    {
        Self { e3pn: T::one(), ..Self::zero() }
    }

    /// The unit blade `e123p`.
    pub fn e123p() -> (r: Self)
        ensures
            r == Self::basis_spec(26),
    {
        Self { e123p: T::one(), ..Self::zero() }
    }

    /// The unit blade `e123n`.
    pub fn e123n() -> (r: Self)
        ensures
            r == Self::basis_spec(27),
    {
        Self { e123n: T::one(), ..Self::zero() }
    }

    /// The unit blade `e12pn`.
    pub fn e12pn() -> (r: Self)
        ensures
            r == Self::basis_spec(28),
    {
        Self { e12pn: T::one(), ..Self::zero() }
    }

    /// The unit blade `e13pn`.
    pub fn e13pn() -> (r: Self)
        ensures
            r == Self::basis_spec(29),
    {
        Self { e13pn: T::one(), ..Self::zero() }
    }

    /// The unit blade `e23pn`.
    pub fn e23pn() -> (r: Self)
        ensures
            r == Self::basis_spec(30),
    {
        Self { e23pn: T::one(), ..Self::zero() }
    }

    /// The unit blade `e123pn`.
    pub fn e123pn() -> (r: Self)
        ensures
            r == Self::basis_spec(31),
    {
        Self { e123pn: T::one(), ..Self::zero() }
    }

    /// The unit pseudoscalar, `e123pn`.
    pub fn i() -> (r: Self)
        ensures
            r == Self::basis_spec(31),
    {
        Self::e123pn()
    }

    /// Reverses the order of the generators in every blade: negates the blades of grade `k`
    /// with `k (k - 1) / 2` odd, which are those of grade 2 and 3.
    pub fn reverse(self) -> (r: Self)
        ensures
            r == self.reverse_spec(),
    {
        proof {
            reveal_with_fuel(count_spec, 6);
        }
        Self {
            s: self.s,
            e1: self.e1,
            e2: self.e2,
            e3: self.e3,
            ep: self.ep,
            en: self.en,
            e12: self.e12.neg(),
            e13: self.e13.neg(),
            e1p: self.e1p.neg(),
            e1n: self.e1n.neg(),
            e23: self.e23.neg(),
            e2p: self.e2p.neg(),
            e2n: self.e2n.neg(),
            e3p: self.e3p.neg(),
            e3n: self.e3n.neg(),
            epn: self.epn.neg(),
            e123: self.e123.neg(),
            e12p: self.e12p.neg(),
            e12n: self.e12n.neg(),
            e13p: self.e13p.neg(),
            e13n: self.e13n.neg(),
            e1pn: self.e1pn.neg(),
            e23p: self.e23p.neg(),
            e23n: self.e23n.neg(),
            e2pn: self.e2pn.neg(),
            e3pn: self.e3pn.neg(),
            e123p: self.e123p,
            e123n: self.e123n,
            e12pn: self.e12pn,
            e13pn: self.e13pn,
            e23pn: self.e23pn,
            e123pn: self.e123pn,
        }
    }

    /// Clifford conjugation: negates the blades of grade 1, 2 and 5.
    pub fn conjugate(self) -> (r: Self)
        ensures
            r == self.conjugate_spec(),
    {
        proof {
            reveal_with_fuel(count_spec, 6);
        }
        Self {
            s: self.s,
            e1: self.e1.neg(),
            e2: self.e2.neg(),
            e3: self.e3.neg(),
            ep: self.ep.neg(),
            en: self.en.neg(),
            e12: self.e12.neg(),
            e13: self.e13.neg(),
            e1p: self.e1p.neg(),
            e1n: self.e1n.neg(),
            e23: self.e23.neg(),
            e2p: self.e2p.neg(),
            e2n: self.e2n.neg(),
            e3p: self.e3p.neg(),
            e3n: self.e3n.neg(),
            epn: self.epn.neg(),
            e123: self.e123,
            e12p: self.e12p,
            e12n: self.e12n,
            e13p: self.e13p,
            e13n: self.e13n,
            e1pn: self.e1pn,
            e23p: self.e23p,
            e23n: self.e23n,
            e2pn: self.e2pn,
            e3pn: self.e3pn,
            e123p: self.e123p,
            e123n: self.e123n,
            e12pn: self.e12pn,
            e13pn: self.e13pn,
            e23pn: self.e23pn,
            e123pn: self.e123pn.neg(),
        }
    }

    /// The main involution: negates the blades of odd grade.
    pub fn involute(self) -> (r: Self)
        ensures
            r == self.involute_spec(),
    {
        proof {
            reveal_with_fuel(count_spec, 6);
        }
        Self {
            s: self.s,
            e1: self.e1.neg(),
            e2: self.e2.neg(),
            e3: self.e3.neg(),
            ep: self.ep.neg(),
            en: self.en.neg(),
            e12: self.e12,
            e13: self.e13,
            e1p: self.e1p,
            e1n: self.e1n,
            e23: self.e23,
            e2p: self.e2p,
            e2n: self.e2n,
            e3p: self.e3p,
            e3n: self.e3n,
            epn: self.epn,
            e123: self.e123.neg(),
            e12p: self.e12p.neg(),
            e12n: self.e12n.neg(),
            e13p: self.e13p.neg(),
            e13n: self.e13n.neg(),
            e1pn: self.e1pn.neg(),
            e23p: self.e23p.neg(),
            e23n: self.e23n.neg(),
            e2pn: self.e2pn.neg(),
            e3pn: self.e3pn.neg(),
            e123p: self.e123p,
            e123n: self.e123n,
            e12pn: self.e12pn,
            e13pn: self.e13pn,
            e23pn: self.e23pn,
            e123pn: self.e123pn.neg(),
        }
    }

    /// The coefficient-wise sum.
    pub fn add(self, b: Self) -> (r: Self)
        ensures
            r == self.add_spec(b),
    {
        let a = self;
        Self {
            s: a.s.add(b.s),
            e1: a.e1.add(b.e1),
            e2: a.e2.add(b.e2),
            e3: a.e3.add(b.e3),
            ep: a.ep.add(b.ep),
            en: a.en.add(b.en),
            e12: a.e12.add(b.e12),
            e13: a.e13.add(b.e13),
            e1p: a.e1p.add(b.e1p),
            e1n: a.e1n.add(b.e1n),
            e23: a.e23.add(b.e23),
            e2p: a.e2p.add(b.e2p),
            e2n: a.e2n.add(b.e2n),
            e3p: a.e3p.add(b.e3p),
            e3n: a.e3n.add(b.e3n),
            epn: a.epn.add(b.epn),
            e123: a.e123.add(b.e123),
            e12p: a.e12p.add(b.e12p),
            e12n: a.e12n.add(b.e12n),
            e13p: a.e13p.add(b.e13p),
            e13n: a.e13n.add(b.e13n),
            e1pn: a.e1pn.add(b.e1pn),
            e23p: a.e23p.add(b.e23p),
            e23n: a.e23n.add(b.e23n),
            e2pn: a.e2pn.add(b.e2pn),
            e3pn: a.e3pn.add(b.e3pn),
            e123p: a.e123p.add(b.e123p),
            e123n: a.e123n.add(b.e123n),
            e12pn: a.e12pn.add(b.e12pn),
            e13pn: a.e13pn.add(b.e13pn),
            e23pn: a.e23pn.add(b.e23pn),
            e123pn: a.e123pn.add(b.e123pn),
        }
    }

    /// `self` with every coefficient multiplied by the scalar `t`: the geometric product
    /// with `t`.
    pub fn mul_scalar(self, t: T) -> (r: Self)
        ensures
            r == self.mul_scalar_spec(t),
    {
        self.mul(Self::from_scalar(t))
    }

    /// `self` with the scalar `t` added to its scalar part.
    pub fn add_scalar(self, t: T) -> (r: Self)
        ensures
            r == self.add_scalar_spec(t),
    {
        self.add(Self::from_scalar(t))
    }

    /// The negative, `-self`: the product with `-1`.
    pub fn neg(self) -> (r: Self)
        ensures
            r == self.neg_spec(),
    {
        self.mul_scalar(T::one().neg())
    }

    /// The difference, `self + (-b)`.
    pub fn sub(self, b: Self) -> (r: Self)
        ensures
            r == self.sub_spec(b),
    {
        self.add(b.neg())
    }

    /// `self` with the scalar `t` taken from its scalar part.
    pub fn sub_scalar(self, t: T) -> (r: Self)
        ensures
            r == self.sub_scalar_spec(t),
    {
        self.sub(Self::from_scalar(t))
    }

    /// `self` divided by the scalar `t`: multiplied by its inverse. Where `t` is zero the
    /// result holds whatever the scalar's inverse of zero gives.
    pub fn div_scalar(self, t: T) -> (r: Self)
        ensures
            r == self.div_scalar_spec(t),
    {
        self.mul_scalar(t.recip())
    }

    /// The scalar `t` minus `self`.
    pub fn sub_from(self, t: T) -> (r: Self)
        ensures
            r == self.neg_spec().add_scalar_spec(t),
    {
        self.neg().add_scalar(t)
    }

    /// The scalar `t` divided by `self`.
    pub fn div_into(self, t: T) -> (r: Self)
        ensures
            r == self.recip_spec().mul_scalar_spec(t),
    {
        self.recip().mul_scalar(t)
    }

    /// The squared norm: the scalar part of `self * conjugate(self)`.
    pub fn norm_squared(self) -> (r: T)
        ensures
            r == self.norm_squared_spec(),
    {
        self.mul(self.conjugate()).s
    }

    /// The norm: the root of the absolute value of the squared norm. The absolute value
    /// guards against a squared norm that rounding has pushed below zero.
    pub fn norm(self) -> (r: T)
        ensures
            r == self.norm_spec(),
    {
        self.norm_squared().abs().sqrt()
    }

    /// The inverse: the conjugate divided by the squared norm. It is on the caller to ask
    /// this only of a multivector whose squared norm is not zero.
    pub fn recip(self) -> (r: Self)
        ensures
            r == self.recip_spec(),
    {
        self.conjugate().div_scalar(self.norm_squared())
    }

    /// The inverse; absent where the squared norm is zero.
    pub fn try_recip(self) -> (r: Option<Self>)
        ensures
            r == self.try_recip_spec(),
    {
        if self.norm_squared().is_zero() {
            None
        } else {
            Some(self.recip())
        }
    }

    /// The quotient, `self / b`: `self` times the inverse of `b`.
    pub fn div(self, b: Self) -> (r: Self)
        ensures
            r == self.div_spec(b),
    {
        self.mul(b.recip())
    }

    /// The Poincare dual: `self` divided by the unit pseudoscalar.
    pub fn dual(self) -> (r: Self)
        ensures
            r == self.dual_spec(),
    {
        self.div(Self::i())
    }

    /// The dual, `!self`.
    pub fn not(self) -> (r: Self)
        ensures
            r == self.dual_spec(),
    {
        self.dual()
    }

    /// What `self` is the dual of: `self` times the unit pseudoscalar.
    pub fn undual(self) -> (r: Self)
        ensures
            r == self.undual_spec(),
    {
        self.mul(Self::i())
    }

    /// The regressive product, `self & b`: the dual of the inner product of the dual of
    /// `self` with `b`.
    pub fn bitand(self, b: R410<T>) -> (r: Self)
        ensures
            r == self.regressive_spec(b),
    {
        self.dual().bitor(b).dual()
    }

    /// The norm of the dual.
    pub fn inorm(self) -> (r: T)
        ensures
            r == self.inorm_spec(),
    {
        self.dual().norm()
    }

    /// `self` divided by its norm.
    pub fn normalized(self) -> (r: Self)
        ensures
            r == self.normalized_spec(),
    {
        self.div_scalar(self.norm())
    }

    /// `obj` carried along by `self`, `self >> obj`: the product `reverse(self) * obj * self`.
    pub fn sandwich(self, obj: Self) -> (r: Self)
        ensures
            r == self.sandwich_spec(obj),
    {
        self.reverse().mul(obj).mul(self)
    }

    /// `obj` carried along by the reverse of `self`: the product `self * obj * reverse(self)`.
    pub fn reversed_sandwich(self, obj: Self) -> (r: Self)
        ensures
            r == self.reversed_sandwich_spec(obj),
    {
        self.mul(obj).mul(self.reverse())
    }
}

/// A coefficient of a multivector after a change of signs by grade.
pub proof fn lemma_grade_signs_coeff<T: Field>(a: R410<T>, negates: spec_fn(int) -> bool, c: int)
    requires
        0 <= c < 32,
    ensures
        a.grade_signs(negates).coeff(c) == (if negates(blade_grade(c)) {
            a.coeff(c).neg_spec()
        } else {
            a.coeff(c)
        }),
{
}

} // verus!
