//! Single coefficients of the geometric product of sparse real multivectors, spelled out.
//!
//! A vector has coefficients on `e1 e2 e3` only, a bivector on `e12 e13 e23`, a trivector on
//! `e123`, an infinity on `ep en`, a point on `e1 e2 e3 ep en`, a translator on the scalar and
//! on the six blades `e1p ... e3n`, a flat point on those six and on `epn`, a sphere on the
//! five blades of grade four, a pair on the ten blades of grade two. A sphere swept to
//! infinity is the product of a sphere with an infinity. Of the 32 terms of a coefficient of
//! their products only a few are not zero.

use vstd::prelude::*;
use crate::blades::blade_times;
use crate::r410::exact::lemma_blade_times_in_range;
use crate::r410::exact::lemma_real_sum_vanishes;
use crate::r410::exact::lemma_step_add;
use crate::r410::exact::lemma_step_first;
use crate::r410::exact::lemma_step_skip;
use crate::r410::exact::lemma_step_sub;
use crate::r410::exact::lemma_step_zero;
use crate::r410::exact::lemma_zero_times;
use crate::r410::exact::real_sum;
use crate::r410::products::keeps;
use crate::r410::products::Product;
use crate::r410::units::lemma_blade_times_solves;
use crate::r410::R410;

verus! {

/// Whether every coefficient of `a` outside the blades in `support` is zero.
pub open spec fn zero_outside(a: R410<real>, support: spec_fn(int) -> bool) -> bool {
    forall|i: int| 0 <= i < 32 && !support(i) ==> #[trigger] a.coeff(i) == 0real
}

/// Whether the blade at place `i` is one of a vector.
pub open spec fn vector_blade(i: int) -> bool {
    i == 1 || i == 2 || i == 3
}

/// Whether the blade at place `i` is one of an infinity.
pub open spec fn infinity_blade(i: int) -> bool {
    i == 4 || i == 5
}

/// Whether the blade at place `i` is one of a point.
pub open spec fn point_blade(i: int) -> bool {
    i == 1 || i == 2 || i == 3 || i == 4 || i == 5
}

/// Whether the blade at place `i` is one of a translator.
pub open spec fn translator_blade(i: int) -> bool {
    i == 0 || i == 8 || i == 9 || i == 11 || i == 12 || i == 13 || i == 14
}

/// Whether the blade at place `i` is one of a flat.
pub open spec fn flat_blade(i: int) -> bool {
    i == 8 || i == 9 || i == 11 || i == 12 || i == 13 || i == 14 || i == 15
}

/// Whether the blade at place `i` is one of a sphere.
pub open spec fn sphere_blade(i: int) -> bool {
    i == 26 || i == 27 || i == 28 || i == 29 || i == 30
}

/// Whether the blade at place `i` is one of a swept.
pub open spec fn swept_blade(i: int) -> bool {
    i == 16 || i == 17 || i == 18 || i == 19 || i == 20 || i == 22 || i == 23 || i == 31
}

/// Whether the blade at place `i` is one of a scalar.
pub open spec fn scalar_blade(i: int) -> bool {
    i == 0
}

/// Whether the blade at place `i` is one of an odd.
pub open spec fn odd_blade(i: int) -> bool {
    i == 1 || i == 2 || i == 3 || i == 4 || i == 5 || i == 17 || i == 18 || i == 19 || i == 20 || i == 21 || i == 22 || i == 23 || i == 24 || i == 25
}

/// Whether the blade at place `i` is one of a bivector.
pub open spec fn bivector_blade(i: int) -> bool {
    i == 6 || i == 7 || i == 10
}

/// Whether the blade at place `i` is one of a trivector.
pub open spec fn trivector_blade(i: int) -> bool {
    i == 16
}

/// Whether the blade at place `i` is one of a pair.
pub open spec fn pair_blade(i: int) -> bool {
    i == 6 || i == 7 || i == 8 || i == 9 || i == 10 || i == 11 || i == 12 || i == 13 || i == 14 || i == 15
}

/// The coefficient of `e1p` in the product of a vector with an infinity.
pub proof fn lemma_vector_infinity_e1p(a: R410<real>, b: R410<real>)
    requires
        zero_outside(a, |i: int| vector_blade(i)),
        zero_outside(b, |i: int| infinity_blade(i)),
    ensures
        real_sum(Product::Geometric, a, b, 8, 31) == b.ep * a.e1,
{
    lemma_step_first(Product::Geometric, a, b, 8);
    lemma_zero_times(b.e1p, a.s);
    lemma_step_add(Product::Geometric, a, b, 8, 1, 4);
    lemma_step_zero(Product::Geometric, a, b, 8, 2, 17);
    lemma_step_zero(Product::Geometric, a, b, 8, 3, 19);
    lemma_step_zero(Product::Geometric, a, b, 8, 4, 1);
    lemma_step_zero(Product::Geometric, a, b, 8, 5, 21);
    lemma_step_zero(Product::Geometric, a, b, 8, 6, 11);
    lemma_step_zero(Product::Geometric, a, b, 8, 7, 13);
    lemma_step_zero(Product::Geometric, a, b, 8, 8, 0);
    lemma_step_zero(Product::Geometric, a, b, 8, 9, 15);
    lemma_step_zero(Product::Geometric, a, b, 8, 10, 26);
    lemma_step_zero(Product::Geometric, a, b, 8, 11, 6);
    lemma_step_zero(Product::Geometric, a, b, 8, 12, 28);
    lemma_step_zero(Product::Geometric, a, b, 8, 13, 7);
    lemma_step_zero(Product::Geometric, a, b, 8, 14, 29);
    lemma_step_zero(Product::Geometric, a, b, 8, 15, 9);
    lemma_step_zero(Product::Geometric, a, b, 8, 16, 22);
    lemma_step_zero(Product::Geometric, a, b, 8, 17, 2);
    lemma_step_zero(Product::Geometric, a, b, 8, 18, 24);
    lemma_step_zero(Product::Geometric, a, b, 8, 19, 3);
    lemma_step_zero(Product::Geometric, a, b, 8, 20, 25);
    lemma_step_zero(Product::Geometric, a, b, 8, 21, 5);
    lemma_step_zero(Product::Geometric, a, b, 8, 22, 16);
    lemma_step_zero(Product::Geometric, a, b, 8, 23, 31);
    lemma_step_zero(Product::Geometric, a, b, 8, 24, 18);
    lemma_step_zero(Product::Geometric, a, b, 8, 25, 20);
    lemma_step_zero(Product::Geometric, a, b, 8, 26, 10);
    lemma_step_zero(Product::Geometric, a, b, 8, 27, 30);
    lemma_step_zero(Product::Geometric, a, b, 8, 28, 12);
    lemma_step_zero(Product::Geometric, a, b, 8, 29, 14);
    lemma_step_zero(Product::Geometric, a, b, 8, 30, 27);
    lemma_step_zero(Product::Geometric, a, b, 8, 31, 23);
}

/// The coefficient of `e2p` in the product of a vector with an infinity.
pub proof fn lemma_vector_infinity_e2p(a: R410<real>, b: R410<real>)
    requires
        zero_outside(a, |i: int| vector_blade(i)),
        zero_outside(b, |i: int| infinity_blade(i)),
    ensures
        real_sum(Product::Geometric, a, b, 11, 31) == b.ep * a.e2,
{
    lemma_step_first(Product::Geometric, a, b, 11);
    lemma_zero_times(b.e2p, a.s);
    lemma_step_zero(Product::Geometric, a, b, 11, 1, 17);
    lemma_step_add(Product::Geometric, a, b, 11, 2, 4);
    lemma_step_zero(Product::Geometric, a, b, 11, 3, 22);
    lemma_step_zero(Product::Geometric, a, b, 11, 4, 2);
    lemma_step_zero(Product::Geometric, a, b, 11, 5, 24);
    lemma_step_zero(Product::Geometric, a, b, 11, 6, 8);
    lemma_step_zero(Product::Geometric, a, b, 11, 7, 26);
    lemma_step_zero(Product::Geometric, a, b, 11, 8, 6);
    lemma_step_zero(Product::Geometric, a, b, 11, 9, 28);
    lemma_step_zero(Product::Geometric, a, b, 11, 10, 13);
    lemma_step_zero(Product::Geometric, a, b, 11, 11, 0);
    lemma_step_zero(Product::Geometric, a, b, 11, 12, 15);
    lemma_step_zero(Product::Geometric, a, b, 11, 13, 10);
    lemma_step_zero(Product::Geometric, a, b, 11, 14, 30);
    lemma_step_zero(Product::Geometric, a, b, 11, 15, 12);
    lemma_step_zero(Product::Geometric, a, b, 11, 16, 19);
    lemma_step_zero(Product::Geometric, a, b, 11, 17, 1);
    lemma_step_zero(Product::Geometric, a, b, 11, 18, 21);
    lemma_step_zero(Product::Geometric, a, b, 11, 19, 16);
    lemma_step_zero(Product::Geometric, a, b, 11, 20, 31);
    lemma_step_zero(Product::Geometric, a, b, 11, 21, 18);
    lemma_step_zero(Product::Geometric, a, b, 11, 22, 3);
    lemma_step_zero(Product::Geometric, a, b, 11, 23, 25);
    lemma_step_zero(Product::Geometric, a, b, 11, 24, 5);
    lemma_step_zero(Product::Geometric, a, b, 11, 25, 23);
    lemma_step_zero(Product::Geometric, a, b, 11, 26, 7);
    lemma_step_zero(Product::Geometric, a, b, 11, 27, 29);
    lemma_step_zero(Product::Geometric, a, b, 11, 28, 9);
    lemma_step_zero(Product::Geometric, a, b, 11, 29, 27);
    lemma_step_zero(Product::Geometric, a, b, 11, 30, 14);
    lemma_step_zero(Product::Geometric, a, b, 11, 31, 20);
}

/// The coefficient of `e3p` in the product of a vector with an infinity.
pub proof fn lemma_vector_infinity_e3p(a: R410<real>, b: R410<real>)
    requires
        zero_outside(a, |i: int| vector_blade(i)),
        zero_outside(b, |i: int| infinity_blade(i)),
    ensures
        real_sum(Product::Geometric, a, b, 13, 31) == b.ep * a.e3,
{
    lemma_step_first(Product::Geometric, a, b, 13);
    lemma_zero_times(b.e3p, a.s);
    lemma_step_zero(Product::Geometric, a, b, 13, 1, 19);
    lemma_step_zero(Product::Geometric, a, b, 13, 2, 22);
    lemma_step_add(Product::Geometric, a, b, 13, 3, 4);
    lemma_step_zero(Product::Geometric, a, b, 13, 4, 3);
    lemma_step_zero(Product::Geometric, a, b, 13, 5, 25);
    lemma_step_zero(Product::Geometric, a, b, 13, 6, 26);
    lemma_step_zero(Product::Geometric, a, b, 13, 7, 8);
    lemma_step_zero(Product::Geometric, a, b, 13, 8, 7);
    lemma_step_zero(Product::Geometric, a, b, 13, 9, 29);
    lemma_step_zero(Product::Geometric, a, b, 13, 10, 11);
    lemma_step_zero(Product::Geometric, a, b, 13, 11, 10);
    lemma_step_zero(Product::Geometric, a, b, 13, 12, 30);
    lemma_step_zero(Product::Geometric, a, b, 13, 13, 0);
    lemma_step_zero(Product::Geometric, a, b, 13, 14, 15);
    lemma_step_zero(Product::Geometric, a, b, 13, 15, 14);
    lemma_step_zero(Product::Geometric, a, b, 13, 16, 17);
    lemma_step_zero(Product::Geometric, a, b, 13, 17, 16);
    lemma_step_zero(Product::Geometric, a, b, 13, 18, 31);
    lemma_step_zero(Product::Geometric, a, b, 13, 19, 1);
    lemma_step_zero(Product::Geometric, a, b, 13, 20, 21);
    lemma_step_zero(Product::Geometric, a, b, 13, 21, 20);
    lemma_step_zero(Product::Geometric, a, b, 13, 22, 2);
    lemma_step_zero(Product::Geometric, a, b, 13, 23, 24);
    lemma_step_zero(Product::Geometric, a, b, 13, 24, 23);
    lemma_step_zero(Product::Geometric, a, b, 13, 25, 5);
    lemma_step_zero(Product::Geometric, a, b, 13, 26, 6);
    lemma_step_zero(Product::Geometric, a, b, 13, 27, 28);
    lemma_step_zero(Product::Geometric, a, b, 13, 28, 27);
    lemma_step_zero(Product::Geometric, a, b, 13, 29, 9);
    lemma_step_zero(Product::Geometric, a, b, 13, 30, 12);
    lemma_step_zero(Product::Geometric, a, b, 13, 31, 18);
}

/// The coefficient of `1` in the product of two vectors.
pub proof fn lemma_vector_vector_s(a: R410<real>, b: R410<real>)
    requires
        zero_outside(a, |i: int| vector_blade(i)),
        zero_outside(b, |i: int| vector_blade(i)),
    ensures
        real_sum(Product::Geometric, a, b, 0, 31) == b.e1 * a.e1 + b.e2 * a.e2 + b.e3 * a.e3,
{
    lemma_step_first(Product::Geometric, a, b, 0);
    lemma_zero_times(b.s, a.s);
    lemma_step_add(Product::Geometric, a, b, 0, 1, 1);
    lemma_step_add(Product::Geometric, a, b, 0, 2, 2);
    lemma_step_add(Product::Geometric, a, b, 0, 3, 3);
    lemma_step_zero(Product::Geometric, a, b, 0, 4, 4);
    lemma_step_zero(Product::Geometric, a, b, 0, 5, 5);
    lemma_step_zero(Product::Geometric, a, b, 0, 6, 6);
    lemma_step_zero(Product::Geometric, a, b, 0, 7, 7);
    lemma_step_zero(Product::Geometric, a, b, 0, 8, 8);
    lemma_step_zero(Product::Geometric, a, b, 0, 9, 9);
    lemma_step_zero(Product::Geometric, a, b, 0, 10, 10);
    lemma_step_zero(Product::Geometric, a, b, 0, 11, 11);
    lemma_step_zero(Product::Geometric, a, b, 0, 12, 12);
    lemma_step_zero(Product::Geometric, a, b, 0, 13, 13);
    lemma_step_zero(Product::Geometric, a, b, 0, 14, 14);
    lemma_step_zero(Product::Geometric, a, b, 0, 15, 15);
    lemma_step_zero(Product::Geometric, a, b, 0, 16, 16);
    lemma_step_zero(Product::Geometric, a, b, 0, 17, 17);
    lemma_step_zero(Product::Geometric, a, b, 0, 18, 18);
    lemma_step_zero(Product::Geometric, a, b, 0, 19, 19);
    lemma_step_zero(Product::Geometric, a, b, 0, 20, 20);
    lemma_step_zero(Product::Geometric, a, b, 0, 21, 21);
    lemma_step_zero(Product::Geometric, a, b, 0, 22, 22);
    lemma_step_zero(Product::Geometric, a, b, 0, 23, 23);
    lemma_step_zero(Product::Geometric, a, b, 0, 24, 24);
    lemma_step_zero(Product::Geometric, a, b, 0, 25, 25);
    lemma_step_zero(Product::Geometric, a, b, 0, 26, 26);
    lemma_step_zero(Product::Geometric, a, b, 0, 27, 27);
    lemma_step_zero(Product::Geometric, a, b, 0, 28, 28);
    lemma_step_zero(Product::Geometric, a, b, 0, 29, 29);
    lemma_step_zero(Product::Geometric, a, b, 0, 30, 30);
    lemma_step_zero(Product::Geometric, a, b, 0, 31, 31);
}

/// The coefficient of `epn` in the product of two vectors.
pub proof fn lemma_vector_vector_epn(a: R410<real>, b: R410<real>)
    requires
        zero_outside(a, |i: int| vector_blade(i)),
        zero_outside(b, |i: int| vector_blade(i)),
    ensures
        real_sum(Product::Geometric, a, b, 15, 31) == 0real,
{
    lemma_step_first(Product::Geometric, a, b, 15);
    lemma_zero_times(b.epn, a.s);
    lemma_step_zero(Product::Geometric, a, b, 15, 1, 21);
    lemma_step_zero(Product::Geometric, a, b, 15, 2, 24);
    lemma_step_zero(Product::Geometric, a, b, 15, 3, 25);
    lemma_step_zero(Product::Geometric, a, b, 15, 4, 5);
    lemma_step_zero(Product::Geometric, a, b, 15, 5, 4);
    lemma_step_zero(Product::Geometric, a, b, 15, 6, 28);
    lemma_step_zero(Product::Geometric, a, b, 15, 7, 29);
    lemma_step_zero(Product::Geometric, a, b, 15, 8, 9);
    lemma_step_zero(Product::Geometric, a, b, 15, 9, 8);
    lemma_step_zero(Product::Geometric, a, b, 15, 10, 30);
    lemma_step_zero(Product::Geometric, a, b, 15, 11, 12);
    lemma_step_zero(Product::Geometric, a, b, 15, 12, 11);
    lemma_step_zero(Product::Geometric, a, b, 15, 13, 14);
    lemma_step_zero(Product::Geometric, a, b, 15, 14, 13);
    lemma_step_zero(Product::Geometric, a, b, 15, 15, 0);
    lemma_step_zero(Product::Geometric, a, b, 15, 16, 31);
    lemma_step_zero(Product::Geometric, a, b, 15, 17, 18);
    lemma_step_zero(Product::Geometric, a, b, 15, 18, 17);
    lemma_step_zero(Product::Geometric, a, b, 15, 19, 20);
    lemma_step_zero(Product::Geometric, a, b, 15, 20, 19);
    lemma_step_zero(Product::Geometric, a, b, 15, 21, 1);
    lemma_step_zero(Product::Geometric, a, b, 15, 22, 23);
    lemma_step_zero(Product::Geometric, a, b, 15, 23, 22);
    lemma_step_zero(Product::Geometric, a, b, 15, 24, 2);
    lemma_step_zero(Product::Geometric, a, b, 15, 25, 3);
    lemma_step_zero(Product::Geometric, a, b, 15, 26, 27);
    lemma_step_zero(Product::Geometric, a, b, 15, 27, 26);
    lemma_step_zero(Product::Geometric, a, b, 15, 28, 6);
    lemma_step_zero(Product::Geometric, a, b, 15, 29, 7);
    lemma_step_zero(Product::Geometric, a, b, 15, 30, 10);
    lemma_step_zero(Product::Geometric, a, b, 15, 31, 16);
}

/// The coefficient of `e1p` in the product of two vectors.
pub proof fn lemma_vector_vector_e1p(a: R410<real>, b: R410<real>)
    requires
        zero_outside(a, |i: int| vector_blade(i)),
        zero_outside(b, |i: int| vector_blade(i)),
    ensures
        real_sum(Product::Geometric, a, b, 8, 31) == 0real,
{
    lemma_step_first(Product::Geometric, a, b, 8);
    lemma_zero_times(b.e1p, a.s);
    lemma_step_zero(Product::Geometric, a, b, 8, 1, 4);
    lemma_step_zero(Product::Geometric, a, b, 8, 2, 17);
    lemma_step_zero(Product::Geometric, a, b, 8, 3, 19);
    lemma_step_zero(Product::Geometric, a, b, 8, 4, 1);
    lemma_step_zero(Product::Geometric, a, b, 8, 5, 21);
    lemma_step_zero(Product::Geometric, a, b, 8, 6, 11);
    lemma_step_zero(Product::Geometric, a, b, 8, 7, 13);
    lemma_step_zero(Product::Geometric, a, b, 8, 8, 0);
    lemma_step_zero(Product::Geometric, a, b, 8, 9, 15);
    lemma_step_zero(Product::Geometric, a, b, 8, 10, 26);
    lemma_step_zero(Product::Geometric, a, b, 8, 11, 6);
    lemma_step_zero(Product::Geometric, a, b, 8, 12, 28);
    lemma_step_zero(Product::Geometric, a, b, 8, 13, 7);
    lemma_step_zero(Product::Geometric, a, b, 8, 14, 29);
    lemma_step_zero(Product::Geometric, a, b, 8, 15, 9);
    lemma_step_zero(Product::Geometric, a, b, 8, 16, 22);
    lemma_step_zero(Product::Geometric, a, b, 8, 17, 2);
    lemma_step_zero(Product::Geometric, a, b, 8, 18, 24);
    lemma_step_zero(Product::Geometric, a, b, 8, 19, 3);
    lemma_step_zero(Product::Geometric, a, b, 8, 20, 25);
    lemma_step_zero(Product::Geometric, a, b, 8, 21, 5);
    lemma_step_zero(Product::Geometric, a, b, 8, 22, 16);
    lemma_step_zero(Product::Geometric, a, b, 8, 23, 31);
    lemma_step_zero(Product::Geometric, a, b, 8, 24, 18);
    lemma_step_zero(Product::Geometric, a, b, 8, 25, 20);
    lemma_step_zero(Product::Geometric, a, b, 8, 26, 10);
    lemma_step_zero(Product::Geometric, a, b, 8, 27, 30);
    lemma_step_zero(Product::Geometric, a, b, 8, 28, 12);
    lemma_step_zero(Product::Geometric, a, b, 8, 29, 14);
    lemma_step_zero(Product::Geometric, a, b, 8, 30, 27);
    lemma_step_zero(Product::Geometric, a, b, 8, 31, 23);
}

/// The coefficient of `e1n` in the product of two vectors.
pub proof fn lemma_vector_vector_e1n(a: R410<real>, b: R410<real>)
    requires
        zero_outside(a, |i: int| vector_blade(i)),
        zero_outside(b, |i: int| vector_blade(i)),
    ensures
        real_sum(Product::Geometric, a, b, 9, 31) == 0real,
{
    lemma_step_first(Product::Geometric, a, b, 9);
    lemma_zero_times(b.e1n, a.s);
    lemma_step_zero(Product::Geometric, a, b, 9, 1, 5);
    lemma_step_zero(Product::Geometric, a, b, 9, 2, 18);
    lemma_step_zero(Product::Geometric, a, b, 9, 3, 20);
    lemma_step_zero(Product::Geometric, a, b, 9, 4, 21);
    lemma_step_zero(Product::Geometric, a, b, 9, 5, 1);
    lemma_step_zero(Product::Geometric, a, b, 9, 6, 12);
    lemma_step_zero(Product::Geometric, a, b, 9, 7, 14);
    lemma_step_zero(Product::Geometric, a, b, 9, 8, 15);
    lemma_step_zero(Product::Geometric, a, b, 9, 9, 0);
    lemma_step_zero(Product::Geometric, a, b, 9, 10, 27);
    lemma_step_zero(Product::Geometric, a, b, 9, 11, 28);
    lemma_step_zero(Product::Geometric, a, b, 9, 12, 6);
    lemma_step_zero(Product::Geometric, a, b, 9, 13, 29);
    lemma_step_zero(Product::Geometric, a, b, 9, 14, 7);
    lemma_step_zero(Product::Geometric, a, b, 9, 15, 8);
    lemma_step_zero(Product::Geometric, a, b, 9, 16, 23);
    lemma_step_zero(Product::Geometric, a, b, 9, 17, 24);
    lemma_step_zero(Product::Geometric, a, b, 9, 18, 2);
    lemma_step_zero(Product::Geometric, a, b, 9, 19, 25);
    lemma_step_zero(Product::Geometric, a, b, 9, 20, 3);
    lemma_step_zero(Product::Geometric, a, b, 9, 21, 4);
    lemma_step_zero(Product::Geometric, a, b, 9, 22, 31);
    lemma_step_zero(Product::Geometric, a, b, 9, 23, 16);
    lemma_step_zero(Product::Geometric, a, b, 9, 24, 17);
    lemma_step_zero(Product::Geometric, a, b, 9, 25, 19);
    lemma_step_zero(Product::Geometric, a, b, 9, 26, 30);
    lemma_step_zero(Product::Geometric, a, b, 9, 27, 10);
    lemma_step_zero(Product::Geometric, a, b, 9, 28, 11);
    lemma_step_zero(Product::Geometric, a, b, 9, 29, 13);
    lemma_step_zero(Product::Geometric, a, b, 9, 30, 26);
    lemma_step_zero(Product::Geometric, a, b, 9, 31, 22);
}

/// The coefficient of `e2p` in the product of two vectors.
pub proof fn lemma_vector_vector_e2p(a: R410<real>, b: R410<real>)
    requires
        zero_outside(a, |i: int| vector_blade(i)),
        zero_outside(b, |i: int| vector_blade(i)),
    ensures
        real_sum(Product::Geometric, a, b, 11, 31) == 0real,
{
    lemma_step_first(Product::Geometric, a, b, 11);
    lemma_zero_times(b.e2p, a.s);
    lemma_step_zero(Product::Geometric, a, b, 11, 1, 17);
    lemma_step_zero(Product::Geometric, a, b, 11, 2, 4);
    lemma_step_zero(Product::Geometric, a, b, 11, 3, 22);
    lemma_step_zero(Product::Geometric, a, b, 11, 4, 2);
    lemma_step_zero(Product::Geometric, a, b, 11, 5, 24);
    lemma_step_zero(Product::Geometric, a, b, 11, 6, 8);
    lemma_step_zero(Product::Geometric, a, b, 11, 7, 26);
    lemma_step_zero(Product::Geometric, a, b, 11, 8, 6);
    lemma_step_zero(Product::Geometric, a, b, 11, 9, 28);
    lemma_step_zero(Product::Geometric, a, b, 11, 10, 13);
    lemma_step_zero(Product::Geometric, a, b, 11, 11, 0);
    lemma_step_zero(Product::Geometric, a, b, 11, 12, 15);
    lemma_step_zero(Product::Geometric, a, b, 11, 13, 10);
    lemma_step_zero(Product::Geometric, a, b, 11, 14, 30);
    lemma_step_zero(Product::Geometric, a, b, 11, 15, 12);
    lemma_step_zero(Product::Geometric, a, b, 11, 16, 19);
    lemma_step_zero(Product::Geometric, a, b, 11, 17, 1);
    lemma_step_zero(Product::Geometric, a, b, 11, 18, 21);
    lemma_step_zero(Product::Geometric, a, b, 11, 19, 16);
    lemma_step_zero(Product::Geometric, a, b, 11, 20, 31);
    lemma_step_zero(Product::Geometric, a, b, 11, 21, 18);
    lemma_step_zero(Product::Geometric, a, b, 11, 22, 3);
    lemma_step_zero(Product::Geometric, a, b, 11, 23, 25);
    lemma_step_zero(Product::Geometric, a, b, 11, 24, 5);
    lemma_step_zero(Product::Geometric, a, b, 11, 25, 23);
    lemma_step_zero(Product::Geometric, a, b, 11, 26, 7);
    lemma_step_zero(Product::Geometric, a, b, 11, 27, 29);
    lemma_step_zero(Product::Geometric, a, b, 11, 28, 9);
    lemma_step_zero(Product::Geometric, a, b, 11, 29, 27);
    lemma_step_zero(Product::Geometric, a, b, 11, 30, 14);
    lemma_step_zero(Product::Geometric, a, b, 11, 31, 20);
}

/// The coefficient of `e2n` in the product of two vectors.
pub proof fn lemma_vector_vector_e2n(a: R410<real>, b: R410<real>)
    requires
        zero_outside(a, |i: int| vector_blade(i)),
        zero_outside(b, |i: int| vector_blade(i)),
    ensures
        real_sum(Product::Geometric, a, b, 12, 31) == 0real,
{
    lemma_step_first(Product::Geometric, a, b, 12);
    lemma_zero_times(b.e2n, a.s);
    lemma_step_zero(Product::Geometric, a, b, 12, 1, 18);
    lemma_step_zero(Product::Geometric, a, b, 12, 2, 5);
    lemma_step_zero(Product::Geometric, a, b, 12, 3, 23);
    lemma_step_zero(Product::Geometric, a, b, 12, 4, 24);
    lemma_step_zero(Product::Geometric, a, b, 12, 5, 2);
    lemma_step_zero(Product::Geometric, a, b, 12, 6, 9);
    lemma_step_zero(Product::Geometric, a, b, 12, 7, 27);
    lemma_step_zero(Product::Geometric, a, b, 12, 8, 28);
    lemma_step_zero(Product::Geometric, a, b, 12, 9, 6);
    lemma_step_zero(Product::Geometric, a, b, 12, 10, 14);
    lemma_step_zero(Product::Geometric, a, b, 12, 11, 15);
    lemma_step_zero(Product::Geometric, a, b, 12, 12, 0);
    lemma_step_zero(Product::Geometric, a, b, 12, 13, 30);
    lemma_step_zero(Product::Geometric, a, b, 12, 14, 10);
    lemma_step_zero(Product::Geometric, a, b, 12, 15, 11);
    lemma_step_zero(Product::Geometric, a, b, 12, 16, 20);
    lemma_step_zero(Product::Geometric, a, b, 12, 17, 21);
    lemma_step_zero(Product::Geometric, a, b, 12, 18, 1);
    lemma_step_zero(Product::Geometric, a, b, 12, 19, 31);
    lemma_step_zero(Product::Geometric, a, b, 12, 20, 16);
    lemma_step_zero(Product::Geometric, a, b, 12, 21, 17);
    lemma_step_zero(Product::Geometric, a, b, 12, 22, 25);
    lemma_step_zero(Product::Geometric, a, b, 12, 23, 3);
    lemma_step_zero(Product::Geometric, a, b, 12, 24, 4);
    lemma_step_zero(Product::Geometric, a, b, 12, 25, 22);
    lemma_step_zero(Product::Geometric, a, b, 12, 26, 29);
    lemma_step_zero(Product::Geometric, a, b, 12, 27, 7);
    lemma_step_zero(Product::Geometric, a, b, 12, 28, 8);
    lemma_step_zero(Product::Geometric, a, b, 12, 29, 26);
    lemma_step_zero(Product::Geometric, a, b, 12, 30, 13);
    lemma_step_zero(Product::Geometric, a, b, 12, 31, 19);
}

/// The coefficient of `e3p` in the product of two vectors.
pub proof fn lemma_vector_vector_e3p(a: R410<real>, b: R410<real>)
    requires
        zero_outside(a, |i: int| vector_blade(i)),
        zero_outside(b, |i: int| vector_blade(i)),
    ensures
        real_sum(Product::Geometric, a, b, 13, 31) == 0real,
{
    lemma_step_first(Product::Geometric, a, b, 13);
    lemma_zero_times(b.e3p, a.s);
    lemma_step_zero(Product::Geometric, a, b, 13, 1, 19);
    lemma_step_zero(Product::Geometric, a, b, 13, 2, 22);
    lemma_step_zero(Product::Geometric, a, b, 13, 3, 4);
    lemma_step_zero(Product::Geometric, a, b, 13, 4, 3);
    lemma_step_zero(Product::Geometric, a, b, 13, 5, 25);
    lemma_step_zero(Product::Geometric, a, b, 13, 6, 26);
    lemma_step_zero(Product::Geometric, a, b, 13, 7, 8);
    lemma_step_zero(Product::Geometric, a, b, 13, 8, 7);
    lemma_step_zero(Product::Geometric, a, b, 13, 9, 29);
    lemma_step_zero(Product::Geometric, a, b, 13, 10, 11);
    lemma_step_zero(Product::Geometric, a, b, 13, 11, 10);
    lemma_step_zero(Product::Geometric, a, b, 13, 12, 30);
    lemma_step_zero(Product::Geometric, a, b, 13, 13, 0);
    lemma_step_zero(Product::Geometric, a, b, 13, 14, 15);
    lemma_step_zero(Product::Geometric, a, b, 13, 15, 14);
    lemma_step_zero(Product::Geometric, a, b, 13, 16, 17);
    lemma_step_zero(Product::Geometric, a, b, 13, 17, 16);
    lemma_step_zero(Product::Geometric, a, b, 13, 18, 31);
    lemma_step_zero(Product::Geometric, a, b, 13, 19, 1);
    lemma_step_zero(Product::Geometric, a, b, 13, 20, 21);
    lemma_step_zero(Product::Geometric, a, b, 13, 21, 20);
    lemma_step_zero(Product::Geometric, a, b, 13, 22, 2);
    lemma_step_zero(Product::Geometric, a, b, 13, 23, 24);
    lemma_step_zero(Product::Geometric, a, b, 13, 24, 23);
    lemma_step_zero(Product::Geometric, a, b, 13, 25, 5);
    lemma_step_zero(Product::Geometric, a, b, 13, 26, 6);
    lemma_step_zero(Product::Geometric, a, b, 13, 27, 28);
    lemma_step_zero(Product::Geometric, a, b, 13, 28, 27);
    lemma_step_zero(Product::Geometric, a, b, 13, 29, 9);
    lemma_step_zero(Product::Geometric, a, b, 13, 30, 12);
    lemma_step_zero(Product::Geometric, a, b, 13, 31, 18);
}

/// The coefficient of `e3n` in the product of two vectors.
pub proof fn lemma_vector_vector_e3n(a: R410<real>, b: R410<real>)
    requires
        zero_outside(a, |i: int| vector_blade(i)),
        zero_outside(b, |i: int| vector_blade(i)),
    ensures
        real_sum(Product::Geometric, a, b, 14, 31) == 0real,
{
    lemma_step_first(Product::Geometric, a, b, 14);
    lemma_zero_times(b.e3n, a.s);
    lemma_step_zero(Product::Geometric, a, b, 14, 1, 20);
    lemma_step_zero(Product::Geometric, a, b, 14, 2, 23);
    lemma_step_zero(Product::Geometric, a, b, 14, 3, 5);
    lemma_step_zero(Product::Geometric, a, b, 14, 4, 25);
    lemma_step_zero(Product::Geometric, a, b, 14, 5, 3);
    lemma_step_zero(Product::Geometric, a, b, 14, 6, 27);
    lemma_step_zero(Product::Geometric, a, b, 14, 7, 9);
    lemma_step_zero(Product::Geometric, a, b, 14, 8, 29);
    lemma_step_zero(Product::Geometric, a, b, 14, 9, 7);
    lemma_step_zero(Product::Geometric, a, b, 14, 10, 12);
    lemma_step_zero(Product::Geometric, a, b, 14, 11, 30);
    lemma_step_zero(Product::Geometric, a, b, 14, 12, 10);
    lemma_step_zero(Product::Geometric, a, b, 14, 13, 15);
    lemma_step_zero(Product::Geometric, a, b, 14, 14, 0);
    lemma_step_zero(Product::Geometric, a, b, 14, 15, 13);
    lemma_step_zero(Product::Geometric, a, b, 14, 16, 18);
    lemma_step_zero(Product::Geometric, a, b, 14, 17, 31);
    lemma_step_zero(Product::Geometric, a, b, 14, 18, 16);
    lemma_step_zero(Product::Geometric, a, b, 14, 19, 21);
    lemma_step_zero(Product::Geometric, a, b, 14, 20, 1);
    lemma_step_zero(Product::Geometric, a, b, 14, 21, 19);
    lemma_step_zero(Product::Geometric, a, b, 14, 22, 24);
    lemma_step_zero(Product::Geometric, a, b, 14, 23, 2);
    lemma_step_zero(Product::Geometric, a, b, 14, 24, 22);
    lemma_step_zero(Product::Geometric, a, b, 14, 25, 4);
    lemma_step_zero(Product::Geometric, a, b, 14, 26, 28);
    lemma_step_zero(Product::Geometric, a, b, 14, 27, 6);
    lemma_step_zero(Product::Geometric, a, b, 14, 28, 26);
    lemma_step_zero(Product::Geometric, a, b, 14, 29, 8);
    lemma_step_zero(Product::Geometric, a, b, 14, 30, 11);
    lemma_step_zero(Product::Geometric, a, b, 14, 31, 17);
}

/// The coefficient of `e1` in the product of an infinity with any multivector.
pub proof fn lemma_infinity_any_e1(a: R410<real>, b: R410<real>)
    requires
        zero_outside(a, |i: int| infinity_blade(i)),
    ensures
        real_sum(Product::Geometric, a, b, 1, 31) == -(b.e1p * a.ep) + b.e1n * a.en,
{
    lemma_step_first(Product::Geometric, a, b, 1);
    lemma_zero_times(b.e1, a.s);
    lemma_step_zero(Product::Geometric, a, b, 1, 1, 0);
    lemma_step_zero(Product::Geometric, a, b, 1, 2, 6);
    lemma_step_zero(Product::Geometric, a, b, 1, 3, 7);
    lemma_step_sub(Product::Geometric, a, b, 1, 4, 8);
    lemma_step_add(Product::Geometric, a, b, 1, 5, 9);
    lemma_step_zero(Product::Geometric, a, b, 1, 6, 2);
    lemma_step_zero(Product::Geometric, a, b, 1, 7, 3);
    lemma_step_zero(Product::Geometric, a, b, 1, 8, 4);
    lemma_step_zero(Product::Geometric, a, b, 1, 9, 5);
    lemma_step_zero(Product::Geometric, a, b, 1, 10, 16);
    lemma_step_zero(Product::Geometric, a, b, 1, 11, 17);
    lemma_step_zero(Product::Geometric, a, b, 1, 12, 18);
    lemma_step_zero(Product::Geometric, a, b, 1, 13, 19);
    lemma_step_zero(Product::Geometric, a, b, 1, 14, 20);
    lemma_step_zero(Product::Geometric, a, b, 1, 15, 21);
    lemma_step_zero(Product::Geometric, a, b, 1, 16, 10);
    lemma_step_zero(Product::Geometric, a, b, 1, 17, 11);
    lemma_step_zero(Product::Geometric, a, b, 1, 18, 12);
    lemma_step_zero(Product::Geometric, a, b, 1, 19, 13);
    lemma_step_zero(Product::Geometric, a, b, 1, 20, 14);
    lemma_step_zero(Product::Geometric, a, b, 1, 21, 15);
    lemma_step_zero(Product::Geometric, a, b, 1, 22, 26);
    lemma_step_zero(Product::Geometric, a, b, 1, 23, 27);
    lemma_step_zero(Product::Geometric, a, b, 1, 24, 28);
    lemma_step_zero(Product::Geometric, a, b, 1, 25, 29);
    lemma_step_zero(Product::Geometric, a, b, 1, 26, 22);
    lemma_step_zero(Product::Geometric, a, b, 1, 27, 23);
    lemma_step_zero(Product::Geometric, a, b, 1, 28, 24);
    lemma_step_zero(Product::Geometric, a, b, 1, 29, 25);
    lemma_step_zero(Product::Geometric, a, b, 1, 30, 31);
    lemma_step_zero(Product::Geometric, a, b, 1, 31, 30);
}

/// The coefficient of `e2` in the product of an infinity with any multivector.
pub proof fn lemma_infinity_any_e2(a: R410<real>, b: R410<real>)
    requires
        zero_outside(a, |i: int| infinity_blade(i)),
    ensures
        real_sum(Product::Geometric, a, b, 2, 31) == -(b.e2p * a.ep) + b.e2n * a.en,
{
    lemma_step_first(Product::Geometric, a, b, 2);
    lemma_zero_times(b.e2, a.s);
    lemma_step_zero(Product::Geometric, a, b, 2, 1, 6);
    lemma_step_zero(Product::Geometric, a, b, 2, 2, 0);
    lemma_step_zero(Product::Geometric, a, b, 2, 3, 10);
    lemma_step_sub(Product::Geometric, a, b, 2, 4, 11);
    lemma_step_add(Product::Geometric, a, b, 2, 5, 12);
    lemma_step_zero(Product::Geometric, a, b, 2, 6, 1);
    lemma_step_zero(Product::Geometric, a, b, 2, 7, 16);
    lemma_step_zero(Product::Geometric, a, b, 2, 8, 17);
    lemma_step_zero(Product::Geometric, a, b, 2, 9, 18);
    lemma_step_zero(Product::Geometric, a, b, 2, 10, 3);
    lemma_step_zero(Product::Geometric, a, b, 2, 11, 4);
    lemma_step_zero(Product::Geometric, a, b, 2, 12, 5);
    lemma_step_zero(Product::Geometric, a, b, 2, 13, 22);
    lemma_step_zero(Product::Geometric, a, b, 2, 14, 23);
    lemma_step_zero(Product::Geometric, a, b, 2, 15, 24);
    lemma_step_zero(Product::Geometric, a, b, 2, 16, 7);
    lemma_step_zero(Product::Geometric, a, b, 2, 17, 8);
    lemma_step_zero(Product::Geometric, a, b, 2, 18, 9);
    lemma_step_zero(Product::Geometric, a, b, 2, 19, 26);
    lemma_step_zero(Product::Geometric, a, b, 2, 20, 27);
    lemma_step_zero(Product::Geometric, a, b, 2, 21, 28);
    lemma_step_zero(Product::Geometric, a, b, 2, 22, 13);
    lemma_step_zero(Product::Geometric, a, b, 2, 23, 14);
    lemma_step_zero(Product::Geometric, a, b, 2, 24, 15);
    lemma_step_zero(Product::Geometric, a, b, 2, 25, 30);
    lemma_step_zero(Product::Geometric, a, b, 2, 26, 19);
    lemma_step_zero(Product::Geometric, a, b, 2, 27, 20);
    lemma_step_zero(Product::Geometric, a, b, 2, 28, 21);
    lemma_step_zero(Product::Geometric, a, b, 2, 29, 31);
    lemma_step_zero(Product::Geometric, a, b, 2, 30, 25);
    lemma_step_zero(Product::Geometric, a, b, 2, 31, 29);
}

/// The coefficient of `e3` in the product of an infinity with any multivector.
pub proof fn lemma_infinity_any_e3(a: R410<real>, b: R410<real>)
    requires
        zero_outside(a, |i: int| infinity_blade(i)),
    ensures
        real_sum(Product::Geometric, a, b, 3, 31) == -(b.e3p * a.ep) + b.e3n * a.en,
{
    lemma_step_first(Product::Geometric, a, b, 3);
    lemma_zero_times(b.e3, a.s);
    lemma_step_zero(Product::Geometric, a, b, 3, 1, 7);
    lemma_step_zero(Product::Geometric, a, b, 3, 2, 10);
    lemma_step_zero(Product::Geometric, a, b, 3, 3, 0);
    lemma_step_sub(Product::Geometric, a, b, 3, 4, 13);
    lemma_step_add(Product::Geometric, a, b, 3, 5, 14);
    lemma_step_zero(Product::Geometric, a, b, 3, 6, 16);
    lemma_step_zero(Product::Geometric, a, b, 3, 7, 1);
    lemma_step_zero(Product::Geometric, a, b, 3, 8, 19);
    lemma_step_zero(Product::Geometric, a, b, 3, 9, 20);
    lemma_step_zero(Product::Geometric, a, b, 3, 10, 2);
    lemma_step_zero(Product::Geometric, a, b, 3, 11, 22);
    lemma_step_zero(Product::Geometric, a, b, 3, 12, 23);
    lemma_step_zero(Product::Geometric, a, b, 3, 13, 4);
    lemma_step_zero(Product::Geometric, a, b, 3, 14, 5);
    lemma_step_zero(Product::Geometric, a, b, 3, 15, 25);
    lemma_step_zero(Product::Geometric, a, b, 3, 16, 6);
    lemma_step_zero(Product::Geometric, a, b, 3, 17, 26);
    lemma_step_zero(Product::Geometric, a, b, 3, 18, 27);
    lemma_step_zero(Product::Geometric, a, b, 3, 19, 8);
    lemma_step_zero(Product::Geometric, a, b, 3, 20, 9);
    lemma_step_zero(Product::Geometric, a, b, 3, 21, 29);
    lemma_step_zero(Product::Geometric, a, b, 3, 22, 11);
    lemma_step_zero(Product::Geometric, a, b, 3, 23, 12);
    lemma_step_zero(Product::Geometric, a, b, 3, 24, 30);
    lemma_step_zero(Product::Geometric, a, b, 3, 25, 15);
    lemma_step_zero(Product::Geometric, a, b, 3, 26, 17);
    lemma_step_zero(Product::Geometric, a, b, 3, 27, 18);
    lemma_step_zero(Product::Geometric, a, b, 3, 28, 31);
    lemma_step_zero(Product::Geometric, a, b, 3, 29, 21);
    lemma_step_zero(Product::Geometric, a, b, 3, 30, 24);
    lemma_step_zero(Product::Geometric, a, b, 3, 31, 28);
}

/// The coefficient of `ep` in the product of an infinity with any multivector.
pub proof fn lemma_infinity_any_ep(a: R410<real>, b: R410<real>)
    requires
        zero_outside(a, |i: int| infinity_blade(i)),
    ensures
        real_sum(Product::Geometric, a, b, 4, 31) == b.s * a.ep + b.epn * a.en,
{
    lemma_step_first(Product::Geometric, a, b, 4);
    lemma_zero_times(b.ep, a.s);
    lemma_step_zero(Product::Geometric, a, b, 4, 1, 8);
    lemma_step_zero(Product::Geometric, a, b, 4, 2, 11);
    lemma_step_zero(Product::Geometric, a, b, 4, 3, 13);
    lemma_step_add(Product::Geometric, a, b, 4, 4, 0);
    lemma_step_add(Product::Geometric, a, b, 4, 5, 15);
    lemma_step_zero(Product::Geometric, a, b, 4, 6, 17);
    lemma_step_zero(Product::Geometric, a, b, 4, 7, 19);
    lemma_step_zero(Product::Geometric, a, b, 4, 8, 1);
    lemma_step_zero(Product::Geometric, a, b, 4, 9, 21);
    lemma_step_zero(Product::Geometric, a, b, 4, 10, 22);
    lemma_step_zero(Product::Geometric, a, b, 4, 11, 2);
    lemma_step_zero(Product::Geometric, a, b, 4, 12, 24);
    lemma_step_zero(Product::Geometric, a, b, 4, 13, 3);
    lemma_step_zero(Product::Geometric, a, b, 4, 14, 25);
    lemma_step_zero(Product::Geometric, a, b, 4, 15, 5);
    lemma_step_zero(Product::Geometric, a, b, 4, 16, 26);
    lemma_step_zero(Product::Geometric, a, b, 4, 17, 6);
    lemma_step_zero(Product::Geometric, a, b, 4, 18, 28);
    lemma_step_zero(Product::Geometric, a, b, 4, 19, 7);
    lemma_step_zero(Product::Geometric, a, b, 4, 20, 29);
    lemma_step_zero(Product::Geometric, a, b, 4, 21, 9);
    lemma_step_zero(Product::Geometric, a, b, 4, 22, 10);
    lemma_step_zero(Product::Geometric, a, b, 4, 23, 30);
    lemma_step_zero(Product::Geometric, a, b, 4, 24, 12);
    lemma_step_zero(Product::Geometric, a, b, 4, 25, 14);
    lemma_step_zero(Product::Geometric, a, b, 4, 26, 16);
    lemma_step_zero(Product::Geometric, a, b, 4, 27, 31);
    lemma_step_zero(Product::Geometric, a, b, 4, 28, 18);
    lemma_step_zero(Product::Geometric, a, b, 4, 29, 20);
    lemma_step_zero(Product::Geometric, a, b, 4, 30, 23);
    lemma_step_zero(Product::Geometric, a, b, 4, 31, 27);
}

/// The coefficient of `en` in the product of an infinity with any multivector.
pub proof fn lemma_infinity_any_en(a: R410<real>, b: R410<real>)
    requires
        zero_outside(a, |i: int| infinity_blade(i)),
    ensures
        real_sum(Product::Geometric, a, b, 5, 31) == b.epn * a.ep + b.s * a.en,
{
    lemma_step_first(Product::Geometric, a, b, 5);
    lemma_zero_times(b.en, a.s);
    lemma_step_zero(Product::Geometric, a, b, 5, 1, 9);
    lemma_step_zero(Product::Geometric, a, b, 5, 2, 12);
    lemma_step_zero(Product::Geometric, a, b, 5, 3, 14);
    lemma_step_add(Product::Geometric, a, b, 5, 4, 15);
    lemma_step_add(Product::Geometric, a, b, 5, 5, 0);
    lemma_step_zero(Product::Geometric, a, b, 5, 6, 18);
    lemma_step_zero(Product::Geometric, a, b, 5, 7, 20);
    lemma_step_zero(Product::Geometric, a, b, 5, 8, 21);
    lemma_step_zero(Product::Geometric, a, b, 5, 9, 1);
    lemma_step_zero(Product::Geometric, a, b, 5, 10, 23);
    lemma_step_zero(Product::Geometric, a, b, 5, 11, 24);
    lemma_step_zero(Product::Geometric, a, b, 5, 12, 2);
    lemma_step_zero(Product::Geometric, a, b, 5, 13, 25);
    lemma_step_zero(Product::Geometric, a, b, 5, 14, 3);
    lemma_step_zero(Product::Geometric, a, b, 5, 15, 4);
    lemma_step_zero(Product::Geometric, a, b, 5, 16, 27);
    lemma_step_zero(Product::Geometric, a, b, 5, 17, 28);
    lemma_step_zero(Product::Geometric, a, b, 5, 18, 6);
    lemma_step_zero(Product::Geometric, a, b, 5, 19, 29);
    lemma_step_zero(Product::Geometric, a, b, 5, 20, 7);
    lemma_step_zero(Product::Geometric, a, b, 5, 21, 8);
    lemma_step_zero(Product::Geometric, a, b, 5, 22, 30);
    lemma_step_zero(Product::Geometric, a, b, 5, 23, 10);
    lemma_step_zero(Product::Geometric, a, b, 5, 24, 11);
    lemma_step_zero(Product::Geometric, a, b, 5, 25, 13);
    lemma_step_zero(Product::Geometric, a, b, 5, 26, 31);
    lemma_step_zero(Product::Geometric, a, b, 5, 27, 16);
    lemma_step_zero(Product::Geometric, a, b, 5, 28, 17);
    lemma_step_zero(Product::Geometric, a, b, 5, 29, 19);
    lemma_step_zero(Product::Geometric, a, b, 5, 30, 22);
    lemma_step_zero(Product::Geometric, a, b, 5, 31, 26);
}

/// The coefficient of `e1` in the product of a translator with a point.
pub proof fn lemma_translator_point_e1(a: R410<real>, b: R410<real>)
    requires
        zero_outside(a, |i: int| translator_blade(i)),
        zero_outside(b, |i: int| point_blade(i)),
    ensures
        real_sum(Product::Geometric, a, b, 1, 31) == b.e1 * a.s + b.ep * a.e1p - b.en * a.e1n,
{
    lemma_step_first(Product::Geometric, a, b, 1);
    lemma_step_zero(Product::Geometric, a, b, 1, 1, 0);
    lemma_step_zero(Product::Geometric, a, b, 1, 2, 6);
    lemma_step_zero(Product::Geometric, a, b, 1, 3, 7);
    lemma_step_zero(Product::Geometric, a, b, 1, 4, 8);
    lemma_step_zero(Product::Geometric, a, b, 1, 5, 9);
    lemma_step_zero(Product::Geometric, a, b, 1, 6, 2);
    lemma_step_zero(Product::Geometric, a, b, 1, 7, 3);
    lemma_step_add(Product::Geometric, a, b, 1, 8, 4);
    lemma_step_sub(Product::Geometric, a, b, 1, 9, 5);
    lemma_step_zero(Product::Geometric, a, b, 1, 10, 16);
    lemma_step_zero(Product::Geometric, a, b, 1, 11, 17);
    lemma_step_zero(Product::Geometric, a, b, 1, 12, 18);
    lemma_step_zero(Product::Geometric, a, b, 1, 13, 19);
    lemma_step_zero(Product::Geometric, a, b, 1, 14, 20);
    lemma_step_zero(Product::Geometric, a, b, 1, 15, 21);
    lemma_step_zero(Product::Geometric, a, b, 1, 16, 10);
    lemma_step_zero(Product::Geometric, a, b, 1, 17, 11);
    lemma_step_zero(Product::Geometric, a, b, 1, 18, 12);
    lemma_step_zero(Product::Geometric, a, b, 1, 19, 13);
    lemma_step_zero(Product::Geometric, a, b, 1, 20, 14);
    lemma_step_zero(Product::Geometric, a, b, 1, 21, 15);
    lemma_step_zero(Product::Geometric, a, b, 1, 22, 26);
    lemma_step_zero(Product::Geometric, a, b, 1, 23, 27);
    lemma_step_zero(Product::Geometric, a, b, 1, 24, 28);
    lemma_step_zero(Product::Geometric, a, b, 1, 25, 29);
    lemma_step_zero(Product::Geometric, a, b, 1, 26, 22);
    lemma_step_zero(Product::Geometric, a, b, 1, 27, 23);
    lemma_step_zero(Product::Geometric, a, b, 1, 28, 24);
    lemma_step_zero(Product::Geometric, a, b, 1, 29, 25);
    lemma_step_zero(Product::Geometric, a, b, 1, 30, 31);
    lemma_step_zero(Product::Geometric, a, b, 1, 31, 30);
}

/// The coefficient of `e2` in the product of a translator with a point.
pub proof fn lemma_translator_point_e2(a: R410<real>, b: R410<real>)
    requires
        zero_outside(a, |i: int| translator_blade(i)),
        zero_outside(b, |i: int| point_blade(i)),
    ensures
        real_sum(Product::Geometric, a, b, 2, 31) == b.e2 * a.s + b.ep * a.e2p - b.en * a.e2n,
{
    lemma_step_first(Product::Geometric, a, b, 2);
    lemma_step_zero(Product::Geometric, a, b, 2, 1, 6);
    lemma_step_zero(Product::Geometric, a, b, 2, 2, 0);
    lemma_step_zero(Product::Geometric, a, b, 2, 3, 10);
    lemma_step_zero(Product::Geometric, a, b, 2, 4, 11);
    lemma_step_zero(Product::Geometric, a, b, 2, 5, 12);
    lemma_step_zero(Product::Geometric, a, b, 2, 6, 1);
    lemma_step_zero(Product::Geometric, a, b, 2, 7, 16);
    lemma_step_zero(Product::Geometric, a, b, 2, 8, 17);
    lemma_step_zero(Product::Geometric, a, b, 2, 9, 18);
    lemma_step_zero(Product::Geometric, a, b, 2, 10, 3);
    lemma_step_add(Product::Geometric, a, b, 2, 11, 4);
    lemma_step_sub(Product::Geometric, a, b, 2, 12, 5);
    lemma_step_zero(Product::Geometric, a, b, 2, 13, 22);
    lemma_step_zero(Product::Geometric, a, b, 2, 14, 23);
    lemma_step_zero(Product::Geometric, a, b, 2, 15, 24);
    lemma_step_zero(Product::Geometric, a, b, 2, 16, 7);
    lemma_step_zero(Product::Geometric, a, b, 2, 17, 8);
    lemma_step_zero(Product::Geometric, a, b, 2, 18, 9);
    lemma_step_zero(Product::Geometric, a, b, 2, 19, 26);
    lemma_step_zero(Product::Geometric, a, b, 2, 20, 27);
    lemma_step_zero(Product::Geometric, a, b, 2, 21, 28);
    lemma_step_zero(Product::Geometric, a, b, 2, 22, 13);
    lemma_step_zero(Product::Geometric, a, b, 2, 23, 14);
    lemma_step_zero(Product::Geometric, a, b, 2, 24, 15);
    lemma_step_zero(Product::Geometric, a, b, 2, 25, 30);
    lemma_step_zero(Product::Geometric, a, b, 2, 26, 19);
    lemma_step_zero(Product::Geometric, a, b, 2, 27, 20);
    lemma_step_zero(Product::Geometric, a, b, 2, 28, 21);
    lemma_step_zero(Product::Geometric, a, b, 2, 29, 31);
    lemma_step_zero(Product::Geometric, a, b, 2, 30, 25);
    lemma_step_zero(Product::Geometric, a, b, 2, 31, 29);
}

/// The coefficient of `e3` in the product of a translator with a point.
pub proof fn lemma_translator_point_e3(a: R410<real>, b: R410<real>)
    requires
        zero_outside(a, |i: int| translator_blade(i)),
        zero_outside(b, |i: int| point_blade(i)),
    ensures
        real_sum(Product::Geometric, a, b, 3, 31) == b.e3 * a.s + b.ep * a.e3p - b.en * a.e3n,
{
    lemma_step_first(Product::Geometric, a, b, 3);
    lemma_step_zero(Product::Geometric, a, b, 3, 1, 7);
    lemma_step_zero(Product::Geometric, a, b, 3, 2, 10);
    lemma_step_zero(Product::Geometric, a, b, 3, 3, 0);
    lemma_step_zero(Product::Geometric, a, b, 3, 4, 13);
    lemma_step_zero(Product::Geometric, a, b, 3, 5, 14);
    lemma_step_zero(Product::Geometric, a, b, 3, 6, 16);
    lemma_step_zero(Product::Geometric, a, b, 3, 7, 1);
    lemma_step_zero(Product::Geometric, a, b, 3, 8, 19);
    lemma_step_zero(Product::Geometric, a, b, 3, 9, 20);
    lemma_step_zero(Product::Geometric, a, b, 3, 10, 2);
    lemma_step_zero(Product::Geometric, a, b, 3, 11, 22);
    lemma_step_zero(Product::Geometric, a, b, 3, 12, 23);
    lemma_step_add(Product::Geometric, a, b, 3, 13, 4);
    lemma_step_sub(Product::Geometric, a, b, 3, 14, 5);
    lemma_step_zero(Product::Geometric, a, b, 3, 15, 25);
    lemma_step_zero(Product::Geometric, a, b, 3, 16, 6);
    lemma_step_zero(Product::Geometric, a, b, 3, 17, 26);
    lemma_step_zero(Product::Geometric, a, b, 3, 18, 27);
    lemma_step_zero(Product::Geometric, a, b, 3, 19, 8);
    lemma_step_zero(Product::Geometric, a, b, 3, 20, 9);
    lemma_step_zero(Product::Geometric, a, b, 3, 21, 29);
    lemma_step_zero(Product::Geometric, a, b, 3, 22, 11);
    lemma_step_zero(Product::Geometric, a, b, 3, 23, 12);
    lemma_step_zero(Product::Geometric, a, b, 3, 24, 30);
    lemma_step_zero(Product::Geometric, a, b, 3, 25, 15);
    lemma_step_zero(Product::Geometric, a, b, 3, 26, 17);
    lemma_step_zero(Product::Geometric, a, b, 3, 27, 18);
    lemma_step_zero(Product::Geometric, a, b, 3, 28, 31);
    lemma_step_zero(Product::Geometric, a, b, 3, 29, 21);
    lemma_step_zero(Product::Geometric, a, b, 3, 30, 24);
    lemma_step_zero(Product::Geometric, a, b, 3, 31, 28);
}

/// The coefficient of `ep` in the product of a translator with a point.
pub proof fn lemma_translator_point_ep(a: R410<real>, b: R410<real>)
    requires
        zero_outside(a, |i: int| translator_blade(i)),
        zero_outside(b, |i: int| point_blade(i)),
    ensures
        real_sum(Product::Geometric, a, b, 4, 31) == b.ep * a.s - b.e1 * a.e1p - b.e2 * a.e2p - b.e3 * a.e3p,
{
    lemma_step_first(Product::Geometric, a, b, 4);
    lemma_step_zero(Product::Geometric, a, b, 4, 1, 8);
    lemma_step_zero(Product::Geometric, a, b, 4, 2, 11);
    lemma_step_zero(Product::Geometric, a, b, 4, 3, 13);
    lemma_step_zero(Product::Geometric, a, b, 4, 4, 0);
    lemma_step_zero(Product::Geometric, a, b, 4, 5, 15);
    lemma_step_zero(Product::Geometric, a, b, 4, 6, 17);
    lemma_step_zero(Product::Geometric, a, b, 4, 7, 19);
    lemma_step_sub(Product::Geometric, a, b, 4, 8, 1);
    lemma_step_zero(Product::Geometric, a, b, 4, 9, 21);
    lemma_step_zero(Product::Geometric, a, b, 4, 10, 22);
    lemma_step_sub(Product::Geometric, a, b, 4, 11, 2);
    lemma_step_zero(Product::Geometric, a, b, 4, 12, 24);
    lemma_step_sub(Product::Geometric, a, b, 4, 13, 3);
    lemma_step_zero(Product::Geometric, a, b, 4, 14, 25);
    lemma_step_zero(Product::Geometric, a, b, 4, 15, 5);
    lemma_step_zero(Product::Geometric, a, b, 4, 16, 26);
    lemma_step_zero(Product::Geometric, a, b, 4, 17, 6);
    lemma_step_zero(Product::Geometric, a, b, 4, 18, 28);
    lemma_step_zero(Product::Geometric, a, b, 4, 19, 7);
    lemma_step_zero(Product::Geometric, a, b, 4, 20, 29);
    lemma_step_zero(Product::Geometric, a, b, 4, 21, 9);
    lemma_step_zero(Product::Geometric, a, b, 4, 22, 10);
    lemma_step_zero(Product::Geometric, a, b, 4, 23, 30);
    lemma_step_zero(Product::Geometric, a, b, 4, 24, 12);
    lemma_step_zero(Product::Geometric, a, b, 4, 25, 14);
    lemma_step_zero(Product::Geometric, a, b, 4, 26, 16);
    lemma_step_zero(Product::Geometric, a, b, 4, 27, 31);
    lemma_step_zero(Product::Geometric, a, b, 4, 28, 18);
    lemma_step_zero(Product::Geometric, a, b, 4, 29, 20);
    lemma_step_zero(Product::Geometric, a, b, 4, 30, 23);
    lemma_step_zero(Product::Geometric, a, b, 4, 31, 27);
}

/// The coefficient of `en` in the product of a translator with a point.
pub proof fn lemma_translator_point_en(a: R410<real>, b: R410<real>)
    requires
        zero_outside(a, |i: int| translator_blade(i)),
        zero_outside(b, |i: int| point_blade(i)),
    ensures
        real_sum(Product::Geometric, a, b, 5, 31) == b.en * a.s - b.e1 * a.e1n - b.e2 * a.e2n - b.e3 * a.e3n,
{
    lemma_step_first(Product::Geometric, a, b, 5);
    lemma_step_zero(Product::Geometric, a, b, 5, 1, 9);
    lemma_step_zero(Product::Geometric, a, b, 5, 2, 12);
    lemma_step_zero(Product::Geometric, a, b, 5, 3, 14);
    lemma_step_zero(Product::Geometric, a, b, 5, 4, 15);
    lemma_step_zero(Product::Geometric, a, b, 5, 5, 0);
    lemma_step_zero(Product::Geometric, a, b, 5, 6, 18);
    lemma_step_zero(Product::Geometric, a, b, 5, 7, 20);
    lemma_step_zero(Product::Geometric, a, b, 5, 8, 21);
    lemma_step_sub(Product::Geometric, a, b, 5, 9, 1);
    lemma_step_zero(Product::Geometric, a, b, 5, 10, 23);
    lemma_step_zero(Product::Geometric, a, b, 5, 11, 24);
    lemma_step_sub(Product::Geometric, a, b, 5, 12, 2);
    lemma_step_zero(Product::Geometric, a, b, 5, 13, 25);
    lemma_step_sub(Product::Geometric, a, b, 5, 14, 3);
    lemma_step_zero(Product::Geometric, a, b, 5, 15, 4);
    lemma_step_zero(Product::Geometric, a, b, 5, 16, 27);
    lemma_step_zero(Product::Geometric, a, b, 5, 17, 28);
    lemma_step_zero(Product::Geometric, a, b, 5, 18, 6);
    lemma_step_zero(Product::Geometric, a, b, 5, 19, 29);
    lemma_step_zero(Product::Geometric, a, b, 5, 20, 7);
    lemma_step_zero(Product::Geometric, a, b, 5, 21, 8);
    lemma_step_zero(Product::Geometric, a, b, 5, 22, 30);
    lemma_step_zero(Product::Geometric, a, b, 5, 23, 10);
    lemma_step_zero(Product::Geometric, a, b, 5, 24, 11);
    lemma_step_zero(Product::Geometric, a, b, 5, 25, 13);
    lemma_step_zero(Product::Geometric, a, b, 5, 26, 31);
    lemma_step_zero(Product::Geometric, a, b, 5, 27, 16);
    lemma_step_zero(Product::Geometric, a, b, 5, 28, 17);
    lemma_step_zero(Product::Geometric, a, b, 5, 29, 19);
    lemma_step_zero(Product::Geometric, a, b, 5, 30, 22);
    lemma_step_zero(Product::Geometric, a, b, 5, 31, 26);
}

/// The coefficient of `e12p` in the product of a translator with a point.
pub proof fn lemma_translator_point_e12p(a: R410<real>, b: R410<real>)
    requires
        zero_outside(a, |i: int| translator_blade(i)),
        zero_outside(b, |i: int| point_blade(i)),
    ensures
        real_sum(Product::Geometric, a, b, 17, 31) == -(b.e2 * a.e1p) + b.e1 * a.e2p,
{
    lemma_step_first(Product::Geometric, a, b, 17);
    lemma_zero_times(b.e12p, a.s);
    lemma_step_zero(Product::Geometric, a, b, 17, 1, 11);
    lemma_step_zero(Product::Geometric, a, b, 17, 2, 8);
    lemma_step_zero(Product::Geometric, a, b, 17, 3, 26);
    lemma_step_zero(Product::Geometric, a, b, 17, 4, 6);
    lemma_step_zero(Product::Geometric, a, b, 17, 5, 28);
    lemma_step_zero(Product::Geometric, a, b, 17, 6, 4);
    lemma_step_zero(Product::Geometric, a, b, 17, 7, 22);
    lemma_step_sub(Product::Geometric, a, b, 17, 8, 2);
    lemma_step_zero(Product::Geometric, a, b, 17, 9, 24);
    lemma_step_zero(Product::Geometric, a, b, 17, 10, 19);
    lemma_step_add(Product::Geometric, a, b, 17, 11, 1);
    lemma_step_zero(Product::Geometric, a, b, 17, 12, 21);
    lemma_step_zero(Product::Geometric, a, b, 17, 13, 16);
    lemma_step_zero(Product::Geometric, a, b, 17, 14, 31);
    lemma_step_zero(Product::Geometric, a, b, 17, 15, 18);
    lemma_step_zero(Product::Geometric, a, b, 17, 16, 13);
    lemma_step_zero(Product::Geometric, a, b, 17, 17, 0);
    lemma_step_zero(Product::Geometric, a, b, 17, 18, 15);
    lemma_step_zero(Product::Geometric, a, b, 17, 19, 10);
    lemma_step_zero(Product::Geometric, a, b, 17, 20, 30);
    lemma_step_zero(Product::Geometric, a, b, 17, 21, 12);
    lemma_step_zero(Product::Geometric, a, b, 17, 22, 7);
    lemma_step_zero(Product::Geometric, a, b, 17, 23, 29);
    lemma_step_zero(Product::Geometric, a, b, 17, 24, 9);
    lemma_step_zero(Product::Geometric, a, b, 17, 25, 27);
    lemma_step_zero(Product::Geometric, a, b, 17, 26, 3);
    lemma_step_zero(Product::Geometric, a, b, 17, 27, 25);
    lemma_step_zero(Product::Geometric, a, b, 17, 28, 5);
    lemma_step_zero(Product::Geometric, a, b, 17, 29, 23);
    lemma_step_zero(Product::Geometric, a, b, 17, 30, 20);
    lemma_step_zero(Product::Geometric, a, b, 17, 31, 14);
}

/// The coefficient of `e12n` in the product of a translator with a point.
pub proof fn lemma_translator_point_e12n(a: R410<real>, b: R410<real>)
    requires
        zero_outside(a, |i: int| translator_blade(i)),
        zero_outside(b, |i: int| point_blade(i)),
    ensures
        real_sum(Product::Geometric, a, b, 18, 31) == -(b.e2 * a.e1n) + b.e1 * a.e2n,
{
    lemma_step_first(Product::Geometric, a, b, 18);
    lemma_zero_times(b.e12n, a.s);
    lemma_step_zero(Product::Geometric, a, b, 18, 1, 12);
    lemma_step_zero(Product::Geometric, a, b, 18, 2, 9);
    lemma_step_zero(Product::Geometric, a, b, 18, 3, 27);
    lemma_step_zero(Product::Geometric, a, b, 18, 4, 28);
    lemma_step_zero(Product::Geometric, a, b, 18, 5, 6);
    lemma_step_zero(Product::Geometric, a, b, 18, 6, 5);
    lemma_step_zero(Product::Geometric, a, b, 18, 7, 23);
    lemma_step_zero(Product::Geometric, a, b, 18, 8, 24);
    lemma_step_sub(Product::Geometric, a, b, 18, 9, 2);
    lemma_step_zero(Product::Geometric, a, b, 18, 10, 20);
    lemma_step_zero(Product::Geometric, a, b, 18, 11, 21);
    lemma_step_add(Product::Geometric, a, b, 18, 12, 1);
    lemma_step_zero(Product::Geometric, a, b, 18, 13, 31);
    lemma_step_zero(Product::Geometric, a, b, 18, 14, 16);
    lemma_step_zero(Product::Geometric, a, b, 18, 15, 17);
    lemma_step_zero(Product::Geometric, a, b, 18, 16, 14);
    lemma_step_zero(Product::Geometric, a, b, 18, 17, 15);
    lemma_step_zero(Product::Geometric, a, b, 18, 18, 0);
    lemma_step_zero(Product::Geometric, a, b, 18, 19, 30);
    lemma_step_zero(Product::Geometric, a, b, 18, 20, 10);
    lemma_step_zero(Product::Geometric, a, b, 18, 21, 11);
    lemma_step_zero(Product::Geometric, a, b, 18, 22, 29);
    lemma_step_zero(Product::Geometric, a, b, 18, 23, 7);
    lemma_step_zero(Product::Geometric, a, b, 18, 24, 8);
    lemma_step_zero(Product::Geometric, a, b, 18, 25, 26);
    lemma_step_zero(Product::Geometric, a, b, 18, 26, 25);
    lemma_step_zero(Product::Geometric, a, b, 18, 27, 3);
    lemma_step_zero(Product::Geometric, a, b, 18, 28, 4);
    lemma_step_zero(Product::Geometric, a, b, 18, 29, 22);
    lemma_step_zero(Product::Geometric, a, b, 18, 30, 19);
    lemma_step_zero(Product::Geometric, a, b, 18, 31, 13);
}

/// The coefficient of `e13p` in the product of a translator with a point.
pub proof fn lemma_translator_point_e13p(a: R410<real>, b: R410<real>)
    requires
        zero_outside(a, |i: int| translator_blade(i)),
        zero_outside(b, |i: int| point_blade(i)),
    ensures
        real_sum(Product::Geometric, a, b, 19, 31) == -(b.e3 * a.e1p) + b.e1 * a.e3p,
{
    lemma_step_first(Product::Geometric, a, b, 19);
    lemma_zero_times(b.e13p, a.s);
    lemma_step_zero(Product::Geometric, a, b, 19, 1, 13);
    lemma_step_zero(Product::Geometric, a, b, 19, 2, 26);
    lemma_step_zero(Product::Geometric, a, b, 19, 3, 8);
    lemma_step_zero(Product::Geometric, a, b, 19, 4, 7);
    lemma_step_zero(Product::Geometric, a, b, 19, 5, 29);
    lemma_step_zero(Product::Geometric, a, b, 19, 6, 22);
    lemma_step_zero(Product::Geometric, a, b, 19, 7, 4);
    lemma_step_sub(Product::Geometric, a, b, 19, 8, 3);
    lemma_step_zero(Product::Geometric, a, b, 19, 9, 25);
    lemma_step_zero(Product::Geometric, a, b, 19, 10, 17);
    lemma_step_zero(Product::Geometric, a, b, 19, 11, 16);
    lemma_step_zero(Product::Geometric, a, b, 19, 12, 31);
    lemma_step_add(Product::Geometric, a, b, 19, 13, 1);
    lemma_step_zero(Product::Geometric, a, b, 19, 14, 21);
    lemma_step_zero(Product::Geometric, a, b, 19, 15, 20);
    lemma_step_zero(Product::Geometric, a, b, 19, 16, 11);
    lemma_step_zero(Product::Geometric, a, b, 19, 17, 10);
    lemma_step_zero(Product::Geometric, a, b, 19, 18, 30);
    lemma_step_zero(Product::Geometric, a, b, 19, 19, 0);
    lemma_step_zero(Product::Geometric, a, b, 19, 20, 15);
    lemma_step_zero(Product::Geometric, a, b, 19, 21, 14);
    lemma_step_zero(Product::Geometric, a, b, 19, 22, 6);
    lemma_step_zero(Product::Geometric, a, b, 19, 23, 28);
    lemma_step_zero(Product::Geometric, a, b, 19, 24, 27);
    lemma_step_zero(Product::Geometric, a, b, 19, 25, 9);
    lemma_step_zero(Product::Geometric, a, b, 19, 26, 2);
    lemma_step_zero(Product::Geometric, a, b, 19, 27, 24);
    lemma_step_zero(Product::Geometric, a, b, 19, 28, 23);
    lemma_step_zero(Product::Geometric, a, b, 19, 29, 5);
    lemma_step_zero(Product::Geometric, a, b, 19, 30, 18);
    lemma_step_zero(Product::Geometric, a, b, 19, 31, 12);
}

/// The coefficient of `e13n` in the product of a translator with a point.
pub proof fn lemma_translator_point_e13n(a: R410<real>, b: R410<real>)
    requires
        zero_outside(a, |i: int| translator_blade(i)),
        zero_outside(b, |i: int| point_blade(i)),
    ensures
        real_sum(Product::Geometric, a, b, 20, 31) == -(b.e3 * a.e1n) + b.e1 * a.e3n,
{
    lemma_step_first(Product::Geometric, a, b, 20);
    lemma_zero_times(b.e13n, a.s);
    lemma_step_zero(Product::Geometric, a, b, 20, 1, 14);
    lemma_step_zero(Product::Geometric, a, b, 20, 2, 27);
    lemma_step_zero(Product::Geometric, a, b, 20, 3, 9);
    lemma_step_zero(Product::Geometric, a, b, 20, 4, 29);
    lemma_step_zero(Product::Geometric, a, b, 20, 5, 7);
    lemma_step_zero(Product::Geometric, a, b, 20, 6, 23);
    lemma_step_zero(Product::Geometric, a, b, 20, 7, 5);
    lemma_step_zero(Product::Geometric, a, b, 20, 8, 25);
    lemma_step_sub(Product::Geometric, a, b, 20, 9, 3);
    lemma_step_zero(Product::Geometric, a, b, 20, 10, 18);
    lemma_step_zero(Product::Geometric, a, b, 20, 11, 31);
    lemma_step_zero(Product::Geometric, a, b, 20, 12, 16);
    lemma_step_zero(Product::Geometric, a, b, 20, 13, 21);
    lemma_step_add(Product::Geometric, a, b, 20, 14, 1);
    lemma_step_zero(Product::Geometric, a, b, 20, 15, 19);
    lemma_step_zero(Product::Geometric, a, b, 20, 16, 12);
    lemma_step_zero(Product::Geometric, a, b, 20, 17, 30);
    lemma_step_zero(Product::Geometric, a, b, 20, 18, 10);
    lemma_step_zero(Product::Geometric, a, b, 20, 19, 15);
    lemma_step_zero(Product::Geometric, a, b, 20, 20, 0);
    lemma_step_zero(Product::Geometric, a, b, 20, 21, 13);
    lemma_step_zero(Product::Geometric, a, b, 20, 22, 28);
    lemma_step_zero(Product::Geometric, a, b, 20, 23, 6);
    lemma_step_zero(Product::Geometric, a, b, 20, 24, 26);
    lemma_step_zero(Product::Geometric, a, b, 20, 25, 8);
    lemma_step_zero(Product::Geometric, a, b, 20, 26, 24);
    lemma_step_zero(Product::Geometric, a, b, 20, 27, 2);
    lemma_step_zero(Product::Geometric, a, b, 20, 28, 22);
    lemma_step_zero(Product::Geometric, a, b, 20, 29, 4);
    lemma_step_zero(Product::Geometric, a, b, 20, 30, 17);
    lemma_step_zero(Product::Geometric, a, b, 20, 31, 11);
}

/// The coefficient of `e1pn` in the product of a translator with a point.
pub proof fn lemma_translator_point_e1pn(a: R410<real>, b: R410<real>)
    requires
        zero_outside(a, |i: int| translator_blade(i)),
        zero_outside(b, |i: int| point_blade(i)),
    ensures
        real_sum(Product::Geometric, a, b, 21, 31) == b.en * a.e1p - b.ep * a.e1n,
{
    lemma_step_first(Product::Geometric, a, b, 21);
    lemma_zero_times(b.e1pn, a.s);
    lemma_step_zero(Product::Geometric, a, b, 21, 1, 15);
    lemma_step_zero(Product::Geometric, a, b, 21, 2, 28);
    lemma_step_zero(Product::Geometric, a, b, 21, 3, 29);
    lemma_step_zero(Product::Geometric, a, b, 21, 4, 9);
    lemma_step_zero(Product::Geometric, a, b, 21, 5, 8);
    lemma_step_zero(Product::Geometric, a, b, 21, 6, 24);
    lemma_step_zero(Product::Geometric, a, b, 21, 7, 25);
    lemma_step_add(Product::Geometric, a, b, 21, 8, 5);
    lemma_step_sub(Product::Geometric, a, b, 21, 9, 4);
    lemma_step_zero(Product::Geometric, a, b, 21, 10, 31);
    lemma_step_zero(Product::Geometric, a, b, 21, 11, 18);
    lemma_step_zero(Product::Geometric, a, b, 21, 12, 17);
    lemma_step_zero(Product::Geometric, a, b, 21, 13, 20);
    lemma_step_zero(Product::Geometric, a, b, 21, 14, 19);
    lemma_step_zero(Product::Geometric, a, b, 21, 15, 1);
    lemma_step_zero(Product::Geometric, a, b, 21, 16, 30);
    lemma_step_zero(Product::Geometric, a, b, 21, 17, 12);
    lemma_step_zero(Product::Geometric, a, b, 21, 18, 11);
    lemma_step_zero(Product::Geometric, a, b, 21, 19, 14);
    lemma_step_zero(Product::Geometric, a, b, 21, 20, 13);
    lemma_step_zero(Product::Geometric, a, b, 21, 21, 0);
    lemma_step_zero(Product::Geometric, a, b, 21, 22, 27);
    lemma_step_zero(Product::Geometric, a, b, 21, 23, 26);
    lemma_step_zero(Product::Geometric, a, b, 21, 24, 6);
    lemma_step_zero(Product::Geometric, a, b, 21, 25, 7);
    lemma_step_zero(Product::Geometric, a, b, 21, 26, 23);
    lemma_step_zero(Product::Geometric, a, b, 21, 27, 22);
    lemma_step_zero(Product::Geometric, a, b, 21, 28, 2);
    lemma_step_zero(Product::Geometric, a, b, 21, 29, 3);
    lemma_step_zero(Product::Geometric, a, b, 21, 30, 16);
    lemma_step_zero(Product::Geometric, a, b, 21, 31, 10);
}

/// The coefficient of `e23p` in the product of a translator with a point.
pub proof fn lemma_translator_point_e23p(a: R410<real>, b: R410<real>)
    requires
        zero_outside(a, |i: int| translator_blade(i)),
        zero_outside(b, |i: int| point_blade(i)),
    ensures
        real_sum(Product::Geometric, a, b, 22, 31) == -(b.e3 * a.e2p) + b.e2 * a.e3p,
{
    lemma_step_first(Product::Geometric, a, b, 22);
    lemma_zero_times(b.e23p, a.s);
    lemma_step_zero(Product::Geometric, a, b, 22, 1, 26);
    lemma_step_zero(Product::Geometric, a, b, 22, 2, 13);
    lemma_step_zero(Product::Geometric, a, b, 22, 3, 11);
    lemma_step_zero(Product::Geometric, a, b, 22, 4, 10);
    lemma_step_zero(Product::Geometric, a, b, 22, 5, 30);
    lemma_step_zero(Product::Geometric, a, b, 22, 6, 19);
    lemma_step_zero(Product::Geometric, a, b, 22, 7, 17);
    lemma_step_zero(Product::Geometric, a, b, 22, 8, 16);
    lemma_step_zero(Product::Geometric, a, b, 22, 9, 31);
    lemma_step_zero(Product::Geometric, a, b, 22, 10, 4);
    lemma_step_sub(Product::Geometric, a, b, 22, 11, 3);
    lemma_step_zero(Product::Geometric, a, b, 22, 12, 25);
    lemma_step_add(Product::Geometric, a, b, 22, 13, 2);
    lemma_step_zero(Product::Geometric, a, b, 22, 14, 24);
    lemma_step_zero(Product::Geometric, a, b, 22, 15, 23);
    lemma_step_zero(Product::Geometric, a, b, 22, 16, 8);
    lemma_step_zero(Product::Geometric, a, b, 22, 17, 7);
    lemma_step_zero(Product::Geometric, a, b, 22, 18, 29);
    lemma_step_zero(Product::Geometric, a, b, 22, 19, 6);
    lemma_step_zero(Product::Geometric, a, b, 22, 20, 28);
    lemma_step_zero(Product::Geometric, a, b, 22, 21, 27);
    lemma_step_zero(Product::Geometric, a, b, 22, 22, 0);
    lemma_step_zero(Product::Geometric, a, b, 22, 23, 15);
    lemma_step_zero(Product::Geometric, a, b, 22, 24, 14);
    lemma_step_zero(Product::Geometric, a, b, 22, 25, 12);
    lemma_step_zero(Product::Geometric, a, b, 22, 26, 1);
    lemma_step_zero(Product::Geometric, a, b, 22, 27, 21);
    lemma_step_zero(Product::Geometric, a, b, 22, 28, 20);
    lemma_step_zero(Product::Geometric, a, b, 22, 29, 18);
    lemma_step_zero(Product::Geometric, a, b, 22, 30, 5);
    lemma_step_zero(Product::Geometric, a, b, 22, 31, 9);
}

/// The coefficient of `e23n` in the product of a translator with a point.
pub proof fn lemma_translator_point_e23n(a: R410<real>, b: R410<real>)
    requires
        zero_outside(a, |i: int| translator_blade(i)),
        zero_outside(b, |i: int| point_blade(i)),
    ensures
        real_sum(Product::Geometric, a, b, 23, 31) == -(b.e3 * a.e2n) + b.e2 * a.e3n,
{
    lemma_step_first(Product::Geometric, a, b, 23);
    lemma_zero_times(b.e23n, a.s);
    lemma_step_zero(Product::Geometric, a, b, 23, 1, 27);
    lemma_step_zero(Product::Geometric, a, b, 23, 2, 14);
    lemma_step_zero(Product::Geometric, a, b, 23, 3, 12);
    lemma_step_zero(Product::Geometric, a, b, 23, 4, 30);
    lemma_step_zero(Product::Geometric, a, b, 23, 5, 10);
    lemma_step_zero(Product::Geometric, a, b, 23, 6, 20);
    lemma_step_zero(Product::Geometric, a, b, 23, 7, 18);
    lemma_step_zero(Product::Geometric, a, b, 23, 8, 31);
    lemma_step_zero(Product::Geometric, a, b, 23, 9, 16);
    lemma_step_zero(Product::Geometric, a, b, 23, 10, 5);
    lemma_step_zero(Product::Geometric, a, b, 23, 11, 25);
    lemma_step_sub(Product::Geometric, a, b, 23, 12, 3);
    lemma_step_zero(Product::Geometric, a, b, 23, 13, 24);
    lemma_step_add(Product::Geometric, a, b, 23, 14, 2);
    lemma_step_zero(Product::Geometric, a, b, 23, 15, 22);
    lemma_step_zero(Product::Geometric, a, b, 23, 16, 9);
    lemma_step_zero(Product::Geometric, a, b, 23, 17, 29);
    lemma_step_zero(Product::Geometric, a, b, 23, 18, 7);
    lemma_step_zero(Product::Geometric, a, b, 23, 19, 28);
    lemma_step_zero(Product::Geometric, a, b, 23, 20, 6);
    lemma_step_zero(Product::Geometric, a, b, 23, 21, 26);
    lemma_step_zero(Product::Geometric, a, b, 23, 22, 15);
    lemma_step_zero(Product::Geometric, a, b, 23, 23, 0);
    lemma_step_zero(Product::Geometric, a, b, 23, 24, 13);
    lemma_step_zero(Product::Geometric, a, b, 23, 25, 11);
    lemma_step_zero(Product::Geometric, a, b, 23, 26, 21);
    lemma_step_zero(Product::Geometric, a, b, 23, 27, 1);
    lemma_step_zero(Product::Geometric, a, b, 23, 28, 19);
    lemma_step_zero(Product::Geometric, a, b, 23, 29, 17);
    lemma_step_zero(Product::Geometric, a, b, 23, 30, 4);
    lemma_step_zero(Product::Geometric, a, b, 23, 31, 8);
}

/// The coefficient of `e2pn` in the product of a translator with a point.
pub proof fn lemma_translator_point_e2pn(a: R410<real>, b: R410<real>)
    requires
        zero_outside(a, |i: int| translator_blade(i)),
        zero_outside(b, |i: int| point_blade(i)),
    ensures
        real_sum(Product::Geometric, a, b, 24, 31) == b.en * a.e2p - b.ep * a.e2n,
{
    lemma_step_first(Product::Geometric, a, b, 24);
    lemma_zero_times(b.e2pn, a.s);
    lemma_step_zero(Product::Geometric, a, b, 24, 1, 28);
    lemma_step_zero(Product::Geometric, a, b, 24, 2, 15);
    lemma_step_zero(Product::Geometric, a, b, 24, 3, 30);
    lemma_step_zero(Product::Geometric, a, b, 24, 4, 12);
    lemma_step_zero(Product::Geometric, a, b, 24, 5, 11);
    lemma_step_zero(Product::Geometric, a, b, 24, 6, 21);
    lemma_step_zero(Product::Geometric, a, b, 24, 7, 31);
    lemma_step_zero(Product::Geometric, a, b, 24, 8, 18);
    lemma_step_zero(Product::Geometric, a, b, 24, 9, 17);
    lemma_step_zero(Product::Geometric, a, b, 24, 10, 25);
    lemma_step_add(Product::Geometric, a, b, 24, 11, 5);
    lemma_step_sub(Product::Geometric, a, b, 24, 12, 4);
    lemma_step_zero(Product::Geometric, a, b, 24, 13, 23);
    lemma_step_zero(Product::Geometric, a, b, 24, 14, 22);
    lemma_step_zero(Product::Geometric, a, b, 24, 15, 2);
    lemma_step_zero(Product::Geometric, a, b, 24, 16, 29);
    lemma_step_zero(Product::Geometric, a, b, 24, 17, 9);
    lemma_step_zero(Product::Geometric, a, b, 24, 18, 8);
    lemma_step_zero(Product::Geometric, a, b, 24, 19, 27);
    lemma_step_zero(Product::Geometric, a, b, 24, 20, 26);
    lemma_step_zero(Product::Geometric, a, b, 24, 21, 6);
    lemma_step_zero(Product::Geometric, a, b, 24, 22, 14);
    lemma_step_zero(Product::Geometric, a, b, 24, 23, 13);
    lemma_step_zero(Product::Geometric, a, b, 24, 24, 0);
    lemma_step_zero(Product::Geometric, a, b, 24, 25, 10);
    lemma_step_zero(Product::Geometric, a, b, 24, 26, 20);
    lemma_step_zero(Product::Geometric, a, b, 24, 27, 19);
    lemma_step_zero(Product::Geometric, a, b, 24, 28, 1);
    lemma_step_zero(Product::Geometric, a, b, 24, 29, 16);
    lemma_step_zero(Product::Geometric, a, b, 24, 30, 3);
    lemma_step_zero(Product::Geometric, a, b, 24, 31, 7);
}

/// The coefficient of `e3pn` in the product of a translator with a point.
pub proof fn lemma_translator_point_e3pn(a: R410<real>, b: R410<real>)
    requires
        zero_outside(a, |i: int| translator_blade(i)),
        zero_outside(b, |i: int| point_blade(i)),
    ensures
        real_sum(Product::Geometric, a, b, 25, 31) == b.en * a.e3p - b.ep * a.e3n,
{
    lemma_step_first(Product::Geometric, a, b, 25);
    lemma_zero_times(b.e3pn, a.s);
    lemma_step_zero(Product::Geometric, a, b, 25, 1, 29);
    lemma_step_zero(Product::Geometric, a, b, 25, 2, 30);
    lemma_step_zero(Product::Geometric, a, b, 25, 3, 15);
    lemma_step_zero(Product::Geometric, a, b, 25, 4, 14);
    lemma_step_zero(Product::Geometric, a, b, 25, 5, 13);
    lemma_step_zero(Product::Geometric, a, b, 25, 6, 31);
    lemma_step_zero(Product::Geometric, a, b, 25, 7, 21);
    lemma_step_zero(Product::Geometric, a, b, 25, 8, 20);
    lemma_step_zero(Product::Geometric, a, b, 25, 9, 19);
    lemma_step_zero(Product::Geometric, a, b, 25, 10, 24);
    lemma_step_zero(Product::Geometric, a, b, 25, 11, 23);
    lemma_step_zero(Product::Geometric, a, b, 25, 12, 22);
    lemma_step_add(Product::Geometric, a, b, 25, 13, 5);
    lemma_step_sub(Product::Geometric, a, b, 25, 14, 4);
    lemma_step_zero(Product::Geometric, a, b, 25, 15, 3);
    lemma_step_zero(Product::Geometric, a, b, 25, 16, 28);
    lemma_step_zero(Product::Geometric, a, b, 25, 17, 27);
    lemma_step_zero(Product::Geometric, a, b, 25, 18, 26);
    lemma_step_zero(Product::Geometric, a, b, 25, 19, 9);
    lemma_step_zero(Product::Geometric, a, b, 25, 20, 8);
    lemma_step_zero(Product::Geometric, a, b, 25, 21, 7);
    lemma_step_zero(Product::Geometric, a, b, 25, 22, 12);
    lemma_step_zero(Product::Geometric, a, b, 25, 23, 11);
    lemma_step_zero(Product::Geometric, a, b, 25, 24, 10);
    lemma_step_zero(Product::Geometric, a, b, 25, 25, 0);
    lemma_step_zero(Product::Geometric, a, b, 25, 26, 18);
    lemma_step_zero(Product::Geometric, a, b, 25, 27, 17);
    lemma_step_zero(Product::Geometric, a, b, 25, 28, 16);
    lemma_step_zero(Product::Geometric, a, b, 25, 29, 1);
    lemma_step_zero(Product::Geometric, a, b, 25, 30, 2);
    lemma_step_zero(Product::Geometric, a, b, 25, 31, 6);
}

/// The scalar part of the inner product of two points.
pub proof fn lemma_point_inner_point_s(a: R410<real>, b: R410<real>)
    requires
        zero_outside(a, |i: int| point_blade(i)),
        zero_outside(b, |i: int| point_blade(i)),
    ensures
        real_sum(Product::Inner, a, b, 0, 31) == b.e1 * a.e1 + b.e2 * a.e2 + b.e3 * a.e3 + b.ep * a.ep - b.en * a.en,
{
    lemma_step_first(Product::Inner, a, b, 0);
    lemma_zero_times(b.s, a.s);
    lemma_step_add(Product::Inner, a, b, 0, 1, 1);
    lemma_step_add(Product::Inner, a, b, 0, 2, 2);
    lemma_step_add(Product::Inner, a, b, 0, 3, 3);
    lemma_step_add(Product::Inner, a, b, 0, 4, 4);
    lemma_step_sub(Product::Inner, a, b, 0, 5, 5);
    lemma_step_zero(Product::Inner, a, b, 0, 6, 6);
    lemma_step_zero(Product::Inner, a, b, 0, 7, 7);
    lemma_step_zero(Product::Inner, a, b, 0, 8, 8);
    lemma_step_zero(Product::Inner, a, b, 0, 9, 9);
    lemma_step_zero(Product::Inner, a, b, 0, 10, 10);
    lemma_step_zero(Product::Inner, a, b, 0, 11, 11);
    lemma_step_zero(Product::Inner, a, b, 0, 12, 12);
    lemma_step_zero(Product::Inner, a, b, 0, 13, 13);
    lemma_step_zero(Product::Inner, a, b, 0, 14, 14);
    lemma_step_zero(Product::Inner, a, b, 0, 15, 15);
    lemma_step_zero(Product::Inner, a, b, 0, 16, 16);
    lemma_step_zero(Product::Inner, a, b, 0, 17, 17);
    lemma_step_zero(Product::Inner, a, b, 0, 18, 18);
    lemma_step_zero(Product::Inner, a, b, 0, 19, 19);
    lemma_step_zero(Product::Inner, a, b, 0, 20, 20);
    lemma_step_zero(Product::Inner, a, b, 0, 21, 21);
    lemma_step_zero(Product::Inner, a, b, 0, 22, 22);
    lemma_step_zero(Product::Inner, a, b, 0, 23, 23);
    lemma_step_zero(Product::Inner, a, b, 0, 24, 24);
    lemma_step_zero(Product::Inner, a, b, 0, 25, 25);
    lemma_step_zero(Product::Inner, a, b, 0, 26, 26);
    lemma_step_zero(Product::Inner, a, b, 0, 27, 27);
    lemma_step_zero(Product::Inner, a, b, 0, 28, 28);
    lemma_step_zero(Product::Inner, a, b, 0, 29, 29);
    lemma_step_zero(Product::Inner, a, b, 0, 30, 30);
    lemma_step_zero(Product::Inner, a, b, 0, 31, 31);
}

/// The coefficient of `e1` in the product of any multivector with a translator.
pub proof fn lemma_any_translator_e1(a: R410<real>, b: R410<real>)
    requires
        zero_outside(b, |i: int| translator_blade(i)),
    ensures
        real_sum(Product::Geometric, a, b, 1, 31) == b.s * a.e1 - b.e1p * a.ep + b.e1n * a.en - b.e2p * a.e12p + b.e2n * a.e12n - b.e3p * a.e13p + b.e3n * a.e13n,
{
    lemma_step_first(Product::Geometric, a, b, 1);
    lemma_zero_times(b.e1, a.s);
    lemma_step_add(Product::Geometric, a, b, 1, 1, 0);
    lemma_step_zero(Product::Geometric, a, b, 1, 2, 6);
    lemma_step_zero(Product::Geometric, a, b, 1, 3, 7);
    lemma_step_sub(Product::Geometric, a, b, 1, 4, 8);
    lemma_step_add(Product::Geometric, a, b, 1, 5, 9);
    lemma_step_zero(Product::Geometric, a, b, 1, 6, 2);
    lemma_step_zero(Product::Geometric, a, b, 1, 7, 3);
    lemma_step_zero(Product::Geometric, a, b, 1, 8, 4);
    lemma_step_zero(Product::Geometric, a, b, 1, 9, 5);
    lemma_step_zero(Product::Geometric, a, b, 1, 10, 16);
    lemma_step_zero(Product::Geometric, a, b, 1, 11, 17);
    lemma_step_zero(Product::Geometric, a, b, 1, 12, 18);
    lemma_step_zero(Product::Geometric, a, b, 1, 13, 19);
    lemma_step_zero(Product::Geometric, a, b, 1, 14, 20);
    lemma_step_zero(Product::Geometric, a, b, 1, 15, 21);
    lemma_step_zero(Product::Geometric, a, b, 1, 16, 10);
    lemma_step_sub(Product::Geometric, a, b, 1, 17, 11);
    lemma_step_add(Product::Geometric, a, b, 1, 18, 12);
    lemma_step_sub(Product::Geometric, a, b, 1, 19, 13);
    lemma_step_add(Product::Geometric, a, b, 1, 20, 14);
    lemma_step_zero(Product::Geometric, a, b, 1, 21, 15);
    lemma_step_zero(Product::Geometric, a, b, 1, 22, 26);
    lemma_step_zero(Product::Geometric, a, b, 1, 23, 27);
    lemma_step_zero(Product::Geometric, a, b, 1, 24, 28);
    lemma_step_zero(Product::Geometric, a, b, 1, 25, 29);
    lemma_step_zero(Product::Geometric, a, b, 1, 26, 22);
    lemma_step_zero(Product::Geometric, a, b, 1, 27, 23);
    lemma_step_zero(Product::Geometric, a, b, 1, 28, 24);
    lemma_step_zero(Product::Geometric, a, b, 1, 29, 25);
    lemma_step_zero(Product::Geometric, a, b, 1, 30, 31);
    lemma_step_zero(Product::Geometric, a, b, 1, 31, 30);
}

/// The coefficient of `e2` in the product of any multivector with a translator.
pub proof fn lemma_any_translator_e2(a: R410<real>, b: R410<real>)
    requires
        zero_outside(b, |i: int| translator_blade(i)),
    ensures
        real_sum(Product::Geometric, a, b, 2, 31) == b.s * a.e2 - b.e2p * a.ep + b.e2n * a.en + b.e1p * a.e12p - b.e1n * a.e12n - b.e3p * a.e23p + b.e3n * a.e23n,
{
    lemma_step_first(Product::Geometric, a, b, 2);
    lemma_zero_times(b.e2, a.s);
    lemma_step_zero(Product::Geometric, a, b, 2, 1, 6);
    lemma_step_add(Product::Geometric, a, b, 2, 2, 0);
    lemma_step_zero(Product::Geometric, a, b, 2, 3, 10);
    lemma_step_sub(Product::Geometric, a, b, 2, 4, 11);
    lemma_step_add(Product::Geometric, a, b, 2, 5, 12);
    lemma_step_zero(Product::Geometric, a, b, 2, 6, 1);
    lemma_step_zero(Product::Geometric, a, b, 2, 7, 16);
    lemma_step_zero(Product::Geometric, a, b, 2, 8, 17);
    lemma_step_zero(Product::Geometric, a, b, 2, 9, 18);
    lemma_step_zero(Product::Geometric, a, b, 2, 10, 3);
    lemma_step_zero(Product::Geometric, a, b, 2, 11, 4);
    lemma_step_zero(Product::Geometric, a, b, 2, 12, 5);
    lemma_step_zero(Product::Geometric, a, b, 2, 13, 22);
    lemma_step_zero(Product::Geometric, a, b, 2, 14, 23);
    lemma_step_zero(Product::Geometric, a, b, 2, 15, 24);
    lemma_step_zero(Product::Geometric, a, b, 2, 16, 7);
    lemma_step_add(Product::Geometric, a, b, 2, 17, 8);
    lemma_step_sub(Product::Geometric, a, b, 2, 18, 9);
    lemma_step_zero(Product::Geometric, a, b, 2, 19, 26);
    lemma_step_zero(Product::Geometric, a, b, 2, 20, 27);
    lemma_step_zero(Product::Geometric, a, b, 2, 21, 28);
    lemma_step_sub(Product::Geometric, a, b, 2, 22, 13);
    lemma_step_add(Product::Geometric, a, b, 2, 23, 14);
    lemma_step_zero(Product::Geometric, a, b, 2, 24, 15);
    lemma_step_zero(Product::Geometric, a, b, 2, 25, 30);
    lemma_step_zero(Product::Geometric, a, b, 2, 26, 19);
    lemma_step_zero(Product::Geometric, a, b, 2, 27, 20);
    lemma_step_zero(Product::Geometric, a, b, 2, 28, 21);
    lemma_step_zero(Product::Geometric, a, b, 2, 29, 31);
    lemma_step_zero(Product::Geometric, a, b, 2, 30, 25);
    lemma_step_zero(Product::Geometric, a, b, 2, 31, 29);
}

/// The coefficient of `e3` in the product of any multivector with a translator.
pub proof fn lemma_any_translator_e3(a: R410<real>, b: R410<real>)
    requires
        zero_outside(b, |i: int| translator_blade(i)),
    ensures
        real_sum(Product::Geometric, a, b, 3, 31) == b.s * a.e3 - b.e3p * a.ep + b.e3n * a.en + b.e1p * a.e13p - b.e1n * a.e13n + b.e2p * a.e23p - b.e2n * a.e23n,
{
    lemma_step_first(Product::Geometric, a, b, 3);
    lemma_zero_times(b.e3, a.s);
    lemma_step_zero(Product::Geometric, a, b, 3, 1, 7);
    lemma_step_zero(Product::Geometric, a, b, 3, 2, 10);
    lemma_step_add(Product::Geometric, a, b, 3, 3, 0);
    lemma_step_sub(Product::Geometric, a, b, 3, 4, 13);
    lemma_step_add(Product::Geometric, a, b, 3, 5, 14);
    lemma_step_zero(Product::Geometric, a, b, 3, 6, 16);
    lemma_step_zero(Product::Geometric, a, b, 3, 7, 1);
    lemma_step_zero(Product::Geometric, a, b, 3, 8, 19);
    lemma_step_zero(Product::Geometric, a, b, 3, 9, 20);
    lemma_step_zero(Product::Geometric, a, b, 3, 10, 2);
    lemma_step_zero(Product::Geometric, a, b, 3, 11, 22);
    lemma_step_zero(Product::Geometric, a, b, 3, 12, 23);
    lemma_step_zero(Product::Geometric, a, b, 3, 13, 4);
    lemma_step_zero(Product::Geometric, a, b, 3, 14, 5);
    lemma_step_zero(Product::Geometric, a, b, 3, 15, 25);
    lemma_step_zero(Product::Geometric, a, b, 3, 16, 6);
    lemma_step_zero(Product::Geometric, a, b, 3, 17, 26);
    lemma_step_zero(Product::Geometric, a, b, 3, 18, 27);
    lemma_step_add(Product::Geometric, a, b, 3, 19, 8);
    lemma_step_sub(Product::Geometric, a, b, 3, 20, 9);
    lemma_step_zero(Product::Geometric, a, b, 3, 21, 29);
    lemma_step_add(Product::Geometric, a, b, 3, 22, 11);
    lemma_step_sub(Product::Geometric, a, b, 3, 23, 12);
    lemma_step_zero(Product::Geometric, a, b, 3, 24, 30);
    lemma_step_zero(Product::Geometric, a, b, 3, 25, 15);
    lemma_step_zero(Product::Geometric, a, b, 3, 26, 17);
    lemma_step_zero(Product::Geometric, a, b, 3, 27, 18);
    lemma_step_zero(Product::Geometric, a, b, 3, 28, 31);
    lemma_step_zero(Product::Geometric, a, b, 3, 29, 21);
    lemma_step_zero(Product::Geometric, a, b, 3, 30, 24);
    lemma_step_zero(Product::Geometric, a, b, 3, 31, 28);
}

/// The coefficient of `ep` in the product of any multivector with a translator.
pub proof fn lemma_any_translator_ep(a: R410<real>, b: R410<real>)
    requires
        zero_outside(b, |i: int| translator_blade(i)),
    ensures
        real_sum(Product::Geometric, a, b, 4, 31) == b.e1p * a.e1 + b.e2p * a.e2 + b.e3p * a.e3 + b.s * a.ep - b.e1n * a.e1pn - b.e2n * a.e2pn - b.e3n * a.e3pn,
{
    lemma_step_first(Product::Geometric, a, b, 4);
    lemma_zero_times(b.ep, a.s);
    lemma_step_add(Product::Geometric, a, b, 4, 1, 8);
    lemma_step_add(Product::Geometric, a, b, 4, 2, 11);
    lemma_step_add(Product::Geometric, a, b, 4, 3, 13);
    lemma_step_add(Product::Geometric, a, b, 4, 4, 0);
    lemma_step_zero(Product::Geometric, a, b, 4, 5, 15);
    lemma_step_zero(Product::Geometric, a, b, 4, 6, 17);
    lemma_step_zero(Product::Geometric, a, b, 4, 7, 19);
    lemma_step_zero(Product::Geometric, a, b, 4, 8, 1);
    lemma_step_zero(Product::Geometric, a, b, 4, 9, 21);
    lemma_step_zero(Product::Geometric, a, b, 4, 10, 22);
    lemma_step_zero(Product::Geometric, a, b, 4, 11, 2);
    lemma_step_zero(Product::Geometric, a, b, 4, 12, 24);
    lemma_step_zero(Product::Geometric, a, b, 4, 13, 3);
    lemma_step_zero(Product::Geometric, a, b, 4, 14, 25);
    lemma_step_zero(Product::Geometric, a, b, 4, 15, 5);
    lemma_step_zero(Product::Geometric, a, b, 4, 16, 26);
    lemma_step_zero(Product::Geometric, a, b, 4, 17, 6);
    lemma_step_zero(Product::Geometric, a, b, 4, 18, 28);
    lemma_step_zero(Product::Geometric, a, b, 4, 19, 7);
    lemma_step_zero(Product::Geometric, a, b, 4, 20, 29);
    lemma_step_sub(Product::Geometric, a, b, 4, 21, 9);
    lemma_step_zero(Product::Geometric, a, b, 4, 22, 10);
    lemma_step_zero(Product::Geometric, a, b, 4, 23, 30);
    lemma_step_sub(Product::Geometric, a, b, 4, 24, 12);
    lemma_step_sub(Product::Geometric, a, b, 4, 25, 14);
    lemma_step_zero(Product::Geometric, a, b, 4, 26, 16);
    lemma_step_zero(Product::Geometric, a, b, 4, 27, 31);
    lemma_step_zero(Product::Geometric, a, b, 4, 28, 18);
    lemma_step_zero(Product::Geometric, a, b, 4, 29, 20);
    lemma_step_zero(Product::Geometric, a, b, 4, 30, 23);
    lemma_step_zero(Product::Geometric, a, b, 4, 31, 27);
}

/// The coefficient of `en` in the product of any multivector with a translator.
pub proof fn lemma_any_translator_en(a: R410<real>, b: R410<real>)
    requires
        zero_outside(b, |i: int| translator_blade(i)),
    ensures
        real_sum(Product::Geometric, a, b, 5, 31) == b.e1n * a.e1 + b.e2n * a.e2 + b.e3n * a.e3 + b.s * a.en - b.e1p * a.e1pn - b.e2p * a.e2pn - b.e3p * a.e3pn,
{
    lemma_step_first(Product::Geometric, a, b, 5);
    lemma_zero_times(b.en, a.s);
    lemma_step_add(Product::Geometric, a, b, 5, 1, 9);
    lemma_step_add(Product::Geometric, a, b, 5, 2, 12);
    lemma_step_add(Product::Geometric, a, b, 5, 3, 14);
    lemma_step_zero(Product::Geometric, a, b, 5, 4, 15);
    lemma_step_add(Product::Geometric, a, b, 5, 5, 0);
    lemma_step_zero(Product::Geometric, a, b, 5, 6, 18);
    lemma_step_zero(Product::Geometric, a, b, 5, 7, 20);
    lemma_step_zero(Product::Geometric, a, b, 5, 8, 21);
    lemma_step_zero(Product::Geometric, a, b, 5, 9, 1);
    lemma_step_zero(Product::Geometric, a, b, 5, 10, 23);
    lemma_step_zero(Product::Geometric, a, b, 5, 11, 24);
    lemma_step_zero(Product::Geometric, a, b, 5, 12, 2);
    lemma_step_zero(Product::Geometric, a, b, 5, 13, 25);
    lemma_step_zero(Product::Geometric, a, b, 5, 14, 3);
    lemma_step_zero(Product::Geometric, a, b, 5, 15, 4);
    lemma_step_zero(Product::Geometric, a, b, 5, 16, 27);
    lemma_step_zero(Product::Geometric, a, b, 5, 17, 28);
    lemma_step_zero(Product::Geometric, a, b, 5, 18, 6);
    lemma_step_zero(Product::Geometric, a, b, 5, 19, 29);
    lemma_step_zero(Product::Geometric, a, b, 5, 20, 7);
    lemma_step_sub(Product::Geometric, a, b, 5, 21, 8);
    lemma_step_zero(Product::Geometric, a, b, 5, 22, 30);
    lemma_step_zero(Product::Geometric, a, b, 5, 23, 10);
    lemma_step_sub(Product::Geometric, a, b, 5, 24, 11);
    lemma_step_sub(Product::Geometric, a, b, 5, 25, 13);
    lemma_step_zero(Product::Geometric, a, b, 5, 26, 31);
    lemma_step_zero(Product::Geometric, a, b, 5, 27, 16);
    lemma_step_zero(Product::Geometric, a, b, 5, 28, 17);
    lemma_step_zero(Product::Geometric, a, b, 5, 29, 19);
    lemma_step_zero(Product::Geometric, a, b, 5, 30, 22);
    lemma_step_zero(Product::Geometric, a, b, 5, 31, 26);
}

/// The coefficient of `e12` in the product of two vectors.
pub proof fn lemma_vector_vector_e12(a: R410<real>, b: R410<real>)
    requires
        zero_outside(a, |i: int| vector_blade(i)),
        zero_outside(b, |i: int| vector_blade(i)),
    ensures
        real_sum(Product::Geometric, a, b, 6, 31) == b.e2 * a.e1 - b.e1 * a.e2,
{
    lemma_step_first(Product::Geometric, a, b, 6);
    lemma_zero_times(b.e12, a.s);
    lemma_step_add(Product::Geometric, a, b, 6, 1, 2);
    lemma_step_sub(Product::Geometric, a, b, 6, 2, 1);
    lemma_step_zero(Product::Geometric, a, b, 6, 3, 16);
    lemma_step_zero(Product::Geometric, a, b, 6, 4, 17);
    lemma_step_zero(Product::Geometric, a, b, 6, 5, 18);
    lemma_step_zero(Product::Geometric, a, b, 6, 6, 0);
    lemma_step_zero(Product::Geometric, a, b, 6, 7, 10);
    lemma_step_zero(Product::Geometric, a, b, 6, 8, 11);
    lemma_step_zero(Product::Geometric, a, b, 6, 9, 12);
    lemma_step_zero(Product::Geometric, a, b, 6, 10, 7);
    lemma_step_zero(Product::Geometric, a, b, 6, 11, 8);
    lemma_step_zero(Product::Geometric, a, b, 6, 12, 9);
    lemma_step_zero(Product::Geometric, a, b, 6, 13, 26);
    lemma_step_zero(Product::Geometric, a, b, 6, 14, 27);
    lemma_step_zero(Product::Geometric, a, b, 6, 15, 28);
    lemma_step_zero(Product::Geometric, a, b, 6, 16, 3);
    lemma_step_zero(Product::Geometric, a, b, 6, 17, 4);
    lemma_step_zero(Product::Geometric, a, b, 6, 18, 5);
    lemma_step_zero(Product::Geometric, a, b, 6, 19, 22);
    lemma_step_zero(Product::Geometric, a, b, 6, 20, 23);
    lemma_step_zero(Product::Geometric, a, b, 6, 21, 24);
    lemma_step_zero(Product::Geometric, a, b, 6, 22, 19);
    lemma_step_zero(Product::Geometric, a, b, 6, 23, 20);
    lemma_step_zero(Product::Geometric, a, b, 6, 24, 21);
    lemma_step_zero(Product::Geometric, a, b, 6, 25, 31);
    lemma_step_zero(Product::Geometric, a, b, 6, 26, 13);
    lemma_step_zero(Product::Geometric, a, b, 6, 27, 14);
    lemma_step_zero(Product::Geometric, a, b, 6, 28, 15);
    lemma_step_zero(Product::Geometric, a, b, 6, 29, 30);
    lemma_step_zero(Product::Geometric, a, b, 6, 30, 29);
    lemma_step_zero(Product::Geometric, a, b, 6, 31, 25);
}

/// The coefficient of `e12` in the outer product of two vectors.
pub proof fn lemma_vector_outer_vector_e12(a: R410<real>, b: R410<real>)
    requires
        zero_outside(a, |i: int| vector_blade(i)),
        zero_outside(b, |i: int| vector_blade(i)),
    ensures
        real_sum(Product::Outer, a, b, 6, 31) == b.e2 * a.e1 - b.e1 * a.e2,
{
    lemma_step_first(Product::Outer, a, b, 6);
    lemma_zero_times(b.e12, a.s);
    lemma_step_add(Product::Outer, a, b, 6, 1, 2);
    lemma_step_sub(Product::Outer, a, b, 6, 2, 1);
    lemma_step_skip(Product::Outer, a, b, 6, 3, 16);
    lemma_step_skip(Product::Outer, a, b, 6, 4, 17);
    lemma_step_skip(Product::Outer, a, b, 6, 5, 18);
    lemma_step_zero(Product::Outer, a, b, 6, 6, 0);
    lemma_step_skip(Product::Outer, a, b, 6, 7, 10);
    lemma_step_skip(Product::Outer, a, b, 6, 8, 11);
    lemma_step_skip(Product::Outer, a, b, 6, 9, 12);
    lemma_step_skip(Product::Outer, a, b, 6, 10, 7);
    lemma_step_skip(Product::Outer, a, b, 6, 11, 8);
    lemma_step_skip(Product::Outer, a, b, 6, 12, 9);
    lemma_step_skip(Product::Outer, a, b, 6, 13, 26);
    lemma_step_skip(Product::Outer, a, b, 6, 14, 27);
    lemma_step_skip(Product::Outer, a, b, 6, 15, 28);
    lemma_step_skip(Product::Outer, a, b, 6, 16, 3);
    lemma_step_skip(Product::Outer, a, b, 6, 17, 4);
    lemma_step_skip(Product::Outer, a, b, 6, 18, 5);
    lemma_step_skip(Product::Outer, a, b, 6, 19, 22);
    lemma_step_skip(Product::Outer, a, b, 6, 20, 23);
    lemma_step_skip(Product::Outer, a, b, 6, 21, 24);
    lemma_step_skip(Product::Outer, a, b, 6, 22, 19);
    lemma_step_skip(Product::Outer, a, b, 6, 23, 20);
    lemma_step_skip(Product::Outer, a, b, 6, 24, 21);
    lemma_step_skip(Product::Outer, a, b, 6, 25, 31);
    lemma_step_skip(Product::Outer, a, b, 6, 26, 13);
    lemma_step_skip(Product::Outer, a, b, 6, 27, 14);
    lemma_step_skip(Product::Outer, a, b, 6, 28, 15);
    lemma_step_skip(Product::Outer, a, b, 6, 29, 30);
    lemma_step_skip(Product::Outer, a, b, 6, 30, 29);
    lemma_step_skip(Product::Outer, a, b, 6, 31, 25);
}

/// The coefficient of `e13` in the product of two vectors.
pub proof fn lemma_vector_vector_e13(a: R410<real>, b: R410<real>)
    requires
        zero_outside(a, |i: int| vector_blade(i)),
        zero_outside(b, |i: int| vector_blade(i)),
    ensures
        real_sum(Product::Geometric, a, b, 7, 31) == b.e3 * a.e1 - b.e1 * a.e3,
{
    lemma_step_first(Product::Geometric, a, b, 7);
    lemma_zero_times(b.e13, a.s);
    lemma_step_add(Product::Geometric, a, b, 7, 1, 3);
    lemma_step_zero(Product::Geometric, a, b, 7, 2, 16);
    lemma_step_sub(Product::Geometric, a, b, 7, 3, 1);
    lemma_step_zero(Product::Geometric, a, b, 7, 4, 19);
    lemma_step_zero(Product::Geometric, a, b, 7, 5, 20);
    lemma_step_zero(Product::Geometric, a, b, 7, 6, 10);
    lemma_step_zero(Product::Geometric, a, b, 7, 7, 0);
    lemma_step_zero(Product::Geometric, a, b, 7, 8, 13);
    lemma_step_zero(Product::Geometric, a, b, 7, 9, 14);
    lemma_step_zero(Product::Geometric, a, b, 7, 10, 6);
    lemma_step_zero(Product::Geometric, a, b, 7, 11, 26);
    lemma_step_zero(Product::Geometric, a, b, 7, 12, 27);
    lemma_step_zero(Product::Geometric, a, b, 7, 13, 8);
    lemma_step_zero(Product::Geometric, a, b, 7, 14, 9);
    lemma_step_zero(Product::Geometric, a, b, 7, 15, 29);
    lemma_step_zero(Product::Geometric, a, b, 7, 16, 2);
    lemma_step_zero(Product::Geometric, a, b, 7, 17, 22);
    lemma_step_zero(Product::Geometric, a, b, 7, 18, 23);
    lemma_step_zero(Product::Geometric, a, b, 7, 19, 4);
    lemma_step_zero(Product::Geometric, a, b, 7, 20, 5);
    lemma_step_zero(Product::Geometric, a, b, 7, 21, 25);
    lemma_step_zero(Product::Geometric, a, b, 7, 22, 17);
    lemma_step_zero(Product::Geometric, a, b, 7, 23, 18);
    lemma_step_zero(Product::Geometric, a, b, 7, 24, 31);
    lemma_step_zero(Product::Geometric, a, b, 7, 25, 21);
    lemma_step_zero(Product::Geometric, a, b, 7, 26, 11);
    lemma_step_zero(Product::Geometric, a, b, 7, 27, 12);
    lemma_step_zero(Product::Geometric, a, b, 7, 28, 30);
    lemma_step_zero(Product::Geometric, a, b, 7, 29, 15);
    lemma_step_zero(Product::Geometric, a, b, 7, 30, 28);
    lemma_step_zero(Product::Geometric, a, b, 7, 31, 24);
}

/// The coefficient of `e13` in the outer product of two vectors.
pub proof fn lemma_vector_outer_vector_e13(a: R410<real>, b: R410<real>)
    requires
        zero_outside(a, |i: int| vector_blade(i)),
        zero_outside(b, |i: int| vector_blade(i)),
    ensures
        real_sum(Product::Outer, a, b, 7, 31) == b.e3 * a.e1 - b.e1 * a.e3,
{
    lemma_step_first(Product::Outer, a, b, 7);
    lemma_zero_times(b.e13, a.s);
    lemma_step_add(Product::Outer, a, b, 7, 1, 3);
    lemma_step_skip(Product::Outer, a, b, 7, 2, 16);
    lemma_step_sub(Product::Outer, a, b, 7, 3, 1);
    lemma_step_skip(Product::Outer, a, b, 7, 4, 19);
    lemma_step_skip(Product::Outer, a, b, 7, 5, 20);
    lemma_step_skip(Product::Outer, a, b, 7, 6, 10);
    lemma_step_zero(Product::Outer, a, b, 7, 7, 0);
    lemma_step_skip(Product::Outer, a, b, 7, 8, 13);
    lemma_step_skip(Product::Outer, a, b, 7, 9, 14);
    lemma_step_skip(Product::Outer, a, b, 7, 10, 6);
    lemma_step_skip(Product::Outer, a, b, 7, 11, 26);
    lemma_step_skip(Product::Outer, a, b, 7, 12, 27);
    lemma_step_skip(Product::Outer, a, b, 7, 13, 8);
    lemma_step_skip(Product::Outer, a, b, 7, 14, 9);
    lemma_step_skip(Product::Outer, a, b, 7, 15, 29);
    lemma_step_skip(Product::Outer, a, b, 7, 16, 2);
    lemma_step_skip(Product::Outer, a, b, 7, 17, 22);
    lemma_step_skip(Product::Outer, a, b, 7, 18, 23);
    lemma_step_skip(Product::Outer, a, b, 7, 19, 4);
    lemma_step_skip(Product::Outer, a, b, 7, 20, 5);
    lemma_step_skip(Product::Outer, a, b, 7, 21, 25);
    lemma_step_skip(Product::Outer, a, b, 7, 22, 17);
    lemma_step_skip(Product::Outer, a, b, 7, 23, 18);
    lemma_step_skip(Product::Outer, a, b, 7, 24, 31);
    lemma_step_skip(Product::Outer, a, b, 7, 25, 21);
    lemma_step_skip(Product::Outer, a, b, 7, 26, 11);
    lemma_step_skip(Product::Outer, a, b, 7, 27, 12);
    lemma_step_skip(Product::Outer, a, b, 7, 28, 30);
    lemma_step_skip(Product::Outer, a, b, 7, 29, 15);
    lemma_step_skip(Product::Outer, a, b, 7, 30, 28);
    lemma_step_skip(Product::Outer, a, b, 7, 31, 24);
}

/// The coefficient of `e23` in the product of two vectors.
pub proof fn lemma_vector_vector_e23(a: R410<real>, b: R410<real>)
    requires
        zero_outside(a, |i: int| vector_blade(i)),
        zero_outside(b, |i: int| vector_blade(i)),
    ensures
        real_sum(Product::Geometric, a, b, 10, 31) == b.e3 * a.e2 - b.e2 * a.e3,
{
    lemma_step_first(Product::Geometric, a, b, 10);
    lemma_zero_times(b.e23, a.s);
    lemma_step_zero(Product::Geometric, a, b, 10, 1, 16);
    lemma_step_add(Product::Geometric, a, b, 10, 2, 3);
    lemma_step_sub(Product::Geometric, a, b, 10, 3, 2);
    lemma_step_zero(Product::Geometric, a, b, 10, 4, 22);
    lemma_step_zero(Product::Geometric, a, b, 10, 5, 23);
    lemma_step_zero(Product::Geometric, a, b, 10, 6, 7);
    lemma_step_zero(Product::Geometric, a, b, 10, 7, 6);
    lemma_step_zero(Product::Geometric, a, b, 10, 8, 26);
    lemma_step_zero(Product::Geometric, a, b, 10, 9, 27);
    lemma_step_zero(Product::Geometric, a, b, 10, 10, 0);
    lemma_step_zero(Product::Geometric, a, b, 10, 11, 13);
    lemma_step_zero(Product::Geometric, a, b, 10, 12, 14);
    lemma_step_zero(Product::Geometric, a, b, 10, 13, 11);
    lemma_step_zero(Product::Geometric, a, b, 10, 14, 12);
    lemma_step_zero(Product::Geometric, a, b, 10, 15, 30);
    lemma_step_zero(Product::Geometric, a, b, 10, 16, 1);
    lemma_step_zero(Product::Geometric, a, b, 10, 17, 19);
    lemma_step_zero(Product::Geometric, a, b, 10, 18, 20);
    lemma_step_zero(Product::Geometric, a, b, 10, 19, 17);
    lemma_step_zero(Product::Geometric, a, b, 10, 20, 18);
    lemma_step_zero(Product::Geometric, a, b, 10, 21, 31);
    lemma_step_zero(Product::Geometric, a, b, 10, 22, 4);
    lemma_step_zero(Product::Geometric, a, b, 10, 23, 5);
    lemma_step_zero(Product::Geometric, a, b, 10, 24, 25);
    lemma_step_zero(Product::Geometric, a, b, 10, 25, 24);
    lemma_step_zero(Product::Geometric, a, b, 10, 26, 8);
    lemma_step_zero(Product::Geometric, a, b, 10, 27, 9);
    lemma_step_zero(Product::Geometric, a, b, 10, 28, 29);
    lemma_step_zero(Product::Geometric, a, b, 10, 29, 28);
    lemma_step_zero(Product::Geometric, a, b, 10, 30, 15);
    lemma_step_zero(Product::Geometric, a, b, 10, 31, 21);
}

/// The coefficient of `e23` in the outer product of two vectors.
pub proof fn lemma_vector_outer_vector_e23(a: R410<real>, b: R410<real>)
    requires
        zero_outside(a, |i: int| vector_blade(i)),
        zero_outside(b, |i: int| vector_blade(i)),
    ensures
        real_sum(Product::Outer, a, b, 10, 31) == b.e3 * a.e2 - b.e2 * a.e3,
{
    lemma_step_first(Product::Outer, a, b, 10);
    lemma_zero_times(b.e23, a.s);
    lemma_step_skip(Product::Outer, a, b, 10, 1, 16);
    lemma_step_add(Product::Outer, a, b, 10, 2, 3);
    lemma_step_sub(Product::Outer, a, b, 10, 3, 2);
    lemma_step_skip(Product::Outer, a, b, 10, 4, 22);
    lemma_step_skip(Product::Outer, a, b, 10, 5, 23);
    lemma_step_skip(Product::Outer, a, b, 10, 6, 7);
    lemma_step_skip(Product::Outer, a, b, 10, 7, 6);
    lemma_step_skip(Product::Outer, a, b, 10, 8, 26);
    lemma_step_skip(Product::Outer, a, b, 10, 9, 27);
    lemma_step_zero(Product::Outer, a, b, 10, 10, 0);
    lemma_step_skip(Product::Outer, a, b, 10, 11, 13);
    lemma_step_skip(Product::Outer, a, b, 10, 12, 14);
    lemma_step_skip(Product::Outer, a, b, 10, 13, 11);
    lemma_step_skip(Product::Outer, a, b, 10, 14, 12);
    lemma_step_skip(Product::Outer, a, b, 10, 15, 30);
    lemma_step_skip(Product::Outer, a, b, 10, 16, 1);
    lemma_step_skip(Product::Outer, a, b, 10, 17, 19);
    lemma_step_skip(Product::Outer, a, b, 10, 18, 20);
    lemma_step_skip(Product::Outer, a, b, 10, 19, 17);
    lemma_step_skip(Product::Outer, a, b, 10, 20, 18);
    lemma_step_skip(Product::Outer, a, b, 10, 21, 31);
    lemma_step_skip(Product::Outer, a, b, 10, 22, 4);
    lemma_step_skip(Product::Outer, a, b, 10, 23, 5);
    lemma_step_skip(Product::Outer, a, b, 10, 24, 25);
    lemma_step_skip(Product::Outer, a, b, 10, 25, 24);
    lemma_step_skip(Product::Outer, a, b, 10, 26, 8);
    lemma_step_skip(Product::Outer, a, b, 10, 27, 9);
    lemma_step_skip(Product::Outer, a, b, 10, 28, 29);
    lemma_step_skip(Product::Outer, a, b, 10, 29, 28);
    lemma_step_skip(Product::Outer, a, b, 10, 30, 15);
    lemma_step_skip(Product::Outer, a, b, 10, 31, 21);
}

/// The scalar part of the inner product of two vectors.
pub proof fn lemma_vector_inner_vector_s(a: R410<real>, b: R410<real>)
    requires
        zero_outside(a, |i: int| vector_blade(i)),
        zero_outside(b, |i: int| vector_blade(i)),
    ensures
        real_sum(Product::Inner, a, b, 0, 31) == b.e1 * a.e1 + b.e2 * a.e2 + b.e3 * a.e3,
{
    lemma_step_first(Product::Inner, a, b, 0);
    lemma_zero_times(b.s, a.s);
    lemma_step_add(Product::Inner, a, b, 0, 1, 1);
    lemma_step_add(Product::Inner, a, b, 0, 2, 2);
    lemma_step_add(Product::Inner, a, b, 0, 3, 3);
    lemma_step_zero(Product::Inner, a, b, 0, 4, 4);
    lemma_step_zero(Product::Inner, a, b, 0, 5, 5);
    lemma_step_zero(Product::Inner, a, b, 0, 6, 6);
    lemma_step_zero(Product::Inner, a, b, 0, 7, 7);
    lemma_step_zero(Product::Inner, a, b, 0, 8, 8);
    lemma_step_zero(Product::Inner, a, b, 0, 9, 9);
    lemma_step_zero(Product::Inner, a, b, 0, 10, 10);
    lemma_step_zero(Product::Inner, a, b, 0, 11, 11);
    lemma_step_zero(Product::Inner, a, b, 0, 12, 12);
    lemma_step_zero(Product::Inner, a, b, 0, 13, 13);
    lemma_step_zero(Product::Inner, a, b, 0, 14, 14);
    lemma_step_zero(Product::Inner, a, b, 0, 15, 15);
    lemma_step_zero(Product::Inner, a, b, 0, 16, 16);
    lemma_step_zero(Product::Inner, a, b, 0, 17, 17);
    lemma_step_zero(Product::Inner, a, b, 0, 18, 18);
    lemma_step_zero(Product::Inner, a, b, 0, 19, 19);
    lemma_step_zero(Product::Inner, a, b, 0, 20, 20);
    lemma_step_zero(Product::Inner, a, b, 0, 21, 21);
    lemma_step_zero(Product::Inner, a, b, 0, 22, 22);
    lemma_step_zero(Product::Inner, a, b, 0, 23, 23);
    lemma_step_zero(Product::Inner, a, b, 0, 24, 24);
    lemma_step_zero(Product::Inner, a, b, 0, 25, 25);
    lemma_step_zero(Product::Inner, a, b, 0, 26, 26);
    lemma_step_zero(Product::Inner, a, b, 0, 27, 27);
    lemma_step_zero(Product::Inner, a, b, 0, 28, 28);
    lemma_step_zero(Product::Inner, a, b, 0, 29, 29);
    lemma_step_zero(Product::Inner, a, b, 0, 30, 30);
    lemma_step_zero(Product::Inner, a, b, 0, 31, 31);
}

/// The scalar part of the inner product of two bivectors.
pub proof fn lemma_bivector_inner_bivector_s(a: R410<real>, b: R410<real>)
    requires
        zero_outside(a, |i: int| bivector_blade(i)),
        zero_outside(b, |i: int| bivector_blade(i)),
    ensures
        real_sum(Product::Inner, a, b, 0, 31) == -(b.e12 * a.e12) - b.e13 * a.e13 - b.e23 * a.e23,
{
    lemma_step_first(Product::Inner, a, b, 0);
    lemma_zero_times(b.s, a.s);
    lemma_step_zero(Product::Inner, a, b, 0, 1, 1);
    lemma_step_zero(Product::Inner, a, b, 0, 2, 2);
    lemma_step_zero(Product::Inner, a, b, 0, 3, 3);
    lemma_step_zero(Product::Inner, a, b, 0, 4, 4);
    lemma_step_zero(Product::Inner, a, b, 0, 5, 5);
    lemma_step_sub(Product::Inner, a, b, 0, 6, 6);
    lemma_step_sub(Product::Inner, a, b, 0, 7, 7);
    lemma_step_zero(Product::Inner, a, b, 0, 8, 8);
    lemma_step_zero(Product::Inner, a, b, 0, 9, 9);
    lemma_step_sub(Product::Inner, a, b, 0, 10, 10);
    lemma_step_zero(Product::Inner, a, b, 0, 11, 11);
    lemma_step_zero(Product::Inner, a, b, 0, 12, 12);
    lemma_step_zero(Product::Inner, a, b, 0, 13, 13);
    lemma_step_zero(Product::Inner, a, b, 0, 14, 14);
    lemma_step_zero(Product::Inner, a, b, 0, 15, 15);
    lemma_step_zero(Product::Inner, a, b, 0, 16, 16);
    lemma_step_zero(Product::Inner, a, b, 0, 17, 17);
    lemma_step_zero(Product::Inner, a, b, 0, 18, 18);
    lemma_step_zero(Product::Inner, a, b, 0, 19, 19);
    lemma_step_zero(Product::Inner, a, b, 0, 20, 20);
    lemma_step_zero(Product::Inner, a, b, 0, 21, 21);
    lemma_step_zero(Product::Inner, a, b, 0, 22, 22);
    lemma_step_zero(Product::Inner, a, b, 0, 23, 23);
    lemma_step_zero(Product::Inner, a, b, 0, 24, 24);
    lemma_step_zero(Product::Inner, a, b, 0, 25, 25);
    lemma_step_zero(Product::Inner, a, b, 0, 26, 26);
    lemma_step_zero(Product::Inner, a, b, 0, 27, 27);
    lemma_step_zero(Product::Inner, a, b, 0, 28, 28);
    lemma_step_zero(Product::Inner, a, b, 0, 29, 29);
    lemma_step_zero(Product::Inner, a, b, 0, 30, 30);
    lemma_step_zero(Product::Inner, a, b, 0, 31, 31);
}

/// The coefficient of `e123` in the outer product of a bivector with a vector.
pub proof fn lemma_bivector_outer_vector_e123(a: R410<real>, b: R410<real>)
    requires
        zero_outside(a, |i: int| bivector_blade(i)),
        zero_outside(b, |i: int| vector_blade(i)),
    ensures
        real_sum(Product::Outer, a, b, 16, 31) == b.e3 * a.e12 - b.e2 * a.e13 + b.e1 * a.e23,
{
    lemma_step_first(Product::Outer, a, b, 16);
    lemma_zero_times(b.e123, a.s);
    lemma_step_zero(Product::Outer, a, b, 16, 1, 10);
    lemma_step_zero(Product::Outer, a, b, 16, 2, 7);
    lemma_step_zero(Product::Outer, a, b, 16, 3, 6);
    lemma_step_skip(Product::Outer, a, b, 16, 4, 26);
    lemma_step_skip(Product::Outer, a, b, 16, 5, 27);
    lemma_step_add(Product::Outer, a, b, 16, 6, 3);
    lemma_step_sub(Product::Outer, a, b, 16, 7, 2);
    lemma_step_skip(Product::Outer, a, b, 16, 8, 22);
    lemma_step_skip(Product::Outer, a, b, 16, 9, 23);
    lemma_step_add(Product::Outer, a, b, 16, 10, 1);
    lemma_step_skip(Product::Outer, a, b, 16, 11, 19);
    lemma_step_skip(Product::Outer, a, b, 16, 12, 20);
    lemma_step_skip(Product::Outer, a, b, 16, 13, 17);
    lemma_step_skip(Product::Outer, a, b, 16, 14, 18);
    lemma_step_skip(Product::Outer, a, b, 16, 15, 31);
    lemma_step_zero(Product::Outer, a, b, 16, 16, 0);
    lemma_step_skip(Product::Outer, a, b, 16, 17, 13);
    lemma_step_skip(Product::Outer, a, b, 16, 18, 14);
    lemma_step_skip(Product::Outer, a, b, 16, 19, 11);
    lemma_step_skip(Product::Outer, a, b, 16, 20, 12);
    lemma_step_skip(Product::Outer, a, b, 16, 21, 30);
    lemma_step_skip(Product::Outer, a, b, 16, 22, 8);
    lemma_step_skip(Product::Outer, a, b, 16, 23, 9);
    lemma_step_skip(Product::Outer, a, b, 16, 24, 29);
    lemma_step_skip(Product::Outer, a, b, 16, 25, 28);
    lemma_step_skip(Product::Outer, a, b, 16, 26, 4);
    lemma_step_skip(Product::Outer, a, b, 16, 27, 5);
    lemma_step_skip(Product::Outer, a, b, 16, 28, 25);
    lemma_step_skip(Product::Outer, a, b, 16, 29, 24);
    lemma_step_skip(Product::Outer, a, b, 16, 30, 21);
    lemma_step_skip(Product::Outer, a, b, 16, 31, 15);
}

/// The coefficient of `e1` in the product of a bivector with a trivector.
pub proof fn lemma_bivector_trivector_e1(a: R410<real>, b: R410<real>)
    requires
        zero_outside(a, |i: int| bivector_blade(i)),
        zero_outside(b, |i: int| trivector_blade(i)),
    ensures
        real_sum(Product::Geometric, a, b, 1, 31) == -(b.e123 * a.e23),
{
    lemma_step_first(Product::Geometric, a, b, 1);
    lemma_zero_times(b.e1, a.s);
    lemma_step_zero(Product::Geometric, a, b, 1, 1, 0);
    lemma_step_zero(Product::Geometric, a, b, 1, 2, 6);
    lemma_step_zero(Product::Geometric, a, b, 1, 3, 7);
    lemma_step_zero(Product::Geometric, a, b, 1, 4, 8);
    lemma_step_zero(Product::Geometric, a, b, 1, 5, 9);
    lemma_step_zero(Product::Geometric, a, b, 1, 6, 2);
    lemma_step_zero(Product::Geometric, a, b, 1, 7, 3);
    lemma_step_zero(Product::Geometric, a, b, 1, 8, 4);
    lemma_step_zero(Product::Geometric, a, b, 1, 9, 5);
    lemma_step_sub(Product::Geometric, a, b, 1, 10, 16);
    lemma_step_zero(Product::Geometric, a, b, 1, 11, 17);
    lemma_step_zero(Product::Geometric, a, b, 1, 12, 18);
    lemma_step_zero(Product::Geometric, a, b, 1, 13, 19);
    lemma_step_zero(Product::Geometric, a, b, 1, 14, 20);
    lemma_step_zero(Product::Geometric, a, b, 1, 15, 21);
    lemma_step_zero(Product::Geometric, a, b, 1, 16, 10);
    lemma_step_zero(Product::Geometric, a, b, 1, 17, 11);
    lemma_step_zero(Product::Geometric, a, b, 1, 18, 12);
    lemma_step_zero(Product::Geometric, a, b, 1, 19, 13);
    lemma_step_zero(Product::Geometric, a, b, 1, 20, 14);
    lemma_step_zero(Product::Geometric, a, b, 1, 21, 15);
    lemma_step_zero(Product::Geometric, a, b, 1, 22, 26);
    lemma_step_zero(Product::Geometric, a, b, 1, 23, 27);
    lemma_step_zero(Product::Geometric, a, b, 1, 24, 28);
    lemma_step_zero(Product::Geometric, a, b, 1, 25, 29);
    lemma_step_zero(Product::Geometric, a, b, 1, 26, 22);
    lemma_step_zero(Product::Geometric, a, b, 1, 27, 23);
    lemma_step_zero(Product::Geometric, a, b, 1, 28, 24);
    lemma_step_zero(Product::Geometric, a, b, 1, 29, 25);
    lemma_step_zero(Product::Geometric, a, b, 1, 30, 31);
    lemma_step_zero(Product::Geometric, a, b, 1, 31, 30);
}

/// The coefficient of `e2` in the product of a bivector with a trivector.
pub proof fn lemma_bivector_trivector_e2(a: R410<real>, b: R410<real>)
    requires
        zero_outside(a, |i: int| bivector_blade(i)),
        zero_outside(b, |i: int| trivector_blade(i)),
    ensures
        real_sum(Product::Geometric, a, b, 2, 31) == b.e123 * a.e13,
{
    lemma_step_first(Product::Geometric, a, b, 2);
    lemma_zero_times(b.e2, a.s);
    lemma_step_zero(Product::Geometric, a, b, 2, 1, 6);
    lemma_step_zero(Product::Geometric, a, b, 2, 2, 0);
    lemma_step_zero(Product::Geometric, a, b, 2, 3, 10);
    lemma_step_zero(Product::Geometric, a, b, 2, 4, 11);
    lemma_step_zero(Product::Geometric, a, b, 2, 5, 12);
    lemma_step_zero(Product::Geometric, a, b, 2, 6, 1);
    lemma_step_add(Product::Geometric, a, b, 2, 7, 16);
    lemma_step_zero(Product::Geometric, a, b, 2, 8, 17);
    lemma_step_zero(Product::Geometric, a, b, 2, 9, 18);
    lemma_step_zero(Product::Geometric, a, b, 2, 10, 3);
    lemma_step_zero(Product::Geometric, a, b, 2, 11, 4);
    lemma_step_zero(Product::Geometric, a, b, 2, 12, 5);
    lemma_step_zero(Product::Geometric, a, b, 2, 13, 22);
    lemma_step_zero(Product::Geometric, a, b, 2, 14, 23);
    lemma_step_zero(Product::Geometric, a, b, 2, 15, 24);
    lemma_step_zero(Product::Geometric, a, b, 2, 16, 7);
    lemma_step_zero(Product::Geometric, a, b, 2, 17, 8);
    lemma_step_zero(Product::Geometric, a, b, 2, 18, 9);
    lemma_step_zero(Product::Geometric, a, b, 2, 19, 26);
    lemma_step_zero(Product::Geometric, a, b, 2, 20, 27);
    lemma_step_zero(Product::Geometric, a, b, 2, 21, 28);
    lemma_step_zero(Product::Geometric, a, b, 2, 22, 13);
    lemma_step_zero(Product::Geometric, a, b, 2, 23, 14);
    lemma_step_zero(Product::Geometric, a, b, 2, 24, 15);
    lemma_step_zero(Product::Geometric, a, b, 2, 25, 30);
    lemma_step_zero(Product::Geometric, a, b, 2, 26, 19);
    lemma_step_zero(Product::Geometric, a, b, 2, 27, 20);
    lemma_step_zero(Product::Geometric, a, b, 2, 28, 21);
    lemma_step_zero(Product::Geometric, a, b, 2, 29, 31);
    lemma_step_zero(Product::Geometric, a, b, 2, 30, 25);
    lemma_step_zero(Product::Geometric, a, b, 2, 31, 29);
}

/// The coefficient of `e3` in the product of a bivector with a trivector.
pub proof fn lemma_bivector_trivector_e3(a: R410<real>, b: R410<real>)
    requires
        zero_outside(a, |i: int| bivector_blade(i)),
        zero_outside(b, |i: int| trivector_blade(i)),
    ensures
        real_sum(Product::Geometric, a, b, 3, 31) == -(b.e123 * a.e12),
{
    lemma_step_first(Product::Geometric, a, b, 3);
    lemma_zero_times(b.e3, a.s);
    lemma_step_zero(Product::Geometric, a, b, 3, 1, 7);
    lemma_step_zero(Product::Geometric, a, b, 3, 2, 10);
    lemma_step_zero(Product::Geometric, a, b, 3, 3, 0);
    lemma_step_zero(Product::Geometric, a, b, 3, 4, 13);
    lemma_step_zero(Product::Geometric, a, b, 3, 5, 14);
    lemma_step_sub(Product::Geometric, a, b, 3, 6, 16);
    lemma_step_zero(Product::Geometric, a, b, 3, 7, 1);
    lemma_step_zero(Product::Geometric, a, b, 3, 8, 19);
    lemma_step_zero(Product::Geometric, a, b, 3, 9, 20);
    lemma_step_zero(Product::Geometric, a, b, 3, 10, 2);
    lemma_step_zero(Product::Geometric, a, b, 3, 11, 22);
    lemma_step_zero(Product::Geometric, a, b, 3, 12, 23);
    lemma_step_zero(Product::Geometric, a, b, 3, 13, 4);
    lemma_step_zero(Product::Geometric, a, b, 3, 14, 5);
    lemma_step_zero(Product::Geometric, a, b, 3, 15, 25);
    lemma_step_zero(Product::Geometric, a, b, 3, 16, 6);
    lemma_step_zero(Product::Geometric, a, b, 3, 17, 26);
    lemma_step_zero(Product::Geometric, a, b, 3, 18, 27);
    lemma_step_zero(Product::Geometric, a, b, 3, 19, 8);
    lemma_step_zero(Product::Geometric, a, b, 3, 20, 9);
    lemma_step_zero(Product::Geometric, a, b, 3, 21, 29);
    lemma_step_zero(Product::Geometric, a, b, 3, 22, 11);
    lemma_step_zero(Product::Geometric, a, b, 3, 23, 12);
    lemma_step_zero(Product::Geometric, a, b, 3, 24, 30);
    lemma_step_zero(Product::Geometric, a, b, 3, 25, 15);
    lemma_step_zero(Product::Geometric, a, b, 3, 26, 17);
    lemma_step_zero(Product::Geometric, a, b, 3, 27, 18);
    lemma_step_zero(Product::Geometric, a, b, 3, 28, 31);
    lemma_step_zero(Product::Geometric, a, b, 3, 29, 21);
    lemma_step_zero(Product::Geometric, a, b, 3, 30, 24);
    lemma_step_zero(Product::Geometric, a, b, 3, 31, 28);
}

/// The coefficient of `1` in the product of two translators.
pub proof fn lemma_translator_translator_s(a: R410<real>, b: R410<real>)
    requires
        zero_outside(a, |i: int| translator_blade(i)),
        zero_outside(b, |i: int| translator_blade(i)),
    ensures
        real_sum(Product::Geometric, a, b, 0, 31) == b.s * a.s - b.e1p * a.e1p + b.e1n * a.e1n - b.e2p * a.e2p + b.e2n * a.e2n - b.e3p * a.e3p + b.e3n * a.e3n,
{
    lemma_step_first(Product::Geometric, a, b, 0);
    lemma_step_zero(Product::Geometric, a, b, 0, 1, 1);
    lemma_step_zero(Product::Geometric, a, b, 0, 2, 2);
    lemma_step_zero(Product::Geometric, a, b, 0, 3, 3);
    lemma_step_zero(Product::Geometric, a, b, 0, 4, 4);
    lemma_step_zero(Product::Geometric, a, b, 0, 5, 5);
    lemma_step_zero(Product::Geometric, a, b, 0, 6, 6);
    lemma_step_zero(Product::Geometric, a, b, 0, 7, 7);
    lemma_step_sub(Product::Geometric, a, b, 0, 8, 8);
    lemma_step_add(Product::Geometric, a, b, 0, 9, 9);
    lemma_step_zero(Product::Geometric, a, b, 0, 10, 10);
    lemma_step_sub(Product::Geometric, a, b, 0, 11, 11);
    lemma_step_add(Product::Geometric, a, b, 0, 12, 12);
    lemma_step_sub(Product::Geometric, a, b, 0, 13, 13);
    lemma_step_add(Product::Geometric, a, b, 0, 14, 14);
    lemma_step_zero(Product::Geometric, a, b, 0, 15, 15);
    lemma_step_zero(Product::Geometric, a, b, 0, 16, 16);
    lemma_step_zero(Product::Geometric, a, b, 0, 17, 17);
    lemma_step_zero(Product::Geometric, a, b, 0, 18, 18);
    lemma_step_zero(Product::Geometric, a, b, 0, 19, 19);
    lemma_step_zero(Product::Geometric, a, b, 0, 20, 20);
    lemma_step_zero(Product::Geometric, a, b, 0, 21, 21);
    lemma_step_zero(Product::Geometric, a, b, 0, 22, 22);
    lemma_step_zero(Product::Geometric, a, b, 0, 23, 23);
    lemma_step_zero(Product::Geometric, a, b, 0, 24, 24);
    lemma_step_zero(Product::Geometric, a, b, 0, 25, 25);
    lemma_step_zero(Product::Geometric, a, b, 0, 26, 26);
    lemma_step_zero(Product::Geometric, a, b, 0, 27, 27);
    lemma_step_zero(Product::Geometric, a, b, 0, 28, 28);
    lemma_step_zero(Product::Geometric, a, b, 0, 29, 29);
    lemma_step_zero(Product::Geometric, a, b, 0, 30, 30);
    lemma_step_zero(Product::Geometric, a, b, 0, 31, 31);
}

/// The coefficient of `e1p` in the product of two translators.
pub proof fn lemma_translator_translator_e1p(a: R410<real>, b: R410<real>)
    requires
        zero_outside(a, |i: int| translator_blade(i)),
        zero_outside(b, |i: int| translator_blade(i)),
    ensures
        real_sum(Product::Geometric, a, b, 8, 31) == b.e1p * a.s + b.s * a.e1p,
{
    lemma_step_first(Product::Geometric, a, b, 8);
    lemma_step_zero(Product::Geometric, a, b, 8, 1, 4);
    lemma_step_zero(Product::Geometric, a, b, 8, 2, 17);
    lemma_step_zero(Product::Geometric, a, b, 8, 3, 19);
    lemma_step_zero(Product::Geometric, a, b, 8, 4, 1);
    lemma_step_zero(Product::Geometric, a, b, 8, 5, 21);
    lemma_step_zero(Product::Geometric, a, b, 8, 6, 11);
    lemma_step_zero(Product::Geometric, a, b, 8, 7, 13);
    lemma_step_add(Product::Geometric, a, b, 8, 8, 0);
    lemma_step_zero(Product::Geometric, a, b, 8, 9, 15);
    lemma_step_zero(Product::Geometric, a, b, 8, 10, 26);
    lemma_step_zero(Product::Geometric, a, b, 8, 11, 6);
    lemma_step_zero(Product::Geometric, a, b, 8, 12, 28);
    lemma_step_zero(Product::Geometric, a, b, 8, 13, 7);
    lemma_step_zero(Product::Geometric, a, b, 8, 14, 29);
    lemma_step_zero(Product::Geometric, a, b, 8, 15, 9);
    lemma_step_zero(Product::Geometric, a, b, 8, 16, 22);
    lemma_step_zero(Product::Geometric, a, b, 8, 17, 2);
    lemma_step_zero(Product::Geometric, a, b, 8, 18, 24);
    lemma_step_zero(Product::Geometric, a, b, 8, 19, 3);
    lemma_step_zero(Product::Geometric, a, b, 8, 20, 25);
    lemma_step_zero(Product::Geometric, a, b, 8, 21, 5);
    lemma_step_zero(Product::Geometric, a, b, 8, 22, 16);
    lemma_step_zero(Product::Geometric, a, b, 8, 23, 31);
    lemma_step_zero(Product::Geometric, a, b, 8, 24, 18);
    lemma_step_zero(Product::Geometric, a, b, 8, 25, 20);
    lemma_step_zero(Product::Geometric, a, b, 8, 26, 10);
    lemma_step_zero(Product::Geometric, a, b, 8, 27, 30);
    lemma_step_zero(Product::Geometric, a, b, 8, 28, 12);
    lemma_step_zero(Product::Geometric, a, b, 8, 29, 14);
    lemma_step_zero(Product::Geometric, a, b, 8, 30, 27);
    lemma_step_zero(Product::Geometric, a, b, 8, 31, 23);
}

/// The coefficient of `e2p` in the product of two translators.
pub proof fn lemma_translator_translator_e2p(a: R410<real>, b: R410<real>)
    requires
        zero_outside(a, |i: int| translator_blade(i)),
        zero_outside(b, |i: int| translator_blade(i)),
    ensures
        real_sum(Product::Geometric, a, b, 11, 31) == b.e2p * a.s + b.s * a.e2p,
{
    lemma_step_first(Product::Geometric, a, b, 11);
    lemma_step_zero(Product::Geometric, a, b, 11, 1, 17);
    lemma_step_zero(Product::Geometric, a, b, 11, 2, 4);
    lemma_step_zero(Product::Geometric, a, b, 11, 3, 22);
    lemma_step_zero(Product::Geometric, a, b, 11, 4, 2);
    lemma_step_zero(Product::Geometric, a, b, 11, 5, 24);
    lemma_step_zero(Product::Geometric, a, b, 11, 6, 8);
    lemma_step_zero(Product::Geometric, a, b, 11, 7, 26);
    lemma_step_zero(Product::Geometric, a, b, 11, 8, 6);
    lemma_step_zero(Product::Geometric, a, b, 11, 9, 28);
    lemma_step_zero(Product::Geometric, a, b, 11, 10, 13);
    lemma_step_add(Product::Geometric, a, b, 11, 11, 0);
    lemma_step_zero(Product::Geometric, a, b, 11, 12, 15);
    lemma_step_zero(Product::Geometric, a, b, 11, 13, 10);
    lemma_step_zero(Product::Geometric, a, b, 11, 14, 30);
    lemma_step_zero(Product::Geometric, a, b, 11, 15, 12);
    lemma_step_zero(Product::Geometric, a, b, 11, 16, 19);
    lemma_step_zero(Product::Geometric, a, b, 11, 17, 1);
    lemma_step_zero(Product::Geometric, a, b, 11, 18, 21);
    lemma_step_zero(Product::Geometric, a, b, 11, 19, 16);
    lemma_step_zero(Product::Geometric, a, b, 11, 20, 31);
    lemma_step_zero(Product::Geometric, a, b, 11, 21, 18);
    lemma_step_zero(Product::Geometric, a, b, 11, 22, 3);
    lemma_step_zero(Product::Geometric, a, b, 11, 23, 25);
    lemma_step_zero(Product::Geometric, a, b, 11, 24, 5);
    lemma_step_zero(Product::Geometric, a, b, 11, 25, 23);
    lemma_step_zero(Product::Geometric, a, b, 11, 26, 7);
    lemma_step_zero(Product::Geometric, a, b, 11, 27, 29);
    lemma_step_zero(Product::Geometric, a, b, 11, 28, 9);
    lemma_step_zero(Product::Geometric, a, b, 11, 29, 27);
    lemma_step_zero(Product::Geometric, a, b, 11, 30, 14);
    lemma_step_zero(Product::Geometric, a, b, 11, 31, 20);
}

/// The coefficient of `e3p` in the product of two translators.
pub proof fn lemma_translator_translator_e3p(a: R410<real>, b: R410<real>)
    requires
        zero_outside(a, |i: int| translator_blade(i)),
        zero_outside(b, |i: int| translator_blade(i)),
    ensures
        real_sum(Product::Geometric, a, b, 13, 31) == b.e3p * a.s + b.s * a.e3p,
{
    lemma_step_first(Product::Geometric, a, b, 13);
    lemma_step_zero(Product::Geometric, a, b, 13, 1, 19);
    lemma_step_zero(Product::Geometric, a, b, 13, 2, 22);
    lemma_step_zero(Product::Geometric, a, b, 13, 3, 4);
    lemma_step_zero(Product::Geometric, a, b, 13, 4, 3);
    lemma_step_zero(Product::Geometric, a, b, 13, 5, 25);
    lemma_step_zero(Product::Geometric, a, b, 13, 6, 26);
    lemma_step_zero(Product::Geometric, a, b, 13, 7, 8);
    lemma_step_zero(Product::Geometric, a, b, 13, 8, 7);
    lemma_step_zero(Product::Geometric, a, b, 13, 9, 29);
    lemma_step_zero(Product::Geometric, a, b, 13, 10, 11);
    lemma_step_zero(Product::Geometric, a, b, 13, 11, 10);
    lemma_step_zero(Product::Geometric, a, b, 13, 12, 30);
    lemma_step_add(Product::Geometric, a, b, 13, 13, 0);
    lemma_step_zero(Product::Geometric, a, b, 13, 14, 15);
    lemma_step_zero(Product::Geometric, a, b, 13, 15, 14);
    lemma_step_zero(Product::Geometric, a, b, 13, 16, 17);
    lemma_step_zero(Product::Geometric, a, b, 13, 17, 16);
    lemma_step_zero(Product::Geometric, a, b, 13, 18, 31);
    lemma_step_zero(Product::Geometric, a, b, 13, 19, 1);
    lemma_step_zero(Product::Geometric, a, b, 13, 20, 21);
    lemma_step_zero(Product::Geometric, a, b, 13, 21, 20);
    lemma_step_zero(Product::Geometric, a, b, 13, 22, 2);
    lemma_step_zero(Product::Geometric, a, b, 13, 23, 24);
    lemma_step_zero(Product::Geometric, a, b, 13, 24, 23);
    lemma_step_zero(Product::Geometric, a, b, 13, 25, 5);
    lemma_step_zero(Product::Geometric, a, b, 13, 26, 6);
    lemma_step_zero(Product::Geometric, a, b, 13, 27, 28);
    lemma_step_zero(Product::Geometric, a, b, 13, 28, 27);
    lemma_step_zero(Product::Geometric, a, b, 13, 29, 9);
    lemma_step_zero(Product::Geometric, a, b, 13, 30, 12);
    lemma_step_zero(Product::Geometric, a, b, 13, 31, 18);
}

/// The coefficient of `e1p` in the outer product of a point with an infinity.
pub proof fn lemma_point_outer_infinity_e1p(a: R410<real>, b: R410<real>)
    requires
        zero_outside(a, |i: int| point_blade(i)),
        zero_outside(b, |i: int| infinity_blade(i)),
    ensures
        real_sum(Product::Outer, a, b, 8, 31) == b.ep * a.e1,
{
    lemma_step_first(Product::Outer, a, b, 8);
    lemma_zero_times(b.e1p, a.s);
    lemma_step_add(Product::Outer, a, b, 8, 1, 4);
    lemma_step_skip(Product::Outer, a, b, 8, 2, 17);
    lemma_step_skip(Product::Outer, a, b, 8, 3, 19);
    lemma_step_zero(Product::Outer, a, b, 8, 4, 1);
    lemma_step_skip(Product::Outer, a, b, 8, 5, 21);
    lemma_step_skip(Product::Outer, a, b, 8, 6, 11);
    lemma_step_skip(Product::Outer, a, b, 8, 7, 13);
    lemma_step_zero(Product::Outer, a, b, 8, 8, 0);
    lemma_step_skip(Product::Outer, a, b, 8, 9, 15);
    lemma_step_skip(Product::Outer, a, b, 8, 10, 26);
    lemma_step_skip(Product::Outer, a, b, 8, 11, 6);
    lemma_step_skip(Product::Outer, a, b, 8, 12, 28);
    lemma_step_skip(Product::Outer, a, b, 8, 13, 7);
    lemma_step_skip(Product::Outer, a, b, 8, 14, 29);
    lemma_step_skip(Product::Outer, a, b, 8, 15, 9);
    lemma_step_skip(Product::Outer, a, b, 8, 16, 22);
    lemma_step_skip(Product::Outer, a, b, 8, 17, 2);
    lemma_step_skip(Product::Outer, a, b, 8, 18, 24);
    lemma_step_skip(Product::Outer, a, b, 8, 19, 3);
    lemma_step_skip(Product::Outer, a, b, 8, 20, 25);
    lemma_step_skip(Product::Outer, a, b, 8, 21, 5);
    lemma_step_skip(Product::Outer, a, b, 8, 22, 16);
    lemma_step_skip(Product::Outer, a, b, 8, 23, 31);
    lemma_step_skip(Product::Outer, a, b, 8, 24, 18);
    lemma_step_skip(Product::Outer, a, b, 8, 25, 20);
    lemma_step_skip(Product::Outer, a, b, 8, 26, 10);
    lemma_step_skip(Product::Outer, a, b, 8, 27, 30);
    lemma_step_skip(Product::Outer, a, b, 8, 28, 12);
    lemma_step_skip(Product::Outer, a, b, 8, 29, 14);
    lemma_step_skip(Product::Outer, a, b, 8, 30, 27);
    lemma_step_skip(Product::Outer, a, b, 8, 31, 23);
}

/// The coefficient of `e2p` in the outer product of a point with an infinity.
pub proof fn lemma_point_outer_infinity_e2p(a: R410<real>, b: R410<real>)
    requires
        zero_outside(a, |i: int| point_blade(i)),
        zero_outside(b, |i: int| infinity_blade(i)),
    ensures
        real_sum(Product::Outer, a, b, 11, 31) == b.ep * a.e2,
{
    lemma_step_first(Product::Outer, a, b, 11);
    lemma_zero_times(b.e2p, a.s);
    lemma_step_skip(Product::Outer, a, b, 11, 1, 17);
    lemma_step_add(Product::Outer, a, b, 11, 2, 4);
    lemma_step_skip(Product::Outer, a, b, 11, 3, 22);
    lemma_step_zero(Product::Outer, a, b, 11, 4, 2);
    lemma_step_skip(Product::Outer, a, b, 11, 5, 24);
    lemma_step_skip(Product::Outer, a, b, 11, 6, 8);
    lemma_step_skip(Product::Outer, a, b, 11, 7, 26);
    lemma_step_skip(Product::Outer, a, b, 11, 8, 6);
    lemma_step_skip(Product::Outer, a, b, 11, 9, 28);
    lemma_step_skip(Product::Outer, a, b, 11, 10, 13);
    lemma_step_zero(Product::Outer, a, b, 11, 11, 0);
    lemma_step_skip(Product::Outer, a, b, 11, 12, 15);
    lemma_step_skip(Product::Outer, a, b, 11, 13, 10);
    lemma_step_skip(Product::Outer, a, b, 11, 14, 30);
    lemma_step_skip(Product::Outer, a, b, 11, 15, 12);
    lemma_step_skip(Product::Outer, a, b, 11, 16, 19);
    lemma_step_skip(Product::Outer, a, b, 11, 17, 1);
    lemma_step_skip(Product::Outer, a, b, 11, 18, 21);
    lemma_step_skip(Product::Outer, a, b, 11, 19, 16);
    lemma_step_skip(Product::Outer, a, b, 11, 20, 31);
    lemma_step_skip(Product::Outer, a, b, 11, 21, 18);
    lemma_step_skip(Product::Outer, a, b, 11, 22, 3);
    lemma_step_skip(Product::Outer, a, b, 11, 23, 25);
    lemma_step_skip(Product::Outer, a, b, 11, 24, 5);
    lemma_step_skip(Product::Outer, a, b, 11, 25, 23);
    lemma_step_skip(Product::Outer, a, b, 11, 26, 7);
    lemma_step_skip(Product::Outer, a, b, 11, 27, 29);
    lemma_step_skip(Product::Outer, a, b, 11, 28, 9);
    lemma_step_skip(Product::Outer, a, b, 11, 29, 27);
    lemma_step_skip(Product::Outer, a, b, 11, 30, 14);
    lemma_step_skip(Product::Outer, a, b, 11, 31, 20);
}

/// The coefficient of `e3p` in the outer product of a point with an infinity.
pub proof fn lemma_point_outer_infinity_e3p(a: R410<real>, b: R410<real>)
    requires
        zero_outside(a, |i: int| point_blade(i)),
        zero_outside(b, |i: int| infinity_blade(i)),
    ensures
        real_sum(Product::Outer, a, b, 13, 31) == b.ep * a.e3,
{
    lemma_step_first(Product::Outer, a, b, 13);
    lemma_zero_times(b.e3p, a.s);
    lemma_step_skip(Product::Outer, a, b, 13, 1, 19);
    lemma_step_skip(Product::Outer, a, b, 13, 2, 22);
    lemma_step_add(Product::Outer, a, b, 13, 3, 4);
    lemma_step_zero(Product::Outer, a, b, 13, 4, 3);
    lemma_step_skip(Product::Outer, a, b, 13, 5, 25);
    lemma_step_skip(Product::Outer, a, b, 13, 6, 26);
    lemma_step_skip(Product::Outer, a, b, 13, 7, 8);
    lemma_step_skip(Product::Outer, a, b, 13, 8, 7);
    lemma_step_skip(Product::Outer, a, b, 13, 9, 29);
    lemma_step_skip(Product::Outer, a, b, 13, 10, 11);
    lemma_step_skip(Product::Outer, a, b, 13, 11, 10);
    lemma_step_skip(Product::Outer, a, b, 13, 12, 30);
    lemma_step_zero(Product::Outer, a, b, 13, 13, 0);
    lemma_step_skip(Product::Outer, a, b, 13, 14, 15);
    lemma_step_skip(Product::Outer, a, b, 13, 15, 14);
    lemma_step_skip(Product::Outer, a, b, 13, 16, 17);
    lemma_step_skip(Product::Outer, a, b, 13, 17, 16);
    lemma_step_skip(Product::Outer, a, b, 13, 18, 31);
    lemma_step_skip(Product::Outer, a, b, 13, 19, 1);
    lemma_step_skip(Product::Outer, a, b, 13, 20, 21);
    lemma_step_skip(Product::Outer, a, b, 13, 21, 20);
    lemma_step_skip(Product::Outer, a, b, 13, 22, 2);
    lemma_step_skip(Product::Outer, a, b, 13, 23, 24);
    lemma_step_skip(Product::Outer, a, b, 13, 24, 23);
    lemma_step_skip(Product::Outer, a, b, 13, 25, 5);
    lemma_step_skip(Product::Outer, a, b, 13, 26, 6);
    lemma_step_skip(Product::Outer, a, b, 13, 27, 28);
    lemma_step_skip(Product::Outer, a, b, 13, 28, 27);
    lemma_step_skip(Product::Outer, a, b, 13, 29, 9);
    lemma_step_skip(Product::Outer, a, b, 13, 30, 12);
    lemma_step_skip(Product::Outer, a, b, 13, 31, 18);
}

/// The coefficient of `epn` in the outer product of a point with an infinity.
pub proof fn lemma_point_outer_infinity_epn(a: R410<real>, b: R410<real>)
    requires
        zero_outside(a, |i: int| point_blade(i)),
        zero_outside(b, |i: int| infinity_blade(i)),
    ensures
        real_sum(Product::Outer, a, b, 15, 31) == b.en * a.ep - b.ep * a.en,
{
    lemma_step_first(Product::Outer, a, b, 15);
    lemma_zero_times(b.epn, a.s);
    lemma_step_skip(Product::Outer, a, b, 15, 1, 21);
    lemma_step_skip(Product::Outer, a, b, 15, 2, 24);
    lemma_step_skip(Product::Outer, a, b, 15, 3, 25);
    lemma_step_add(Product::Outer, a, b, 15, 4, 5);
    lemma_step_sub(Product::Outer, a, b, 15, 5, 4);
    lemma_step_skip(Product::Outer, a, b, 15, 6, 28);
    lemma_step_skip(Product::Outer, a, b, 15, 7, 29);
    lemma_step_skip(Product::Outer, a, b, 15, 8, 9);
    lemma_step_skip(Product::Outer, a, b, 15, 9, 8);
    lemma_step_skip(Product::Outer, a, b, 15, 10, 30);
    lemma_step_skip(Product::Outer, a, b, 15, 11, 12);
    lemma_step_skip(Product::Outer, a, b, 15, 12, 11);
    lemma_step_skip(Product::Outer, a, b, 15, 13, 14);
    lemma_step_skip(Product::Outer, a, b, 15, 14, 13);
    lemma_step_zero(Product::Outer, a, b, 15, 15, 0);
    lemma_step_skip(Product::Outer, a, b, 15, 16, 31);
    lemma_step_skip(Product::Outer, a, b, 15, 17, 18);
    lemma_step_skip(Product::Outer, a, b, 15, 18, 17);
    lemma_step_skip(Product::Outer, a, b, 15, 19, 20);
    lemma_step_skip(Product::Outer, a, b, 15, 20, 19);
    lemma_step_skip(Product::Outer, a, b, 15, 21, 1);
    lemma_step_skip(Product::Outer, a, b, 15, 22, 23);
    lemma_step_skip(Product::Outer, a, b, 15, 23, 22);
    lemma_step_skip(Product::Outer, a, b, 15, 24, 2);
    lemma_step_skip(Product::Outer, a, b, 15, 25, 3);
    lemma_step_skip(Product::Outer, a, b, 15, 26, 27);
    lemma_step_skip(Product::Outer, a, b, 15, 27, 26);
    lemma_step_skip(Product::Outer, a, b, 15, 28, 6);
    lemma_step_skip(Product::Outer, a, b, 15, 29, 7);
    lemma_step_skip(Product::Outer, a, b, 15, 30, 10);
    lemma_step_skip(Product::Outer, a, b, 15, 31, 16);
}

/// The coefficient of `1` in the product of two flat points.
pub proof fn lemma_flat_flat_s(a: R410<real>, b: R410<real>)
    requires
        zero_outside(a, |i: int| flat_blade(i)),
        zero_outside(b, |i: int| flat_blade(i)),
    ensures
        real_sum(Product::Geometric, a, b, 0, 31) == -(b.e1p * a.e1p) + b.e1n * a.e1n - b.e2p * a.e2p + b.e2n * a.e2n - b.e3p * a.e3p + b.e3n * a.e3n + b.epn * a.epn,
{
    lemma_step_first(Product::Geometric, a, b, 0);
    lemma_zero_times(b.s, a.s);
    lemma_step_zero(Product::Geometric, a, b, 0, 1, 1);
    lemma_step_zero(Product::Geometric, a, b, 0, 2, 2);
    lemma_step_zero(Product::Geometric, a, b, 0, 3, 3);
    lemma_step_zero(Product::Geometric, a, b, 0, 4, 4);
    lemma_step_zero(Product::Geometric, a, b, 0, 5, 5);
    lemma_step_zero(Product::Geometric, a, b, 0, 6, 6);
    lemma_step_zero(Product::Geometric, a, b, 0, 7, 7);
    lemma_step_sub(Product::Geometric, a, b, 0, 8, 8);
    lemma_step_add(Product::Geometric, a, b, 0, 9, 9);
    lemma_step_zero(Product::Geometric, a, b, 0, 10, 10);
    lemma_step_sub(Product::Geometric, a, b, 0, 11, 11);
    lemma_step_add(Product::Geometric, a, b, 0, 12, 12);
    lemma_step_sub(Product::Geometric, a, b, 0, 13, 13);
    lemma_step_add(Product::Geometric, a, b, 0, 14, 14);
    lemma_step_add(Product::Geometric, a, b, 0, 15, 15);
    lemma_step_zero(Product::Geometric, a, b, 0, 16, 16);
    lemma_step_zero(Product::Geometric, a, b, 0, 17, 17);
    lemma_step_zero(Product::Geometric, a, b, 0, 18, 18);
    lemma_step_zero(Product::Geometric, a, b, 0, 19, 19);
    lemma_step_zero(Product::Geometric, a, b, 0, 20, 20);
    lemma_step_zero(Product::Geometric, a, b, 0, 21, 21);
    lemma_step_zero(Product::Geometric, a, b, 0, 22, 22);
    lemma_step_zero(Product::Geometric, a, b, 0, 23, 23);
    lemma_step_zero(Product::Geometric, a, b, 0, 24, 24);
    lemma_step_zero(Product::Geometric, a, b, 0, 25, 25);
    lemma_step_zero(Product::Geometric, a, b, 0, 26, 26);
    lemma_step_zero(Product::Geometric, a, b, 0, 27, 27);
    lemma_step_zero(Product::Geometric, a, b, 0, 28, 28);
    lemma_step_zero(Product::Geometric, a, b, 0, 29, 29);
    lemma_step_zero(Product::Geometric, a, b, 0, 30, 30);
    lemma_step_zero(Product::Geometric, a, b, 0, 31, 31);
}

/// The coefficient of `e1p` in the product of two flat points.
pub proof fn lemma_flat_flat_e1p(a: R410<real>, b: R410<real>)
    requires
        zero_outside(a, |i: int| flat_blade(i)),
        zero_outside(b, |i: int| flat_blade(i)),
    ensures
        real_sum(Product::Geometric, a, b, 8, 31) == b.epn * a.e1n - b.e1n * a.epn,
{
    lemma_step_first(Product::Geometric, a, b, 8);
    lemma_zero_times(b.e1p, a.s);
    lemma_step_zero(Product::Geometric, a, b, 8, 1, 4);
    lemma_step_zero(Product::Geometric, a, b, 8, 2, 17);
    lemma_step_zero(Product::Geometric, a, b, 8, 3, 19);
    lemma_step_zero(Product::Geometric, a, b, 8, 4, 1);
    lemma_step_zero(Product::Geometric, a, b, 8, 5, 21);
    lemma_step_zero(Product::Geometric, a, b, 8, 6, 11);
    lemma_step_zero(Product::Geometric, a, b, 8, 7, 13);
    lemma_step_zero(Product::Geometric, a, b, 8, 8, 0);
    lemma_step_add(Product::Geometric, a, b, 8, 9, 15);
    lemma_step_zero(Product::Geometric, a, b, 8, 10, 26);
    lemma_step_zero(Product::Geometric, a, b, 8, 11, 6);
    lemma_step_zero(Product::Geometric, a, b, 8, 12, 28);
    lemma_step_zero(Product::Geometric, a, b, 8, 13, 7);
    lemma_step_zero(Product::Geometric, a, b, 8, 14, 29);
    lemma_step_sub(Product::Geometric, a, b, 8, 15, 9);
    lemma_step_zero(Product::Geometric, a, b, 8, 16, 22);
    lemma_step_zero(Product::Geometric, a, b, 8, 17, 2);
    lemma_step_zero(Product::Geometric, a, b, 8, 18, 24);
    lemma_step_zero(Product::Geometric, a, b, 8, 19, 3);
    lemma_step_zero(Product::Geometric, a, b, 8, 20, 25);
    lemma_step_zero(Product::Geometric, a, b, 8, 21, 5);
    lemma_step_zero(Product::Geometric, a, b, 8, 22, 16);
    lemma_step_zero(Product::Geometric, a, b, 8, 23, 31);
    lemma_step_zero(Product::Geometric, a, b, 8, 24, 18);
    lemma_step_zero(Product::Geometric, a, b, 8, 25, 20);
    lemma_step_zero(Product::Geometric, a, b, 8, 26, 10);
    lemma_step_zero(Product::Geometric, a, b, 8, 27, 30);
    lemma_step_zero(Product::Geometric, a, b, 8, 28, 12);
    lemma_step_zero(Product::Geometric, a, b, 8, 29, 14);
    lemma_step_zero(Product::Geometric, a, b, 8, 30, 27);
    lemma_step_zero(Product::Geometric, a, b, 8, 31, 23);
}

/// The coefficient of `e2p` in the product of two flat points.
pub proof fn lemma_flat_flat_e2p(a: R410<real>, b: R410<real>)
    requires
        zero_outside(a, |i: int| flat_blade(i)),
        zero_outside(b, |i: int| flat_blade(i)),
    ensures
        real_sum(Product::Geometric, a, b, 11, 31) == b.epn * a.e2n - b.e2n * a.epn,
{
    lemma_step_first(Product::Geometric, a, b, 11);
    lemma_zero_times(b.e2p, a.s);
    lemma_step_zero(Product::Geometric, a, b, 11, 1, 17);
    lemma_step_zero(Product::Geometric, a, b, 11, 2, 4);
    lemma_step_zero(Product::Geometric, a, b, 11, 3, 22);
    lemma_step_zero(Product::Geometric, a, b, 11, 4, 2);
    lemma_step_zero(Product::Geometric, a, b, 11, 5, 24);
    lemma_step_zero(Product::Geometric, a, b, 11, 6, 8);
    lemma_step_zero(Product::Geometric, a, b, 11, 7, 26);
    lemma_step_zero(Product::Geometric, a, b, 11, 8, 6);
    lemma_step_zero(Product::Geometric, a, b, 11, 9, 28);
    lemma_step_zero(Product::Geometric, a, b, 11, 10, 13);
    lemma_step_zero(Product::Geometric, a, b, 11, 11, 0);
    lemma_step_add(Product::Geometric, a, b, 11, 12, 15);
    lemma_step_zero(Product::Geometric, a, b, 11, 13, 10);
    lemma_step_zero(Product::Geometric, a, b, 11, 14, 30);
    lemma_step_sub(Product::Geometric, a, b, 11, 15, 12);
    lemma_step_zero(Product::Geometric, a, b, 11, 16, 19);
    lemma_step_zero(Product::Geometric, a, b, 11, 17, 1);
    lemma_step_zero(Product::Geometric, a, b, 11, 18, 21);
    lemma_step_zero(Product::Geometric, a, b, 11, 19, 16);
    lemma_step_zero(Product::Geometric, a, b, 11, 20, 31);
    lemma_step_zero(Product::Geometric, a, b, 11, 21, 18);
    lemma_step_zero(Product::Geometric, a, b, 11, 22, 3);
    lemma_step_zero(Product::Geometric, a, b, 11, 23, 25);
    lemma_step_zero(Product::Geometric, a, b, 11, 24, 5);
    lemma_step_zero(Product::Geometric, a, b, 11, 25, 23);
    lemma_step_zero(Product::Geometric, a, b, 11, 26, 7);
    lemma_step_zero(Product::Geometric, a, b, 11, 27, 29);
    lemma_step_zero(Product::Geometric, a, b, 11, 28, 9);
    lemma_step_zero(Product::Geometric, a, b, 11, 29, 27);
    lemma_step_zero(Product::Geometric, a, b, 11, 30, 14);
    lemma_step_zero(Product::Geometric, a, b, 11, 31, 20);
}

/// The coefficient of `e3p` in the product of two flat points.
pub proof fn lemma_flat_flat_e3p(a: R410<real>, b: R410<real>)
    requires
        zero_outside(a, |i: int| flat_blade(i)),
        zero_outside(b, |i: int| flat_blade(i)),
    ensures
        real_sum(Product::Geometric, a, b, 13, 31) == b.epn * a.e3n - b.e3n * a.epn,
{
    lemma_step_first(Product::Geometric, a, b, 13);
    lemma_zero_times(b.e3p, a.s);
    lemma_step_zero(Product::Geometric, a, b, 13, 1, 19);
    lemma_step_zero(Product::Geometric, a, b, 13, 2, 22);
    lemma_step_zero(Product::Geometric, a, b, 13, 3, 4);
    lemma_step_zero(Product::Geometric, a, b, 13, 4, 3);
    lemma_step_zero(Product::Geometric, a, b, 13, 5, 25);
    lemma_step_zero(Product::Geometric, a, b, 13, 6, 26);
    lemma_step_zero(Product::Geometric, a, b, 13, 7, 8);
    lemma_step_zero(Product::Geometric, a, b, 13, 8, 7);
    lemma_step_zero(Product::Geometric, a, b, 13, 9, 29);
    lemma_step_zero(Product::Geometric, a, b, 13, 10, 11);
    lemma_step_zero(Product::Geometric, a, b, 13, 11, 10);
    lemma_step_zero(Product::Geometric, a, b, 13, 12, 30);
    lemma_step_zero(Product::Geometric, a, b, 13, 13, 0);
    lemma_step_add(Product::Geometric, a, b, 13, 14, 15);
    lemma_step_sub(Product::Geometric, a, b, 13, 15, 14);
    lemma_step_zero(Product::Geometric, a, b, 13, 16, 17);
    lemma_step_zero(Product::Geometric, a, b, 13, 17, 16);
    lemma_step_zero(Product::Geometric, a, b, 13, 18, 31);
    lemma_step_zero(Product::Geometric, a, b, 13, 19, 1);
    lemma_step_zero(Product::Geometric, a, b, 13, 20, 21);
    lemma_step_zero(Product::Geometric, a, b, 13, 21, 20);
    lemma_step_zero(Product::Geometric, a, b, 13, 22, 2);
    lemma_step_zero(Product::Geometric, a, b, 13, 23, 24);
    lemma_step_zero(Product::Geometric, a, b, 13, 24, 23);
    lemma_step_zero(Product::Geometric, a, b, 13, 25, 5);
    lemma_step_zero(Product::Geometric, a, b, 13, 26, 6);
    lemma_step_zero(Product::Geometric, a, b, 13, 27, 28);
    lemma_step_zero(Product::Geometric, a, b, 13, 28, 27);
    lemma_step_zero(Product::Geometric, a, b, 13, 29, 9);
    lemma_step_zero(Product::Geometric, a, b, 13, 30, 12);
    lemma_step_zero(Product::Geometric, a, b, 13, 31, 18);
}

/// The coefficient of `e123` in the product of a sphere with an infinity.
pub proof fn lemma_sphere_infinity_e123(a: R410<real>, b: R410<real>)
    requires
        zero_outside(a, |i: int| sphere_blade(i)),
        zero_outside(b, |i: int| infinity_blade(i)),
    ensures
        real_sum(Product::Geometric, a, b, 16, 31) == b.ep * a.e123p - b.en * a.e123n,
{
    lemma_step_first(Product::Geometric, a, b, 16);
    lemma_zero_times(b.e123, a.s);
    lemma_step_zero(Product::Geometric, a, b, 16, 1, 10);
    lemma_step_zero(Product::Geometric, a, b, 16, 2, 7);
    lemma_step_zero(Product::Geometric, a, b, 16, 3, 6);
    lemma_step_zero(Product::Geometric, a, b, 16, 4, 26);
    lemma_step_zero(Product::Geometric, a, b, 16, 5, 27);
    lemma_step_zero(Product::Geometric, a, b, 16, 6, 3);
    lemma_step_zero(Product::Geometric, a, b, 16, 7, 2);
    lemma_step_zero(Product::Geometric, a, b, 16, 8, 22);
    lemma_step_zero(Product::Geometric, a, b, 16, 9, 23);
    lemma_step_zero(Product::Geometric, a, b, 16, 10, 1);
    lemma_step_zero(Product::Geometric, a, b, 16, 11, 19);
    lemma_step_zero(Product::Geometric, a, b, 16, 12, 20);
    lemma_step_zero(Product::Geometric, a, b, 16, 13, 17);
    lemma_step_zero(Product::Geometric, a, b, 16, 14, 18);
    lemma_step_zero(Product::Geometric, a, b, 16, 15, 31);
    lemma_step_zero(Product::Geometric, a, b, 16, 16, 0);
    lemma_step_zero(Product::Geometric, a, b, 16, 17, 13);
    lemma_step_zero(Product::Geometric, a, b, 16, 18, 14);
    lemma_step_zero(Product::Geometric, a, b, 16, 19, 11);
    lemma_step_zero(Product::Geometric, a, b, 16, 20, 12);
    lemma_step_zero(Product::Geometric, a, b, 16, 21, 30);
    lemma_step_zero(Product::Geometric, a, b, 16, 22, 8);
    lemma_step_zero(Product::Geometric, a, b, 16, 23, 9);
    lemma_step_zero(Product::Geometric, a, b, 16, 24, 29);
    lemma_step_zero(Product::Geometric, a, b, 16, 25, 28);
    lemma_step_add(Product::Geometric, a, b, 16, 26, 4);
    lemma_step_sub(Product::Geometric, a, b, 16, 27, 5);
    lemma_step_zero(Product::Geometric, a, b, 16, 28, 25);
    lemma_step_zero(Product::Geometric, a, b, 16, 29, 24);
    lemma_step_zero(Product::Geometric, a, b, 16, 30, 21);
    lemma_step_zero(Product::Geometric, a, b, 16, 31, 15);
}

/// The coefficient of `e12p` in the product of a sphere with an infinity.
pub proof fn lemma_sphere_infinity_e12p(a: R410<real>, b: R410<real>)
    requires
        zero_outside(a, |i: int| sphere_blade(i)),
        zero_outside(b, |i: int| infinity_blade(i)),
    ensures
        real_sum(Product::Geometric, a, b, 17, 31) == -(b.en * a.e12pn),
{
    lemma_step_first(Product::Geometric, a, b, 17);
    lemma_zero_times(b.e12p, a.s);
    lemma_step_zero(Product::Geometric, a, b, 17, 1, 11);
    lemma_step_zero(Product::Geometric, a, b, 17, 2, 8);
    lemma_step_zero(Product::Geometric, a, b, 17, 3, 26);
    lemma_step_zero(Product::Geometric, a, b, 17, 4, 6);
    lemma_step_zero(Product::Geometric, a, b, 17, 5, 28);
    lemma_step_zero(Product::Geometric, a, b, 17, 6, 4);
    lemma_step_zero(Product::Geometric, a, b, 17, 7, 22);
    lemma_step_zero(Product::Geometric, a, b, 17, 8, 2);
    lemma_step_zero(Product::Geometric, a, b, 17, 9, 24);
    lemma_step_zero(Product::Geometric, a, b, 17, 10, 19);
    lemma_step_zero(Product::Geometric, a, b, 17, 11, 1);
    lemma_step_zero(Product::Geometric, a, b, 17, 12, 21);
    lemma_step_zero(Product::Geometric, a, b, 17, 13, 16);
    lemma_step_zero(Product::Geometric, a, b, 17, 14, 31);
    lemma_step_zero(Product::Geometric, a, b, 17, 15, 18);
    lemma_step_zero(Product::Geometric, a, b, 17, 16, 13);
    lemma_step_zero(Product::Geometric, a, b, 17, 17, 0);
    lemma_step_zero(Product::Geometric, a, b, 17, 18, 15);
    lemma_step_zero(Product::Geometric, a, b, 17, 19, 10);
    lemma_step_zero(Product::Geometric, a, b, 17, 20, 30);
    lemma_step_zero(Product::Geometric, a, b, 17, 21, 12);
    lemma_step_zero(Product::Geometric, a, b, 17, 22, 7);
    lemma_step_zero(Product::Geometric, a, b, 17, 23, 29);
    lemma_step_zero(Product::Geometric, a, b, 17, 24, 9);
    lemma_step_zero(Product::Geometric, a, b, 17, 25, 27);
    lemma_step_zero(Product::Geometric, a, b, 17, 26, 3);
    lemma_step_zero(Product::Geometric, a, b, 17, 27, 25);
    lemma_step_sub(Product::Geometric, a, b, 17, 28, 5);
    lemma_step_zero(Product::Geometric, a, b, 17, 29, 23);
    lemma_step_zero(Product::Geometric, a, b, 17, 30, 20);
    lemma_step_zero(Product::Geometric, a, b, 17, 31, 14);
}

/// The coefficient of `e12n` in the product of a sphere with an infinity.
pub proof fn lemma_sphere_infinity_e12n(a: R410<real>, b: R410<real>)
    requires
        zero_outside(a, |i: int| sphere_blade(i)),
        zero_outside(b, |i: int| infinity_blade(i)),
    ensures
        real_sum(Product::Geometric, a, b, 18, 31) == -(b.ep * a.e12pn),
{
    lemma_step_first(Product::Geometric, a, b, 18);
    lemma_zero_times(b.e12n, a.s);
    lemma_step_zero(Product::Geometric, a, b, 18, 1, 12);
    lemma_step_zero(Product::Geometric, a, b, 18, 2, 9);
    lemma_step_zero(Product::Geometric, a, b, 18, 3, 27);
    lemma_step_zero(Product::Geometric, a, b, 18, 4, 28);
    lemma_step_zero(Product::Geometric, a, b, 18, 5, 6);
    lemma_step_zero(Product::Geometric, a, b, 18, 6, 5);
    lemma_step_zero(Product::Geometric, a, b, 18, 7, 23);
    lemma_step_zero(Product::Geometric, a, b, 18, 8, 24);
    lemma_step_zero(Product::Geometric, a, b, 18, 9, 2);
    lemma_step_zero(Product::Geometric, a, b, 18, 10, 20);
    lemma_step_zero(Product::Geometric, a, b, 18, 11, 21);
    lemma_step_zero(Product::Geometric, a, b, 18, 12, 1);
    lemma_step_zero(Product::Geometric, a, b, 18, 13, 31);
    lemma_step_zero(Product::Geometric, a, b, 18, 14, 16);
    lemma_step_zero(Product::Geometric, a, b, 18, 15, 17);
    lemma_step_zero(Product::Geometric, a, b, 18, 16, 14);
    lemma_step_zero(Product::Geometric, a, b, 18, 17, 15);
    lemma_step_zero(Product::Geometric, a, b, 18, 18, 0);
    lemma_step_zero(Product::Geometric, a, b, 18, 19, 30);
    lemma_step_zero(Product::Geometric, a, b, 18, 20, 10);
    lemma_step_zero(Product::Geometric, a, b, 18, 21, 11);
    lemma_step_zero(Product::Geometric, a, b, 18, 22, 29);
    lemma_step_zero(Product::Geometric, a, b, 18, 23, 7);
    lemma_step_zero(Product::Geometric, a, b, 18, 24, 8);
    lemma_step_zero(Product::Geometric, a, b, 18, 25, 26);
    lemma_step_zero(Product::Geometric, a, b, 18, 26, 25);
    lemma_step_zero(Product::Geometric, a, b, 18, 27, 3);
    lemma_step_sub(Product::Geometric, a, b, 18, 28, 4);
    lemma_step_zero(Product::Geometric, a, b, 18, 29, 22);
    lemma_step_zero(Product::Geometric, a, b, 18, 30, 19);
    lemma_step_zero(Product::Geometric, a, b, 18, 31, 13);
}

/// The coefficient of `e13p` in the product of a sphere with an infinity.
pub proof fn lemma_sphere_infinity_e13p(a: R410<real>, b: R410<real>)
    requires
        zero_outside(a, |i: int| sphere_blade(i)),
        zero_outside(b, |i: int| infinity_blade(i)),
    ensures
        real_sum(Product::Geometric, a, b, 19, 31) == -(b.en * a.e13pn),
{
    lemma_step_first(Product::Geometric, a, b, 19);
    lemma_zero_times(b.e13p, a.s);
    lemma_step_zero(Product::Geometric, a, b, 19, 1, 13);
    lemma_step_zero(Product::Geometric, a, b, 19, 2, 26);
    lemma_step_zero(Product::Geometric, a, b, 19, 3, 8);
    lemma_step_zero(Product::Geometric, a, b, 19, 4, 7);
    lemma_step_zero(Product::Geometric, a, b, 19, 5, 29);
    lemma_step_zero(Product::Geometric, a, b, 19, 6, 22);
    lemma_step_zero(Product::Geometric, a, b, 19, 7, 4);
    lemma_step_zero(Product::Geometric, a, b, 19, 8, 3);
    lemma_step_zero(Product::Geometric, a, b, 19, 9, 25);
    lemma_step_zero(Product::Geometric, a, b, 19, 10, 17);
    lemma_step_zero(Product::Geometric, a, b, 19, 11, 16);
    lemma_step_zero(Product::Geometric, a, b, 19, 12, 31);
    lemma_step_zero(Product::Geometric, a, b, 19, 13, 1);
    lemma_step_zero(Product::Geometric, a, b, 19, 14, 21);
    lemma_step_zero(Product::Geometric, a, b, 19, 15, 20);
    lemma_step_zero(Product::Geometric, a, b, 19, 16, 11);
    lemma_step_zero(Product::Geometric, a, b, 19, 17, 10);
    lemma_step_zero(Product::Geometric, a, b, 19, 18, 30);
    lemma_step_zero(Product::Geometric, a, b, 19, 19, 0);
    lemma_step_zero(Product::Geometric, a, b, 19, 20, 15);
    lemma_step_zero(Product::Geometric, a, b, 19, 21, 14);
    lemma_step_zero(Product::Geometric, a, b, 19, 22, 6);
    lemma_step_zero(Product::Geometric, a, b, 19, 23, 28);
    lemma_step_zero(Product::Geometric, a, b, 19, 24, 27);
    lemma_step_zero(Product::Geometric, a, b, 19, 25, 9);
    lemma_step_zero(Product::Geometric, a, b, 19, 26, 2);
    lemma_step_zero(Product::Geometric, a, b, 19, 27, 24);
    lemma_step_zero(Product::Geometric, a, b, 19, 28, 23);
    lemma_step_sub(Product::Geometric, a, b, 19, 29, 5);
    lemma_step_zero(Product::Geometric, a, b, 19, 30, 18);
    lemma_step_zero(Product::Geometric, a, b, 19, 31, 12);
}

/// The coefficient of `e13n` in the product of a sphere with an infinity.
pub proof fn lemma_sphere_infinity_e13n(a: R410<real>, b: R410<real>)
    requires
        zero_outside(a, |i: int| sphere_blade(i)),
        zero_outside(b, |i: int| infinity_blade(i)),
    ensures
        real_sum(Product::Geometric, a, b, 20, 31) == -(b.ep * a.e13pn),
{
    lemma_step_first(Product::Geometric, a, b, 20);
    lemma_zero_times(b.e13n, a.s);
    lemma_step_zero(Product::Geometric, a, b, 20, 1, 14);
    lemma_step_zero(Product::Geometric, a, b, 20, 2, 27);
    lemma_step_zero(Product::Geometric, a, b, 20, 3, 9);
    lemma_step_zero(Product::Geometric, a, b, 20, 4, 29);
    lemma_step_zero(Product::Geometric, a, b, 20, 5, 7);
    lemma_step_zero(Product::Geometric, a, b, 20, 6, 23);
    lemma_step_zero(Product::Geometric, a, b, 20, 7, 5);
    lemma_step_zero(Product::Geometric, a, b, 20, 8, 25);
    lemma_step_zero(Product::Geometric, a, b, 20, 9, 3);
    lemma_step_zero(Product::Geometric, a, b, 20, 10, 18);
    lemma_step_zero(Product::Geometric, a, b, 20, 11, 31);
    lemma_step_zero(Product::Geometric, a, b, 20, 12, 16);
    lemma_step_zero(Product::Geometric, a, b, 20, 13, 21);
    lemma_step_zero(Product::Geometric, a, b, 20, 14, 1);
    lemma_step_zero(Product::Geometric, a, b, 20, 15, 19);
    lemma_step_zero(Product::Geometric, a, b, 20, 16, 12);
    lemma_step_zero(Product::Geometric, a, b, 20, 17, 30);
    lemma_step_zero(Product::Geometric, a, b, 20, 18, 10);
    lemma_step_zero(Product::Geometric, a, b, 20, 19, 15);
    lemma_step_zero(Product::Geometric, a, b, 20, 20, 0);
    lemma_step_zero(Product::Geometric, a, b, 20, 21, 13);
    lemma_step_zero(Product::Geometric, a, b, 20, 22, 28);
    lemma_step_zero(Product::Geometric, a, b, 20, 23, 6);
    lemma_step_zero(Product::Geometric, a, b, 20, 24, 26);
    lemma_step_zero(Product::Geometric, a, b, 20, 25, 8);
    lemma_step_zero(Product::Geometric, a, b, 20, 26, 24);
    lemma_step_zero(Product::Geometric, a, b, 20, 27, 2);
    lemma_step_zero(Product::Geometric, a, b, 20, 28, 22);
    lemma_step_sub(Product::Geometric, a, b, 20, 29, 4);
    lemma_step_zero(Product::Geometric, a, b, 20, 30, 17);
    lemma_step_zero(Product::Geometric, a, b, 20, 31, 11);
}

/// The coefficient of `e23p` in the product of a sphere with an infinity.
pub proof fn lemma_sphere_infinity_e23p(a: R410<real>, b: R410<real>)
    requires
        zero_outside(a, |i: int| sphere_blade(i)),
        zero_outside(b, |i: int| infinity_blade(i)),
    ensures
        real_sum(Product::Geometric, a, b, 22, 31) == -(b.en * a.e23pn),
{
    lemma_step_first(Product::Geometric, a, b, 22);
    lemma_zero_times(b.e23p, a.s);
    lemma_step_zero(Product::Geometric, a, b, 22, 1, 26);
    lemma_step_zero(Product::Geometric, a, b, 22, 2, 13);
    lemma_step_zero(Product::Geometric, a, b, 22, 3, 11);
    lemma_step_zero(Product::Geometric, a, b, 22, 4, 10);
    lemma_step_zero(Product::Geometric, a, b, 22, 5, 30);
    lemma_step_zero(Product::Geometric, a, b, 22, 6, 19);
    lemma_step_zero(Product::Geometric, a, b, 22, 7, 17);
    lemma_step_zero(Product::Geometric, a, b, 22, 8, 16);
    lemma_step_zero(Product::Geometric, a, b, 22, 9, 31);
    lemma_step_zero(Product::Geometric, a, b, 22, 10, 4);
    lemma_step_zero(Product::Geometric, a, b, 22, 11, 3);
    lemma_step_zero(Product::Geometric, a, b, 22, 12, 25);
    lemma_step_zero(Product::Geometric, a, b, 22, 13, 2);
    lemma_step_zero(Product::Geometric, a, b, 22, 14, 24);
    lemma_step_zero(Product::Geometric, a, b, 22, 15, 23);
    lemma_step_zero(Product::Geometric, a, b, 22, 16, 8);
    lemma_step_zero(Product::Geometric, a, b, 22, 17, 7);
    lemma_step_zero(Product::Geometric, a, b, 22, 18, 29);
    lemma_step_zero(Product::Geometric, a, b, 22, 19, 6);
    lemma_step_zero(Product::Geometric, a, b, 22, 20, 28);
    lemma_step_zero(Product::Geometric, a, b, 22, 21, 27);
    lemma_step_zero(Product::Geometric, a, b, 22, 22, 0);
    lemma_step_zero(Product::Geometric, a, b, 22, 23, 15);
    lemma_step_zero(Product::Geometric, a, b, 22, 24, 14);
    lemma_step_zero(Product::Geometric, a, b, 22, 25, 12);
    lemma_step_zero(Product::Geometric, a, b, 22, 26, 1);
    lemma_step_zero(Product::Geometric, a, b, 22, 27, 21);
    lemma_step_zero(Product::Geometric, a, b, 22, 28, 20);
    lemma_step_zero(Product::Geometric, a, b, 22, 29, 18);
    lemma_step_sub(Product::Geometric, a, b, 22, 30, 5);
    lemma_step_zero(Product::Geometric, a, b, 22, 31, 9);
}

/// The coefficient of `e23n` in the product of a sphere with an infinity.
pub proof fn lemma_sphere_infinity_e23n(a: R410<real>, b: R410<real>)
    requires
        zero_outside(a, |i: int| sphere_blade(i)),
        zero_outside(b, |i: int| infinity_blade(i)),
    ensures
        real_sum(Product::Geometric, a, b, 23, 31) == -(b.ep * a.e23pn),
{
    lemma_step_first(Product::Geometric, a, b, 23);
    lemma_zero_times(b.e23n, a.s);
    lemma_step_zero(Product::Geometric, a, b, 23, 1, 27);
    lemma_step_zero(Product::Geometric, a, b, 23, 2, 14);
    lemma_step_zero(Product::Geometric, a, b, 23, 3, 12);
    lemma_step_zero(Product::Geometric, a, b, 23, 4, 30);
    lemma_step_zero(Product::Geometric, a, b, 23, 5, 10);
    lemma_step_zero(Product::Geometric, a, b, 23, 6, 20);
    lemma_step_zero(Product::Geometric, a, b, 23, 7, 18);
    lemma_step_zero(Product::Geometric, a, b, 23, 8, 31);
    lemma_step_zero(Product::Geometric, a, b, 23, 9, 16);
    lemma_step_zero(Product::Geometric, a, b, 23, 10, 5);
    lemma_step_zero(Product::Geometric, a, b, 23, 11, 25);
    lemma_step_zero(Product::Geometric, a, b, 23, 12, 3);
    lemma_step_zero(Product::Geometric, a, b, 23, 13, 24);
    lemma_step_zero(Product::Geometric, a, b, 23, 14, 2);
    lemma_step_zero(Product::Geometric, a, b, 23, 15, 22);
    lemma_step_zero(Product::Geometric, a, b, 23, 16, 9);
    lemma_step_zero(Product::Geometric, a, b, 23, 17, 29);
    lemma_step_zero(Product::Geometric, a, b, 23, 18, 7);
    lemma_step_zero(Product::Geometric, a, b, 23, 19, 28);
    lemma_step_zero(Product::Geometric, a, b, 23, 20, 6);
    lemma_step_zero(Product::Geometric, a, b, 23, 21, 26);
    lemma_step_zero(Product::Geometric, a, b, 23, 22, 15);
    lemma_step_zero(Product::Geometric, a, b, 23, 23, 0);
    lemma_step_zero(Product::Geometric, a, b, 23, 24, 13);
    lemma_step_zero(Product::Geometric, a, b, 23, 25, 11);
    lemma_step_zero(Product::Geometric, a, b, 23, 26, 21);
    lemma_step_zero(Product::Geometric, a, b, 23, 27, 1);
    lemma_step_zero(Product::Geometric, a, b, 23, 28, 19);
    lemma_step_zero(Product::Geometric, a, b, 23, 29, 17);
    lemma_step_sub(Product::Geometric, a, b, 23, 30, 4);
    lemma_step_zero(Product::Geometric, a, b, 23, 31, 8);
}

/// The coefficient of `e123pn` in the product of a sphere with an infinity.
pub proof fn lemma_sphere_infinity_e123pn(a: R410<real>, b: R410<real>)
    requires
        zero_outside(a, |i: int| sphere_blade(i)),
        zero_outside(b, |i: int| infinity_blade(i)),
    ensures
        real_sum(Product::Geometric, a, b, 31, 31) == b.en * a.e123p - b.ep * a.e123n,
{
    lemma_step_first(Product::Geometric, a, b, 31);
    lemma_zero_times(b.e123pn, a.s);
    lemma_step_zero(Product::Geometric, a, b, 31, 1, 30);
    lemma_step_zero(Product::Geometric, a, b, 31, 2, 29);
    lemma_step_zero(Product::Geometric, a, b, 31, 3, 28);
    lemma_step_zero(Product::Geometric, a, b, 31, 4, 27);
    lemma_step_zero(Product::Geometric, a, b, 31, 5, 26);
    lemma_step_zero(Product::Geometric, a, b, 31, 6, 25);
    lemma_step_zero(Product::Geometric, a, b, 31, 7, 24);
    lemma_step_zero(Product::Geometric, a, b, 31, 8, 23);
    lemma_step_zero(Product::Geometric, a, b, 31, 9, 22);
    lemma_step_zero(Product::Geometric, a, b, 31, 10, 21);
    lemma_step_zero(Product::Geometric, a, b, 31, 11, 20);
    lemma_step_zero(Product::Geometric, a, b, 31, 12, 19);
    lemma_step_zero(Product::Geometric, a, b, 31, 13, 18);
    lemma_step_zero(Product::Geometric, a, b, 31, 14, 17);
    lemma_step_zero(Product::Geometric, a, b, 31, 15, 16);
    lemma_step_zero(Product::Geometric, a, b, 31, 16, 15);
    lemma_step_zero(Product::Geometric, a, b, 31, 17, 14);
    lemma_step_zero(Product::Geometric, a, b, 31, 18, 13);
    lemma_step_zero(Product::Geometric, a, b, 31, 19, 12);
    lemma_step_zero(Product::Geometric, a, b, 31, 20, 11);
    lemma_step_zero(Product::Geometric, a, b, 31, 21, 10);
    lemma_step_zero(Product::Geometric, a, b, 31, 22, 9);
    lemma_step_zero(Product::Geometric, a, b, 31, 23, 8);
    lemma_step_zero(Product::Geometric, a, b, 31, 24, 7);
    lemma_step_zero(Product::Geometric, a, b, 31, 25, 6);
    lemma_step_add(Product::Geometric, a, b, 31, 26, 5);
    lemma_step_sub(Product::Geometric, a, b, 31, 27, 4);
    lemma_step_zero(Product::Geometric, a, b, 31, 28, 3);
    lemma_step_zero(Product::Geometric, a, b, 31, 29, 2);
    lemma_step_zero(Product::Geometric, a, b, 31, 30, 1);
    lemma_step_zero(Product::Geometric, a, b, 31, 31, 0);
}

/// Where the blades of the two factors can meet.
proof fn lemma_sphere_infinity_support(x: int, y: int)
    requires
        sphere_blade(x),
        infinity_blade(y),
        keeps(Product::Geometric, x, y),
    ensures
        swept_blade(blade_times(x, y)),
{
    if x == 26 && y == 4 {
        assert(blade_times(26, 4) == 16);
    }
    if x == 26 && y == 5 {
        assert(blade_times(26, 5) == 31);
    }
    if x == 27 && y == 4 {
        assert(blade_times(27, 4) == 31);
    }
    if x == 27 && y == 5 {
        assert(blade_times(27, 5) == 16);
    }
    if x == 28 && y == 4 {
        assert(blade_times(28, 4) == 18);
    }
    if x == 28 && y == 5 {
        assert(blade_times(28, 5) == 17);
    }
    if x == 29 && y == 4 {
        assert(blade_times(29, 4) == 20);
    }
    if x == 29 && y == 5 {
        assert(blade_times(29, 5) == 19);
    }
    if x == 30 && y == 4 {
        assert(blade_times(30, 4) == 23);
    }
    if x == 30 && y == 5 {
        assert(blade_times(30, 5) == 22);
    }
}

/// The product of a sphere with an infinity has no other coefficients.
pub proof fn lemma_sphere_infinity_elsewhere(a: R410<real>, b: R410<real>, c: int)
    requires
        zero_outside(a, |i: int| sphere_blade(i)),
        zero_outside(b, |i: int| infinity_blade(i)),
        0 <= c < 32,
        !swept_blade(c),
    ensures
        real_sum(Product::Geometric, a, b, c, 31) == 0real,
{
    assert forall|x: int| 1 <= x <= 31 implies !keeps(
        Product::Geometric,
        x,
        #[trigger] blade_times(x, c),
    ) || a.coeff(x) == 0real || b.coeff(blade_times(x, c)) == 0real by {
        let y = blade_times(x, c);
        lemma_blade_times_in_range(x, c);
        if sphere_blade(x) && infinity_blade(y) && keeps(Product::Geometric, x, y) {
            lemma_sphere_infinity_support(x, y);
            lemma_blade_times_solves(x, y, c);
        }
    }
    assert(a.coeff(0) == 0real);
    lemma_real_sum_vanishes(Product::Geometric, a, b, c, 31);
}

/// The coefficient of `e1` in the product of a sphere, swept to infinity, with a sphere.
pub proof fn lemma_swept_sphere_e1(a: R410<real>, b: R410<real>)
    requires
        zero_outside(a, |i: int| swept_blade(i)),
        zero_outside(b, |i: int| sphere_blade(i)),
    ensures
        real_sum(Product::Geometric, a, b, 1, 31) == b.e123p * a.e23p - b.e123n * a.e23n - b.e23pn * a.e123pn,
{
    lemma_step_first(Product::Geometric, a, b, 1);
    lemma_zero_times(b.e1, a.s);
    lemma_step_zero(Product::Geometric, a, b, 1, 1, 0);
    lemma_step_zero(Product::Geometric, a, b, 1, 2, 6);
    lemma_step_zero(Product::Geometric, a, b, 1, 3, 7);
    lemma_step_zero(Product::Geometric, a, b, 1, 4, 8);
    lemma_step_zero(Product::Geometric, a, b, 1, 5, 9);
    lemma_step_zero(Product::Geometric, a, b, 1, 6, 2);
    lemma_step_zero(Product::Geometric, a, b, 1, 7, 3);
    lemma_step_zero(Product::Geometric, a, b, 1, 8, 4);
    lemma_step_zero(Product::Geometric, a, b, 1, 9, 5);
    lemma_step_zero(Product::Geometric, a, b, 1, 10, 16);
    lemma_step_zero(Product::Geometric, a, b, 1, 11, 17);
    lemma_step_zero(Product::Geometric, a, b, 1, 12, 18);
    lemma_step_zero(Product::Geometric, a, b, 1, 13, 19);
    lemma_step_zero(Product::Geometric, a, b, 1, 14, 20);
    lemma_step_zero(Product::Geometric, a, b, 1, 15, 21);
    lemma_step_zero(Product::Geometric, a, b, 1, 16, 10);
    lemma_step_zero(Product::Geometric, a, b, 1, 17, 11);
    lemma_step_zero(Product::Geometric, a, b, 1, 18, 12);
    lemma_step_zero(Product::Geometric, a, b, 1, 19, 13);
    lemma_step_zero(Product::Geometric, a, b, 1, 20, 14);
    lemma_step_zero(Product::Geometric, a, b, 1, 21, 15);
    lemma_step_add(Product::Geometric, a, b, 1, 22, 26);
    lemma_step_sub(Product::Geometric, a, b, 1, 23, 27);
    lemma_step_zero(Product::Geometric, a, b, 1, 24, 28);
    lemma_step_zero(Product::Geometric, a, b, 1, 25, 29);
    lemma_step_zero(Product::Geometric, a, b, 1, 26, 22);
    lemma_step_zero(Product::Geometric, a, b, 1, 27, 23);
    lemma_step_zero(Product::Geometric, a, b, 1, 28, 24);
    lemma_step_zero(Product::Geometric, a, b, 1, 29, 25);
    lemma_step_zero(Product::Geometric, a, b, 1, 30, 31);
    lemma_step_sub(Product::Geometric, a, b, 1, 31, 30);
}

/// The coefficient of `e2` in the product of a sphere, swept to infinity, with a sphere.
pub proof fn lemma_swept_sphere_e2(a: R410<real>, b: R410<real>)
    requires
        zero_outside(a, |i: int| swept_blade(i)),
        zero_outside(b, |i: int| sphere_blade(i)),
    ensures
        real_sum(Product::Geometric, a, b, 2, 31) == -(b.e123p * a.e13p) + b.e123n * a.e13n + b.e13pn * a.e123pn,
{
    lemma_step_first(Product::Geometric, a, b, 2);
    lemma_zero_times(b.e2, a.s);
    lemma_step_zero(Product::Geometric, a, b, 2, 1, 6);
    lemma_step_zero(Product::Geometric, a, b, 2, 2, 0);
    lemma_step_zero(Product::Geometric, a, b, 2, 3, 10);
    lemma_step_zero(Product::Geometric, a, b, 2, 4, 11);
    lemma_step_zero(Product::Geometric, a, b, 2, 5, 12);
    lemma_step_zero(Product::Geometric, a, b, 2, 6, 1);
    lemma_step_zero(Product::Geometric, a, b, 2, 7, 16);
    lemma_step_zero(Product::Geometric, a, b, 2, 8, 17);
    lemma_step_zero(Product::Geometric, a, b, 2, 9, 18);
    lemma_step_zero(Product::Geometric, a, b, 2, 10, 3);
    lemma_step_zero(Product::Geometric, a, b, 2, 11, 4);
    lemma_step_zero(Product::Geometric, a, b, 2, 12, 5);
    lemma_step_zero(Product::Geometric, a, b, 2, 13, 22);
    lemma_step_zero(Product::Geometric, a, b, 2, 14, 23);
    lemma_step_zero(Product::Geometric, a, b, 2, 15, 24);
    lemma_step_zero(Product::Geometric, a, b, 2, 16, 7);
    lemma_step_zero(Product::Geometric, a, b, 2, 17, 8);
    lemma_step_zero(Product::Geometric, a, b, 2, 18, 9);
    lemma_step_sub(Product::Geometric, a, b, 2, 19, 26);
    lemma_step_add(Product::Geometric, a, b, 2, 20, 27);
    lemma_step_zero(Product::Geometric, a, b, 2, 21, 28);
    lemma_step_zero(Product::Geometric, a, b, 2, 22, 13);
    lemma_step_zero(Product::Geometric, a, b, 2, 23, 14);
    lemma_step_zero(Product::Geometric, a, b, 2, 24, 15);
    lemma_step_zero(Product::Geometric, a, b, 2, 25, 30);
    lemma_step_zero(Product::Geometric, a, b, 2, 26, 19);
    lemma_step_zero(Product::Geometric, a, b, 2, 27, 20);
    lemma_step_zero(Product::Geometric, a, b, 2, 28, 21);
    lemma_step_zero(Product::Geometric, a, b, 2, 29, 31);
    lemma_step_zero(Product::Geometric, a, b, 2, 30, 25);
    lemma_step_add(Product::Geometric, a, b, 2, 31, 29);
}

/// The coefficient of `e3` in the product of a sphere, swept to infinity, with a sphere.
pub proof fn lemma_swept_sphere_e3(a: R410<real>, b: R410<real>)
    requires
        zero_outside(a, |i: int| swept_blade(i)),
        zero_outside(b, |i: int| sphere_blade(i)),
    ensures
        real_sum(Product::Geometric, a, b, 3, 31) == b.e123p * a.e12p - b.e123n * a.e12n - b.e12pn * a.e123pn,
{
    lemma_step_first(Product::Geometric, a, b, 3);
    lemma_zero_times(b.e3, a.s);
    lemma_step_zero(Product::Geometric, a, b, 3, 1, 7);
    lemma_step_zero(Product::Geometric, a, b, 3, 2, 10);
    lemma_step_zero(Product::Geometric, a, b, 3, 3, 0);
    lemma_step_zero(Product::Geometric, a, b, 3, 4, 13);
    lemma_step_zero(Product::Geometric, a, b, 3, 5, 14);
    lemma_step_zero(Product::Geometric, a, b, 3, 6, 16);
    lemma_step_zero(Product::Geometric, a, b, 3, 7, 1);
    lemma_step_zero(Product::Geometric, a, b, 3, 8, 19);
    lemma_step_zero(Product::Geometric, a, b, 3, 9, 20);
    lemma_step_zero(Product::Geometric, a, b, 3, 10, 2);
    lemma_step_zero(Product::Geometric, a, b, 3, 11, 22);
    lemma_step_zero(Product::Geometric, a, b, 3, 12, 23);
    lemma_step_zero(Product::Geometric, a, b, 3, 13, 4);
    lemma_step_zero(Product::Geometric, a, b, 3, 14, 5);
    lemma_step_zero(Product::Geometric, a, b, 3, 15, 25);
    lemma_step_zero(Product::Geometric, a, b, 3, 16, 6);
    lemma_step_add(Product::Geometric, a, b, 3, 17, 26);
    lemma_step_sub(Product::Geometric, a, b, 3, 18, 27);
    lemma_step_zero(Product::Geometric, a, b, 3, 19, 8);
    lemma_step_zero(Product::Geometric, a, b, 3, 20, 9);
    lemma_step_zero(Product::Geometric, a, b, 3, 21, 29);
    lemma_step_zero(Product::Geometric, a, b, 3, 22, 11);
    lemma_step_zero(Product::Geometric, a, b, 3, 23, 12);
    lemma_step_zero(Product::Geometric, a, b, 3, 24, 30);
    lemma_step_zero(Product::Geometric, a, b, 3, 25, 15);
    lemma_step_zero(Product::Geometric, a, b, 3, 26, 17);
    lemma_step_zero(Product::Geometric, a, b, 3, 27, 18);
    lemma_step_zero(Product::Geometric, a, b, 3, 28, 31);
    lemma_step_zero(Product::Geometric, a, b, 3, 29, 21);
    lemma_step_zero(Product::Geometric, a, b, 3, 30, 24);
    lemma_step_sub(Product::Geometric, a, b, 3, 31, 28);
}

/// The coefficient of `ep` in the product of a sphere, swept to infinity, with a sphere.
pub proof fn lemma_swept_sphere_ep(a: R410<real>, b: R410<real>)
    requires
        zero_outside(a, |i: int| swept_blade(i)),
        zero_outside(b, |i: int| sphere_blade(i)),
    ensures
        real_sum(Product::Geometric, a, b, 4, 31) == -(b.e123p * a.e123) - b.e12pn * a.e12n - b.e13pn * a.e13n - b.e23pn * a.e23n + b.e123n * a.e123pn,
{
    lemma_step_first(Product::Geometric, a, b, 4);
    lemma_zero_times(b.ep, a.s);
    lemma_step_zero(Product::Geometric, a, b, 4, 1, 8);
    lemma_step_zero(Product::Geometric, a, b, 4, 2, 11);
    lemma_step_zero(Product::Geometric, a, b, 4, 3, 13);
    lemma_step_zero(Product::Geometric, a, b, 4, 4, 0);
    lemma_step_zero(Product::Geometric, a, b, 4, 5, 15);
    lemma_step_zero(Product::Geometric, a, b, 4, 6, 17);
    lemma_step_zero(Product::Geometric, a, b, 4, 7, 19);
    lemma_step_zero(Product::Geometric, a, b, 4, 8, 1);
    lemma_step_zero(Product::Geometric, a, b, 4, 9, 21);
    lemma_step_zero(Product::Geometric, a, b, 4, 10, 22);
    lemma_step_zero(Product::Geometric, a, b, 4, 11, 2);
    lemma_step_zero(Product::Geometric, a, b, 4, 12, 24);
    lemma_step_zero(Product::Geometric, a, b, 4, 13, 3);
    lemma_step_zero(Product::Geometric, a, b, 4, 14, 25);
    lemma_step_zero(Product::Geometric, a, b, 4, 15, 5);
    lemma_step_sub(Product::Geometric, a, b, 4, 16, 26);
    lemma_step_zero(Product::Geometric, a, b, 4, 17, 6);
    lemma_step_sub(Product::Geometric, a, b, 4, 18, 28);
    lemma_step_zero(Product::Geometric, a, b, 4, 19, 7);
    lemma_step_sub(Product::Geometric, a, b, 4, 20, 29);
    lemma_step_zero(Product::Geometric, a, b, 4, 21, 9);
    lemma_step_zero(Product::Geometric, a, b, 4, 22, 10);
    lemma_step_sub(Product::Geometric, a, b, 4, 23, 30);
    lemma_step_zero(Product::Geometric, a, b, 4, 24, 12);
    lemma_step_zero(Product::Geometric, a, b, 4, 25, 14);
    lemma_step_zero(Product::Geometric, a, b, 4, 26, 16);
    lemma_step_zero(Product::Geometric, a, b, 4, 27, 31);
    lemma_step_zero(Product::Geometric, a, b, 4, 28, 18);
    lemma_step_zero(Product::Geometric, a, b, 4, 29, 20);
    lemma_step_zero(Product::Geometric, a, b, 4, 30, 23);
    lemma_step_add(Product::Geometric, a, b, 4, 31, 27);
}

/// The coefficient of `en` in the product of a sphere, swept to infinity, with a sphere.
pub proof fn lemma_swept_sphere_en(a: R410<real>, b: R410<real>)
    requires
        zero_outside(a, |i: int| swept_blade(i)),
        zero_outside(b, |i: int| sphere_blade(i)),
    ensures
        real_sum(Product::Geometric, a, b, 5, 31) == -(b.e123n * a.e123) - b.e12pn * a.e12p - b.e13pn * a.e13p - b.e23pn * a.e23p + b.e123p * a.e123pn,
{
    lemma_step_first(Product::Geometric, a, b, 5);
    lemma_zero_times(b.en, a.s);
    lemma_step_zero(Product::Geometric, a, b, 5, 1, 9);
    lemma_step_zero(Product::Geometric, a, b, 5, 2, 12);
    lemma_step_zero(Product::Geometric, a, b, 5, 3, 14);
    lemma_step_zero(Product::Geometric, a, b, 5, 4, 15);
    lemma_step_zero(Product::Geometric, a, b, 5, 5, 0);
    lemma_step_zero(Product::Geometric, a, b, 5, 6, 18);
    lemma_step_zero(Product::Geometric, a, b, 5, 7, 20);
    lemma_step_zero(Product::Geometric, a, b, 5, 8, 21);
    lemma_step_zero(Product::Geometric, a, b, 5, 9, 1);
    lemma_step_zero(Product::Geometric, a, b, 5, 10, 23);
    lemma_step_zero(Product::Geometric, a, b, 5, 11, 24);
    lemma_step_zero(Product::Geometric, a, b, 5, 12, 2);
    lemma_step_zero(Product::Geometric, a, b, 5, 13, 25);
    lemma_step_zero(Product::Geometric, a, b, 5, 14, 3);
    lemma_step_zero(Product::Geometric, a, b, 5, 15, 4);
    lemma_step_sub(Product::Geometric, a, b, 5, 16, 27);
    lemma_step_sub(Product::Geometric, a, b, 5, 17, 28);
    lemma_step_zero(Product::Geometric, a, b, 5, 18, 6);
    lemma_step_sub(Product::Geometric, a, b, 5, 19, 29);
    lemma_step_zero(Product::Geometric, a, b, 5, 20, 7);
    lemma_step_zero(Product::Geometric, a, b, 5, 21, 8);
    lemma_step_sub(Product::Geometric, a, b, 5, 22, 30);
    lemma_step_zero(Product::Geometric, a, b, 5, 23, 10);
    lemma_step_zero(Product::Geometric, a, b, 5, 24, 11);
    lemma_step_zero(Product::Geometric, a, b, 5, 25, 13);
    lemma_step_zero(Product::Geometric, a, b, 5, 26, 31);
    lemma_step_zero(Product::Geometric, a, b, 5, 27, 16);
    lemma_step_zero(Product::Geometric, a, b, 5, 28, 17);
    lemma_step_zero(Product::Geometric, a, b, 5, 29, 19);
    lemma_step_zero(Product::Geometric, a, b, 5, 30, 22);
    lemma_step_add(Product::Geometric, a, b, 5, 31, 26);
}

/// The coefficient of `e12p` in the product of a sphere, swept to infinity, with a sphere.
pub proof fn lemma_swept_sphere_e12p(a: R410<real>, b: R410<real>)
    requires
        zero_outside(a, |i: int| swept_blade(i)),
        zero_outside(b, |i: int| sphere_blade(i)),
    ensures
        real_sum(Product::Geometric, a, b, 17, 31) == -(b.e23pn * a.e13n) + b.e13pn * a.e23n,
{
    lemma_step_first(Product::Geometric, a, b, 17);
    lemma_zero_times(b.e12p, a.s);
    lemma_step_zero(Product::Geometric, a, b, 17, 1, 11);
    lemma_step_zero(Product::Geometric, a, b, 17, 2, 8);
    lemma_step_zero(Product::Geometric, a, b, 17, 3, 26);
    lemma_step_zero(Product::Geometric, a, b, 17, 4, 6);
    lemma_step_zero(Product::Geometric, a, b, 17, 5, 28);
    lemma_step_zero(Product::Geometric, a, b, 17, 6, 4);
    lemma_step_zero(Product::Geometric, a, b, 17, 7, 22);
    lemma_step_zero(Product::Geometric, a, b, 17, 8, 2);
    lemma_step_zero(Product::Geometric, a, b, 17, 9, 24);
    lemma_step_zero(Product::Geometric, a, b, 17, 10, 19);
    lemma_step_zero(Product::Geometric, a, b, 17, 11, 1);
    lemma_step_zero(Product::Geometric, a, b, 17, 12, 21);
    lemma_step_zero(Product::Geometric, a, b, 17, 13, 16);
    lemma_step_zero(Product::Geometric, a, b, 17, 14, 31);
    lemma_step_zero(Product::Geometric, a, b, 17, 15, 18);
    lemma_step_zero(Product::Geometric, a, b, 17, 16, 13);
    lemma_step_zero(Product::Geometric, a, b, 17, 17, 0);
    lemma_step_zero(Product::Geometric, a, b, 17, 18, 15);
    lemma_step_zero(Product::Geometric, a, b, 17, 19, 10);
    lemma_step_sub(Product::Geometric, a, b, 17, 20, 30);
    lemma_step_zero(Product::Geometric, a, b, 17, 21, 12);
    lemma_step_zero(Product::Geometric, a, b, 17, 22, 7);
    lemma_step_add(Product::Geometric, a, b, 17, 23, 29);
    lemma_step_zero(Product::Geometric, a, b, 17, 24, 9);
    lemma_step_zero(Product::Geometric, a, b, 17, 25, 27);
    lemma_step_zero(Product::Geometric, a, b, 17, 26, 3);
    lemma_step_zero(Product::Geometric, a, b, 17, 27, 25);
    lemma_step_zero(Product::Geometric, a, b, 17, 28, 5);
    lemma_step_zero(Product::Geometric, a, b, 17, 29, 23);
    lemma_step_zero(Product::Geometric, a, b, 17, 30, 20);
    lemma_step_zero(Product::Geometric, a, b, 17, 31, 14);
}

/// The coefficient of `e12n` in the product of a sphere, swept to infinity, with a sphere.
pub proof fn lemma_swept_sphere_e12n(a: R410<real>, b: R410<real>)
    requires
        zero_outside(a, |i: int| swept_blade(i)),
        zero_outside(b, |i: int| sphere_blade(i)),
    ensures
        real_sum(Product::Geometric, a, b, 18, 31) == -(b.e23pn * a.e13p) + b.e13pn * a.e23p,
{
    lemma_step_first(Product::Geometric, a, b, 18);
    lemma_zero_times(b.e12n, a.s);
    lemma_step_zero(Product::Geometric, a, b, 18, 1, 12);
    lemma_step_zero(Product::Geometric, a, b, 18, 2, 9);
    lemma_step_zero(Product::Geometric, a, b, 18, 3, 27);
    lemma_step_zero(Product::Geometric, a, b, 18, 4, 28);
    lemma_step_zero(Product::Geometric, a, b, 18, 5, 6);
    lemma_step_zero(Product::Geometric, a, b, 18, 6, 5);
    lemma_step_zero(Product::Geometric, a, b, 18, 7, 23);
    lemma_step_zero(Product::Geometric, a, b, 18, 8, 24);
    lemma_step_zero(Product::Geometric, a, b, 18, 9, 2);
    lemma_step_zero(Product::Geometric, a, b, 18, 10, 20);
    lemma_step_zero(Product::Geometric, a, b, 18, 11, 21);
    lemma_step_zero(Product::Geometric, a, b, 18, 12, 1);
    lemma_step_zero(Product::Geometric, a, b, 18, 13, 31);
    lemma_step_zero(Product::Geometric, a, b, 18, 14, 16);
    lemma_step_zero(Product::Geometric, a, b, 18, 15, 17);
    lemma_step_zero(Product::Geometric, a, b, 18, 16, 14);
    lemma_step_zero(Product::Geometric, a, b, 18, 17, 15);
    lemma_step_zero(Product::Geometric, a, b, 18, 18, 0);
    lemma_step_sub(Product::Geometric, a, b, 18, 19, 30);
    lemma_step_zero(Product::Geometric, a, b, 18, 20, 10);
    lemma_step_zero(Product::Geometric, a, b, 18, 21, 11);
    lemma_step_add(Product::Geometric, a, b, 18, 22, 29);
    lemma_step_zero(Product::Geometric, a, b, 18, 23, 7);
    lemma_step_zero(Product::Geometric, a, b, 18, 24, 8);
    lemma_step_zero(Product::Geometric, a, b, 18, 25, 26);
    lemma_step_zero(Product::Geometric, a, b, 18, 26, 25);
    lemma_step_zero(Product::Geometric, a, b, 18, 27, 3);
    lemma_step_zero(Product::Geometric, a, b, 18, 28, 4);
    lemma_step_zero(Product::Geometric, a, b, 18, 29, 22);
    lemma_step_zero(Product::Geometric, a, b, 18, 30, 19);
    lemma_step_zero(Product::Geometric, a, b, 18, 31, 13);
}

/// The coefficient of `e13p` in the product of a sphere, swept to infinity, with a sphere.
pub proof fn lemma_swept_sphere_e13p(a: R410<real>, b: R410<real>)
    requires
        zero_outside(a, |i: int| swept_blade(i)),
        zero_outside(b, |i: int| sphere_blade(i)),
    ensures
        real_sum(Product::Geometric, a, b, 19, 31) == b.e23pn * a.e12n - b.e12pn * a.e23n,
{
    lemma_step_first(Product::Geometric, a, b, 19);
    lemma_zero_times(b.e13p, a.s);
    lemma_step_zero(Product::Geometric, a, b, 19, 1, 13);
    lemma_step_zero(Product::Geometric, a, b, 19, 2, 26);
    lemma_step_zero(Product::Geometric, a, b, 19, 3, 8);
    lemma_step_zero(Product::Geometric, a, b, 19, 4, 7);
    lemma_step_zero(Product::Geometric, a, b, 19, 5, 29);
    lemma_step_zero(Product::Geometric, a, b, 19, 6, 22);
    lemma_step_zero(Product::Geometric, a, b, 19, 7, 4);
    lemma_step_zero(Product::Geometric, a, b, 19, 8, 3);
    lemma_step_zero(Product::Geometric, a, b, 19, 9, 25);
    lemma_step_zero(Product::Geometric, a, b, 19, 10, 17);
    lemma_step_zero(Product::Geometric, a, b, 19, 11, 16);
    lemma_step_zero(Product::Geometric, a, b, 19, 12, 31);
    lemma_step_zero(Product::Geometric, a, b, 19, 13, 1);
    lemma_step_zero(Product::Geometric, a, b, 19, 14, 21);
    lemma_step_zero(Product::Geometric, a, b, 19, 15, 20);
    lemma_step_zero(Product::Geometric, a, b, 19, 16, 11);
    lemma_step_zero(Product::Geometric, a, b, 19, 17, 10);
    lemma_step_add(Product::Geometric, a, b, 19, 18, 30);
    lemma_step_zero(Product::Geometric, a, b, 19, 19, 0);
    lemma_step_zero(Product::Geometric, a, b, 19, 20, 15);
    lemma_step_zero(Product::Geometric, a, b, 19, 21, 14);
    lemma_step_zero(Product::Geometric, a, b, 19, 22, 6);
    lemma_step_sub(Product::Geometric, a, b, 19, 23, 28);
    lemma_step_zero(Product::Geometric, a, b, 19, 24, 27);
    lemma_step_zero(Product::Geometric, a, b, 19, 25, 9);
    lemma_step_zero(Product::Geometric, a, b, 19, 26, 2);
    lemma_step_zero(Product::Geometric, a, b, 19, 27, 24);
    lemma_step_zero(Product::Geometric, a, b, 19, 28, 23);
    lemma_step_zero(Product::Geometric, a, b, 19, 29, 5);
    lemma_step_zero(Product::Geometric, a, b, 19, 30, 18);
    lemma_step_zero(Product::Geometric, a, b, 19, 31, 12);
}

/// The coefficient of `e13n` in the product of a sphere, swept to infinity, with a sphere.
pub proof fn lemma_swept_sphere_e13n(a: R410<real>, b: R410<real>)
    requires
        zero_outside(a, |i: int| swept_blade(i)),
        zero_outside(b, |i: int| sphere_blade(i)),
    ensures
        real_sum(Product::Geometric, a, b, 20, 31) == b.e23pn * a.e12p - b.e12pn * a.e23p,
{
    lemma_step_first(Product::Geometric, a, b, 20);
    lemma_zero_times(b.e13n, a.s);
    lemma_step_zero(Product::Geometric, a, b, 20, 1, 14);
    lemma_step_zero(Product::Geometric, a, b, 20, 2, 27);
    lemma_step_zero(Product::Geometric, a, b, 20, 3, 9);
    lemma_step_zero(Product::Geometric, a, b, 20, 4, 29);
    lemma_step_zero(Product::Geometric, a, b, 20, 5, 7);
    lemma_step_zero(Product::Geometric, a, b, 20, 6, 23);
    lemma_step_zero(Product::Geometric, a, b, 20, 7, 5);
    lemma_step_zero(Product::Geometric, a, b, 20, 8, 25);
    lemma_step_zero(Product::Geometric, a, b, 20, 9, 3);
    lemma_step_zero(Product::Geometric, a, b, 20, 10, 18);
    lemma_step_zero(Product::Geometric, a, b, 20, 11, 31);
    lemma_step_zero(Product::Geometric, a, b, 20, 12, 16);
    lemma_step_zero(Product::Geometric, a, b, 20, 13, 21);
    lemma_step_zero(Product::Geometric, a, b, 20, 14, 1);
    lemma_step_zero(Product::Geometric, a, b, 20, 15, 19);
    lemma_step_zero(Product::Geometric, a, b, 20, 16, 12);
    lemma_step_add(Product::Geometric, a, b, 20, 17, 30);
    lemma_step_zero(Product::Geometric, a, b, 20, 18, 10);
    lemma_step_zero(Product::Geometric, a, b, 20, 19, 15);
    lemma_step_zero(Product::Geometric, a, b, 20, 20, 0);
    lemma_step_zero(Product::Geometric, a, b, 20, 21, 13);
    lemma_step_sub(Product::Geometric, a, b, 20, 22, 28);
    lemma_step_zero(Product::Geometric, a, b, 20, 23, 6);
    lemma_step_zero(Product::Geometric, a, b, 20, 24, 26);
    lemma_step_zero(Product::Geometric, a, b, 20, 25, 8);
    lemma_step_zero(Product::Geometric, a, b, 20, 26, 24);
    lemma_step_zero(Product::Geometric, a, b, 20, 27, 2);
    lemma_step_zero(Product::Geometric, a, b, 20, 28, 22);
    lemma_step_zero(Product::Geometric, a, b, 20, 29, 4);
    lemma_step_zero(Product::Geometric, a, b, 20, 30, 17);
    lemma_step_zero(Product::Geometric, a, b, 20, 31, 11);
}

/// The coefficient of `e1pn` in the product of a sphere, swept to infinity, with a sphere.
pub proof fn lemma_swept_sphere_e1pn(a: R410<real>, b: R410<real>)
    requires
        zero_outside(a, |i: int| swept_blade(i)),
        zero_outside(b, |i: int| sphere_blade(i)),
    ensures
        real_sum(Product::Geometric, a, b, 21, 31) == -(b.e23pn * a.e123) + b.e123n * a.e23p - b.e123p * a.e23n,
{
    lemma_step_first(Product::Geometric, a, b, 21);
    lemma_zero_times(b.e1pn, a.s);
    lemma_step_zero(Product::Geometric, a, b, 21, 1, 15);
    lemma_step_zero(Product::Geometric, a, b, 21, 2, 28);
    lemma_step_zero(Product::Geometric, a, b, 21, 3, 29);
    lemma_step_zero(Product::Geometric, a, b, 21, 4, 9);
    lemma_step_zero(Product::Geometric, a, b, 21, 5, 8);
    lemma_step_zero(Product::Geometric, a, b, 21, 6, 24);
    lemma_step_zero(Product::Geometric, a, b, 21, 7, 25);
    lemma_step_zero(Product::Geometric, a, b, 21, 8, 5);
    lemma_step_zero(Product::Geometric, a, b, 21, 9, 4);
    lemma_step_zero(Product::Geometric, a, b, 21, 10, 31);
    lemma_step_zero(Product::Geometric, a, b, 21, 11, 18);
    lemma_step_zero(Product::Geometric, a, b, 21, 12, 17);
    lemma_step_zero(Product::Geometric, a, b, 21, 13, 20);
    lemma_step_zero(Product::Geometric, a, b, 21, 14, 19);
    lemma_step_zero(Product::Geometric, a, b, 21, 15, 1);
    lemma_step_sub(Product::Geometric, a, b, 21, 16, 30);
    lemma_step_zero(Product::Geometric, a, b, 21, 17, 12);
    lemma_step_zero(Product::Geometric, a, b, 21, 18, 11);
    lemma_step_zero(Product::Geometric, a, b, 21, 19, 14);
    lemma_step_zero(Product::Geometric, a, b, 21, 20, 13);
    lemma_step_zero(Product::Geometric, a, b, 21, 21, 0);
    lemma_step_add(Product::Geometric, a, b, 21, 22, 27);
    lemma_step_sub(Product::Geometric, a, b, 21, 23, 26);
    lemma_step_zero(Product::Geometric, a, b, 21, 24, 6);
    lemma_step_zero(Product::Geometric, a, b, 21, 25, 7);
    lemma_step_zero(Product::Geometric, a, b, 21, 26, 23);
    lemma_step_zero(Product::Geometric, a, b, 21, 27, 22);
    lemma_step_zero(Product::Geometric, a, b, 21, 28, 2);
    lemma_step_zero(Product::Geometric, a, b, 21, 29, 3);
    lemma_step_zero(Product::Geometric, a, b, 21, 30, 16);
    lemma_step_zero(Product::Geometric, a, b, 21, 31, 10);
}

/// The coefficient of `e23p` in the product of a sphere, swept to infinity, with a sphere.
pub proof fn lemma_swept_sphere_e23p(a: R410<real>, b: R410<real>)
    requires
        zero_outside(a, |i: int| swept_blade(i)),
        zero_outside(b, |i: int| sphere_blade(i)),
    ensures
        real_sum(Product::Geometric, a, b, 22, 31) == -(b.e13pn * a.e12n) + b.e12pn * a.e13n,
{
    lemma_step_first(Product::Geometric, a, b, 22);
    lemma_zero_times(b.e23p, a.s);
    lemma_step_zero(Product::Geometric, a, b, 22, 1, 26);
    lemma_step_zero(Product::Geometric, a, b, 22, 2, 13);
    lemma_step_zero(Product::Geometric, a, b, 22, 3, 11);
    lemma_step_zero(Product::Geometric, a, b, 22, 4, 10);
    lemma_step_zero(Product::Geometric, a, b, 22, 5, 30);
    lemma_step_zero(Product::Geometric, a, b, 22, 6, 19);
    lemma_step_zero(Product::Geometric, a, b, 22, 7, 17);
    lemma_step_zero(Product::Geometric, a, b, 22, 8, 16);
    lemma_step_zero(Product::Geometric, a, b, 22, 9, 31);
    lemma_step_zero(Product::Geometric, a, b, 22, 10, 4);
    lemma_step_zero(Product::Geometric, a, b, 22, 11, 3);
    lemma_step_zero(Product::Geometric, a, b, 22, 12, 25);
    lemma_step_zero(Product::Geometric, a, b, 22, 13, 2);
    lemma_step_zero(Product::Geometric, a, b, 22, 14, 24);
    lemma_step_zero(Product::Geometric, a, b, 22, 15, 23);
    lemma_step_zero(Product::Geometric, a, b, 22, 16, 8);
    lemma_step_zero(Product::Geometric, a, b, 22, 17, 7);
    lemma_step_sub(Product::Geometric, a, b, 22, 18, 29);
    lemma_step_zero(Product::Geometric, a, b, 22, 19, 6);
    lemma_step_add(Product::Geometric, a, b, 22, 20, 28);
    lemma_step_zero(Product::Geometric, a, b, 22, 21, 27);
    lemma_step_zero(Product::Geometric, a, b, 22, 22, 0);
    lemma_step_zero(Product::Geometric, a, b, 22, 23, 15);
    lemma_step_zero(Product::Geometric, a, b, 22, 24, 14);
    lemma_step_zero(Product::Geometric, a, b, 22, 25, 12);
    lemma_step_zero(Product::Geometric, a, b, 22, 26, 1);
    lemma_step_zero(Product::Geometric, a, b, 22, 27, 21);
    lemma_step_zero(Product::Geometric, a, b, 22, 28, 20);
    lemma_step_zero(Product::Geometric, a, b, 22, 29, 18);
    lemma_step_zero(Product::Geometric, a, b, 22, 30, 5);
    lemma_step_zero(Product::Geometric, a, b, 22, 31, 9);
}

/// The coefficient of `e23n` in the product of a sphere, swept to infinity, with a sphere.
pub proof fn lemma_swept_sphere_e23n(a: R410<real>, b: R410<real>)
    requires
        zero_outside(a, |i: int| swept_blade(i)),
        zero_outside(b, |i: int| sphere_blade(i)),
    ensures
        real_sum(Product::Geometric, a, b, 23, 31) == -(b.e13pn * a.e12p) + b.e12pn * a.e13p,
{
    lemma_step_first(Product::Geometric, a, b, 23);
    lemma_zero_times(b.e23n, a.s);
    lemma_step_zero(Product::Geometric, a, b, 23, 1, 27);
    lemma_step_zero(Product::Geometric, a, b, 23, 2, 14);
    lemma_step_zero(Product::Geometric, a, b, 23, 3, 12);
    lemma_step_zero(Product::Geometric, a, b, 23, 4, 30);
    lemma_step_zero(Product::Geometric, a, b, 23, 5, 10);
    lemma_step_zero(Product::Geometric, a, b, 23, 6, 20);
    lemma_step_zero(Product::Geometric, a, b, 23, 7, 18);
    lemma_step_zero(Product::Geometric, a, b, 23, 8, 31);
    lemma_step_zero(Product::Geometric, a, b, 23, 9, 16);
    lemma_step_zero(Product::Geometric, a, b, 23, 10, 5);
    lemma_step_zero(Product::Geometric, a, b, 23, 11, 25);
    lemma_step_zero(Product::Geometric, a, b, 23, 12, 3);
    lemma_step_zero(Product::Geometric, a, b, 23, 13, 24);
    lemma_step_zero(Product::Geometric, a, b, 23, 14, 2);
    lemma_step_zero(Product::Geometric, a, b, 23, 15, 22);
    lemma_step_zero(Product::Geometric, a, b, 23, 16, 9);
    lemma_step_sub(Product::Geometric, a, b, 23, 17, 29);
    lemma_step_zero(Product::Geometric, a, b, 23, 18, 7);
    lemma_step_add(Product::Geometric, a, b, 23, 19, 28);
    lemma_step_zero(Product::Geometric, a, b, 23, 20, 6);
    lemma_step_zero(Product::Geometric, a, b, 23, 21, 26);
    lemma_step_zero(Product::Geometric, a, b, 23, 22, 15);
    lemma_step_zero(Product::Geometric, a, b, 23, 23, 0);
    lemma_step_zero(Product::Geometric, a, b, 23, 24, 13);
    lemma_step_zero(Product::Geometric, a, b, 23, 25, 11);
    lemma_step_zero(Product::Geometric, a, b, 23, 26, 21);
    lemma_step_zero(Product::Geometric, a, b, 23, 27, 1);
    lemma_step_zero(Product::Geometric, a, b, 23, 28, 19);
    lemma_step_zero(Product::Geometric, a, b, 23, 29, 17);
    lemma_step_zero(Product::Geometric, a, b, 23, 30, 4);
    lemma_step_zero(Product::Geometric, a, b, 23, 31, 8);
}

/// The coefficient of `e2pn` in the product of a sphere, swept to infinity, with a sphere.
pub proof fn lemma_swept_sphere_e2pn(a: R410<real>, b: R410<real>)
    requires
        zero_outside(a, |i: int| swept_blade(i)),
        zero_outside(b, |i: int| sphere_blade(i)),
    ensures
        real_sum(Product::Geometric, a, b, 24, 31) == b.e13pn * a.e123 - b.e123n * a.e13p + b.e123p * a.e13n,
{
    lemma_step_first(Product::Geometric, a, b, 24);
    lemma_zero_times(b.e2pn, a.s);
    lemma_step_zero(Product::Geometric, a, b, 24, 1, 28);
    lemma_step_zero(Product::Geometric, a, b, 24, 2, 15);
    lemma_step_zero(Product::Geometric, a, b, 24, 3, 30);
    lemma_step_zero(Product::Geometric, a, b, 24, 4, 12);
    lemma_step_zero(Product::Geometric, a, b, 24, 5, 11);
    lemma_step_zero(Product::Geometric, a, b, 24, 6, 21);
    lemma_step_zero(Product::Geometric, a, b, 24, 7, 31);
    lemma_step_zero(Product::Geometric, a, b, 24, 8, 18);
    lemma_step_zero(Product::Geometric, a, b, 24, 9, 17);
    lemma_step_zero(Product::Geometric, a, b, 24, 10, 25);
    lemma_step_zero(Product::Geometric, a, b, 24, 11, 5);
    lemma_step_zero(Product::Geometric, a, b, 24, 12, 4);
    lemma_step_zero(Product::Geometric, a, b, 24, 13, 23);
    lemma_step_zero(Product::Geometric, a, b, 24, 14, 22);
    lemma_step_zero(Product::Geometric, a, b, 24, 15, 2);
    lemma_step_add(Product::Geometric, a, b, 24, 16, 29);
    lemma_step_zero(Product::Geometric, a, b, 24, 17, 9);
    lemma_step_zero(Product::Geometric, a, b, 24, 18, 8);
    lemma_step_sub(Product::Geometric, a, b, 24, 19, 27);
    lemma_step_add(Product::Geometric, a, b, 24, 20, 26);
    lemma_step_zero(Product::Geometric, a, b, 24, 21, 6);
    lemma_step_zero(Product::Geometric, a, b, 24, 22, 14);
    lemma_step_zero(Product::Geometric, a, b, 24, 23, 13);
    lemma_step_zero(Product::Geometric, a, b, 24, 24, 0);
    lemma_step_zero(Product::Geometric, a, b, 24, 25, 10);
    lemma_step_zero(Product::Geometric, a, b, 24, 26, 20);
    lemma_step_zero(Product::Geometric, a, b, 24, 27, 19);
    lemma_step_zero(Product::Geometric, a, b, 24, 28, 1);
    lemma_step_zero(Product::Geometric, a, b, 24, 29, 16);
    lemma_step_zero(Product::Geometric, a, b, 24, 30, 3);
    lemma_step_zero(Product::Geometric, a, b, 24, 31, 7);
}

/// The coefficient of `e3pn` in the product of a sphere, swept to infinity, with a sphere.
pub proof fn lemma_swept_sphere_e3pn(a: R410<real>, b: R410<real>)
    requires
        zero_outside(a, |i: int| swept_blade(i)),
        zero_outside(b, |i: int| sphere_blade(i)),
    ensures
        real_sum(Product::Geometric, a, b, 25, 31) == -(b.e12pn * a.e123) + b.e123n * a.e12p - b.e123p * a.e12n,
{
    lemma_step_first(Product::Geometric, a, b, 25);
    lemma_zero_times(b.e3pn, a.s);
    lemma_step_zero(Product::Geometric, a, b, 25, 1, 29);
    lemma_step_zero(Product::Geometric, a, b, 25, 2, 30);
    lemma_step_zero(Product::Geometric, a, b, 25, 3, 15);
    lemma_step_zero(Product::Geometric, a, b, 25, 4, 14);
    lemma_step_zero(Product::Geometric, a, b, 25, 5, 13);
    lemma_step_zero(Product::Geometric, a, b, 25, 6, 31);
    lemma_step_zero(Product::Geometric, a, b, 25, 7, 21);
    lemma_step_zero(Product::Geometric, a, b, 25, 8, 20);
    lemma_step_zero(Product::Geometric, a, b, 25, 9, 19);
    lemma_step_zero(Product::Geometric, a, b, 25, 10, 24);
    lemma_step_zero(Product::Geometric, a, b, 25, 11, 23);
    lemma_step_zero(Product::Geometric, a, b, 25, 12, 22);
    lemma_step_zero(Product::Geometric, a, b, 25, 13, 5);
    lemma_step_zero(Product::Geometric, a, b, 25, 14, 4);
    lemma_step_zero(Product::Geometric, a, b, 25, 15, 3);
    lemma_step_sub(Product::Geometric, a, b, 25, 16, 28);
    lemma_step_add(Product::Geometric, a, b, 25, 17, 27);
    lemma_step_sub(Product::Geometric, a, b, 25, 18, 26);
    lemma_step_zero(Product::Geometric, a, b, 25, 19, 9);
    lemma_step_zero(Product::Geometric, a, b, 25, 20, 8);
    lemma_step_zero(Product::Geometric, a, b, 25, 21, 7);
    lemma_step_zero(Product::Geometric, a, b, 25, 22, 12);
    lemma_step_zero(Product::Geometric, a, b, 25, 23, 11);
    lemma_step_zero(Product::Geometric, a, b, 25, 24, 10);
    lemma_step_zero(Product::Geometric, a, b, 25, 25, 0);
    lemma_step_zero(Product::Geometric, a, b, 25, 26, 18);
    lemma_step_zero(Product::Geometric, a, b, 25, 27, 17);
    lemma_step_zero(Product::Geometric, a, b, 25, 28, 16);
    lemma_step_zero(Product::Geometric, a, b, 25, 29, 1);
    lemma_step_zero(Product::Geometric, a, b, 25, 30, 2);
    lemma_step_zero(Product::Geometric, a, b, 25, 31, 6);
}

/// Where the blades of the two factors can meet.
proof fn lemma_swept_sphere_support(x: int, y: int)
    requires
        swept_blade(x),
        sphere_blade(y),
        keeps(Product::Geometric, x, y),
    ensures
        odd_blade(blade_times(x, y)),
{
    if x == 16 && y == 26 {
        assert(blade_times(16, 26) == 4);
    }
    if x == 16 && y == 27 {
        assert(blade_times(16, 27) == 5);
    }
    if x == 16 && y == 28 {
        assert(blade_times(16, 28) == 25);
    }
    if x == 16 && y == 29 {
        assert(blade_times(16, 29) == 24);
    }
    if x == 16 && y == 30 {
        assert(blade_times(16, 30) == 21);
    }
    if x == 17 && y == 26 {
        assert(blade_times(17, 26) == 3);
    }
    if x == 17 && y == 27 {
        assert(blade_times(17, 27) == 25);
    }
    if x == 17 && y == 28 {
        assert(blade_times(17, 28) == 5);
    }
    if x == 17 && y == 29 {
        assert(blade_times(17, 29) == 23);
    }
    if x == 17 && y == 30 {
        assert(blade_times(17, 30) == 20);
    }
    if x == 18 && y == 26 {
        assert(blade_times(18, 26) == 25);
    }
    if x == 18 && y == 27 {
        assert(blade_times(18, 27) == 3);
    }
    if x == 18 && y == 28 {
        assert(blade_times(18, 28) == 4);
    }
    if x == 18 && y == 29 {
        assert(blade_times(18, 29) == 22);
    }
    if x == 18 && y == 30 {
        assert(blade_times(18, 30) == 19);
    }
    if x == 19 && y == 26 {
        assert(blade_times(19, 26) == 2);
    }
    if x == 19 && y == 27 {
        assert(blade_times(19, 27) == 24);
    }
    if x == 19 && y == 28 {
        assert(blade_times(19, 28) == 23);
    }
    if x == 19 && y == 29 {
        assert(blade_times(19, 29) == 5);
    }
    if x == 19 && y == 30 {
        assert(blade_times(19, 30) == 18);
    }
    if x == 20 && y == 26 {
        assert(blade_times(20, 26) == 24);
    }
    if x == 20 && y == 27 {
        assert(blade_times(20, 27) == 2);
    }
    if x == 20 && y == 28 {
        assert(blade_times(20, 28) == 22);
    }
    if x == 20 && y == 29 {
        assert(blade_times(20, 29) == 4);
    }
    if x == 20 && y == 30 {
        assert(blade_times(20, 30) == 17);
    }
    if x == 22 && y == 26 {
        assert(blade_times(22, 26) == 1);
    }
    if x == 22 && y == 27 {
        assert(blade_times(22, 27) == 21);
    }
    if x == 22 && y == 28 {
        assert(blade_times(22, 28) == 20);
    }
    if x == 22 && y == 29 {
        assert(blade_times(22, 29) == 18);
    }
    if x == 22 && y == 30 {
        assert(blade_times(22, 30) == 5);
    }
    if x == 23 && y == 26 {
        assert(blade_times(23, 26) == 21);
    }
    if x == 23 && y == 27 {
        assert(blade_times(23, 27) == 1);
    }
    if x == 23 && y == 28 {
        assert(blade_times(23, 28) == 19);
    }
    if x == 23 && y == 29 {
        assert(blade_times(23, 29) == 17);
    }
    if x == 23 && y == 30 {
        assert(blade_times(23, 30) == 4);
    }
    if x == 31 && y == 26 {
        assert(blade_times(31, 26) == 5);
    }
    if x == 31 && y == 27 {
        assert(blade_times(31, 27) == 4);
    }
    if x == 31 && y == 28 {
        assert(blade_times(31, 28) == 3);
    }
    if x == 31 && y == 29 {
        assert(blade_times(31, 29) == 2);
    }
    if x == 31 && y == 30 {
        assert(blade_times(31, 30) == 1);
    }
}

/// The product of a sphere, swept to infinity, with a sphere has no other coefficients.
pub proof fn lemma_swept_sphere_elsewhere(a: R410<real>, b: R410<real>, c: int)
    requires
        zero_outside(a, |i: int| swept_blade(i)),
        zero_outside(b, |i: int| sphere_blade(i)),
        0 <= c < 32,
        !odd_blade(c),
    ensures
        real_sum(Product::Geometric, a, b, c, 31) == 0real,
{
    assert forall|x: int| 1 <= x <= 31 implies !keeps(
        Product::Geometric,
        x,
        #[trigger] blade_times(x, c),
    ) || a.coeff(x) == 0real || b.coeff(blade_times(x, c)) == 0real by {
        let y = blade_times(x, c);
        lemma_blade_times_in_range(x, c);
        if swept_blade(x) && sphere_blade(y) && keeps(Product::Geometric, x, y) {
            lemma_swept_sphere_support(x, y);
            lemma_blade_times_solves(x, y, c);
        }
    }
    assert(a.coeff(0) == 0real);
    lemma_real_sum_vanishes(Product::Geometric, a, b, c, 31);
}

/// The scalar part of the inner product of a point with an infinity.
pub proof fn lemma_point_inner_infinity_s(a: R410<real>, b: R410<real>)
    requires
        zero_outside(a, |i: int| point_blade(i)),
        zero_outside(b, |i: int| infinity_blade(i)),
    ensures
        real_sum(Product::Inner, a, b, 0, 31) == b.ep * a.ep - b.en * a.en,
{
    lemma_step_first(Product::Inner, a, b, 0);
    lemma_zero_times(b.s, a.s);
    lemma_step_zero(Product::Inner, a, b, 0, 1, 1);
    lemma_step_zero(Product::Inner, a, b, 0, 2, 2);
    lemma_step_zero(Product::Inner, a, b, 0, 3, 3);
    lemma_step_add(Product::Inner, a, b, 0, 4, 4);
    lemma_step_sub(Product::Inner, a, b, 0, 5, 5);
    lemma_step_zero(Product::Inner, a, b, 0, 6, 6);
    lemma_step_zero(Product::Inner, a, b, 0, 7, 7);
    lemma_step_zero(Product::Inner, a, b, 0, 8, 8);
    lemma_step_zero(Product::Inner, a, b, 0, 9, 9);
    lemma_step_zero(Product::Inner, a, b, 0, 10, 10);
    lemma_step_zero(Product::Inner, a, b, 0, 11, 11);
    lemma_step_zero(Product::Inner, a, b, 0, 12, 12);
    lemma_step_zero(Product::Inner, a, b, 0, 13, 13);
    lemma_step_zero(Product::Inner, a, b, 0, 14, 14);
    lemma_step_zero(Product::Inner, a, b, 0, 15, 15);
    lemma_step_zero(Product::Inner, a, b, 0, 16, 16);
    lemma_step_zero(Product::Inner, a, b, 0, 17, 17);
    lemma_step_zero(Product::Inner, a, b, 0, 18, 18);
    lemma_step_zero(Product::Inner, a, b, 0, 19, 19);
    lemma_step_zero(Product::Inner, a, b, 0, 20, 20);
    lemma_step_zero(Product::Inner, a, b, 0, 21, 21);
    lemma_step_zero(Product::Inner, a, b, 0, 22, 22);
    lemma_step_zero(Product::Inner, a, b, 0, 23, 23);
    lemma_step_zero(Product::Inner, a, b, 0, 24, 24);
    lemma_step_zero(Product::Inner, a, b, 0, 25, 25);
    lemma_step_zero(Product::Inner, a, b, 0, 26, 26);
    lemma_step_zero(Product::Inner, a, b, 0, 27, 27);
    lemma_step_zero(Product::Inner, a, b, 0, 28, 28);
    lemma_step_zero(Product::Inner, a, b, 0, 29, 29);
    lemma_step_zero(Product::Inner, a, b, 0, 30, 30);
    lemma_step_zero(Product::Inner, a, b, 0, 31, 31);
}

/// Where the blades of the two factors can meet.
proof fn lemma_point_inner_infinity_support(x: int, y: int)
    requires
        point_blade(x),
        infinity_blade(y),
        keeps(Product::Inner, x, y),
    ensures
        scalar_blade(blade_times(x, y)),
{
    if x == 4 && y == 4 {
        assert(blade_times(4, 4) == 0);
    }
    if x == 5 && y == 5 {
        assert(blade_times(5, 5) == 0);
    }
}

/// The inner product of a point with an infinity has no other coefficients.
pub proof fn lemma_point_inner_infinity_elsewhere(a: R410<real>, b: R410<real>, c: int)
    requires
        zero_outside(a, |i: int| point_blade(i)),
        zero_outside(b, |i: int| infinity_blade(i)),
        0 <= c < 32,
        !scalar_blade(c),
    ensures
        real_sum(Product::Inner, a, b, c, 31) == 0real,
{
    assert forall|x: int| 1 <= x <= 31 implies !keeps(
        Product::Inner,
        x,
        #[trigger] blade_times(x, c),
    ) || a.coeff(x) == 0real || b.coeff(blade_times(x, c)) == 0real by {
        let y = blade_times(x, c);
        lemma_blade_times_in_range(x, c);
        if point_blade(x) && infinity_blade(y) && keeps(Product::Inner, x, y) {
            lemma_point_inner_infinity_support(x, y);
            lemma_blade_times_solves(x, y, c);
        }
    }
    assert(a.coeff(0) == 0real);
    lemma_real_sum_vanishes(Product::Inner, a, b, c, 31);
}

/// The coefficient of `e12` in the outer product of two points.
pub proof fn lemma_point_outer_point_e12(a: R410<real>, b: R410<real>)
    requires
        zero_outside(a, |i: int| point_blade(i)),
        zero_outside(b, |i: int| point_blade(i)),
    ensures
        real_sum(Product::Outer, a, b, 6, 31) == b.e2 * a.e1 - b.e1 * a.e2,
{
    lemma_step_first(Product::Outer, a, b, 6);
    lemma_zero_times(b.e12, a.s);
    lemma_step_add(Product::Outer, a, b, 6, 1, 2);
    lemma_step_sub(Product::Outer, a, b, 6, 2, 1);
    lemma_step_skip(Product::Outer, a, b, 6, 3, 16);
    lemma_step_skip(Product::Outer, a, b, 6, 4, 17);
    lemma_step_skip(Product::Outer, a, b, 6, 5, 18);
    lemma_step_zero(Product::Outer, a, b, 6, 6, 0);
    lemma_step_skip(Product::Outer, a, b, 6, 7, 10);
    lemma_step_skip(Product::Outer, a, b, 6, 8, 11);
    lemma_step_skip(Product::Outer, a, b, 6, 9, 12);
    lemma_step_skip(Product::Outer, a, b, 6, 10, 7);
    lemma_step_skip(Product::Outer, a, b, 6, 11, 8);
    lemma_step_skip(Product::Outer, a, b, 6, 12, 9);
    lemma_step_skip(Product::Outer, a, b, 6, 13, 26);
    lemma_step_skip(Product::Outer, a, b, 6, 14, 27);
    lemma_step_skip(Product::Outer, a, b, 6, 15, 28);
    lemma_step_skip(Product::Outer, a, b, 6, 16, 3);
    lemma_step_skip(Product::Outer, a, b, 6, 17, 4);
    lemma_step_skip(Product::Outer, a, b, 6, 18, 5);
    lemma_step_skip(Product::Outer, a, b, 6, 19, 22);
    lemma_step_skip(Product::Outer, a, b, 6, 20, 23);
    lemma_step_skip(Product::Outer, a, b, 6, 21, 24);
    lemma_step_skip(Product::Outer, a, b, 6, 22, 19);
    lemma_step_skip(Product::Outer, a, b, 6, 23, 20);
    lemma_step_skip(Product::Outer, a, b, 6, 24, 21);
    lemma_step_skip(Product::Outer, a, b, 6, 25, 31);
    lemma_step_skip(Product::Outer, a, b, 6, 26, 13);
    lemma_step_skip(Product::Outer, a, b, 6, 27, 14);
    lemma_step_skip(Product::Outer, a, b, 6, 28, 15);
    lemma_step_skip(Product::Outer, a, b, 6, 29, 30);
    lemma_step_skip(Product::Outer, a, b, 6, 30, 29);
    lemma_step_skip(Product::Outer, a, b, 6, 31, 25);
}

/// The coefficient of `e13` in the outer product of two points.
pub proof fn lemma_point_outer_point_e13(a: R410<real>, b: R410<real>)
    requires
        zero_outside(a, |i: int| point_blade(i)),
        zero_outside(b, |i: int| point_blade(i)),
    ensures
        real_sum(Product::Outer, a, b, 7, 31) == b.e3 * a.e1 - b.e1 * a.e3,
{
    lemma_step_first(Product::Outer, a, b, 7);
    lemma_zero_times(b.e13, a.s);
    lemma_step_add(Product::Outer, a, b, 7, 1, 3);
    lemma_step_skip(Product::Outer, a, b, 7, 2, 16);
    lemma_step_sub(Product::Outer, a, b, 7, 3, 1);
    lemma_step_skip(Product::Outer, a, b, 7, 4, 19);
    lemma_step_skip(Product::Outer, a, b, 7, 5, 20);
    lemma_step_skip(Product::Outer, a, b, 7, 6, 10);
    lemma_step_zero(Product::Outer, a, b, 7, 7, 0);
    lemma_step_skip(Product::Outer, a, b, 7, 8, 13);
    lemma_step_skip(Product::Outer, a, b, 7, 9, 14);
    lemma_step_skip(Product::Outer, a, b, 7, 10, 6);
    lemma_step_skip(Product::Outer, a, b, 7, 11, 26);
    lemma_step_skip(Product::Outer, a, b, 7, 12, 27);
    lemma_step_skip(Product::Outer, a, b, 7, 13, 8);
    lemma_step_skip(Product::Outer, a, b, 7, 14, 9);
    lemma_step_skip(Product::Outer, a, b, 7, 15, 29);
    lemma_step_skip(Product::Outer, a, b, 7, 16, 2);
    lemma_step_skip(Product::Outer, a, b, 7, 17, 22);
    lemma_step_skip(Product::Outer, a, b, 7, 18, 23);
    lemma_step_skip(Product::Outer, a, b, 7, 19, 4);
    lemma_step_skip(Product::Outer, a, b, 7, 20, 5);
    lemma_step_skip(Product::Outer, a, b, 7, 21, 25);
    lemma_step_skip(Product::Outer, a, b, 7, 22, 17);
    lemma_step_skip(Product::Outer, a, b, 7, 23, 18);
    lemma_step_skip(Product::Outer, a, b, 7, 24, 31);
    lemma_step_skip(Product::Outer, a, b, 7, 25, 21);
    lemma_step_skip(Product::Outer, a, b, 7, 26, 11);
    lemma_step_skip(Product::Outer, a, b, 7, 27, 12);
    lemma_step_skip(Product::Outer, a, b, 7, 28, 30);
    lemma_step_skip(Product::Outer, a, b, 7, 29, 15);
    lemma_step_skip(Product::Outer, a, b, 7, 30, 28);
    lemma_step_skip(Product::Outer, a, b, 7, 31, 24);
}

/// The coefficient of `e1p` in the outer product of two points.
pub proof fn lemma_point_outer_point_e1p(a: R410<real>, b: R410<real>)
    requires
        zero_outside(a, |i: int| point_blade(i)),
        zero_outside(b, |i: int| point_blade(i)),
    ensures
        real_sum(Product::Outer, a, b, 8, 31) == b.ep * a.e1 - b.e1 * a.ep,
{
    lemma_step_first(Product::Outer, a, b, 8);
    lemma_zero_times(b.e1p, a.s);
    lemma_step_add(Product::Outer, a, b, 8, 1, 4);
    lemma_step_skip(Product::Outer, a, b, 8, 2, 17);
    lemma_step_skip(Product::Outer, a, b, 8, 3, 19);
    lemma_step_sub(Product::Outer, a, b, 8, 4, 1);
    lemma_step_skip(Product::Outer, a, b, 8, 5, 21);
    lemma_step_skip(Product::Outer, a, b, 8, 6, 11);
    lemma_step_skip(Product::Outer, a, b, 8, 7, 13);
    lemma_step_zero(Product::Outer, a, b, 8, 8, 0);
    lemma_step_skip(Product::Outer, a, b, 8, 9, 15);
    lemma_step_skip(Product::Outer, a, b, 8, 10, 26);
    lemma_step_skip(Product::Outer, a, b, 8, 11, 6);
    lemma_step_skip(Product::Outer, a, b, 8, 12, 28);
    lemma_step_skip(Product::Outer, a, b, 8, 13, 7);
    lemma_step_skip(Product::Outer, a, b, 8, 14, 29);
    lemma_step_skip(Product::Outer, a, b, 8, 15, 9);
    lemma_step_skip(Product::Outer, a, b, 8, 16, 22);
    lemma_step_skip(Product::Outer, a, b, 8, 17, 2);
    lemma_step_skip(Product::Outer, a, b, 8, 18, 24);
    lemma_step_skip(Product::Outer, a, b, 8, 19, 3);
    lemma_step_skip(Product::Outer, a, b, 8, 20, 25);
    lemma_step_skip(Product::Outer, a, b, 8, 21, 5);
    lemma_step_skip(Product::Outer, a, b, 8, 22, 16);
    lemma_step_skip(Product::Outer, a, b, 8, 23, 31);
    lemma_step_skip(Product::Outer, a, b, 8, 24, 18);
    lemma_step_skip(Product::Outer, a, b, 8, 25, 20);
    lemma_step_skip(Product::Outer, a, b, 8, 26, 10);
    lemma_step_skip(Product::Outer, a, b, 8, 27, 30);
    lemma_step_skip(Product::Outer, a, b, 8, 28, 12);
    lemma_step_skip(Product::Outer, a, b, 8, 29, 14);
    lemma_step_skip(Product::Outer, a, b, 8, 30, 27);
    lemma_step_skip(Product::Outer, a, b, 8, 31, 23);
}

/// The coefficient of `e1n` in the outer product of two points.
pub proof fn lemma_point_outer_point_e1n(a: R410<real>, b: R410<real>)
    requires
        zero_outside(a, |i: int| point_blade(i)),
        zero_outside(b, |i: int| point_blade(i)),
    ensures
        real_sum(Product::Outer, a, b, 9, 31) == b.en * a.e1 - b.e1 * a.en,
{
    lemma_step_first(Product::Outer, a, b, 9);
    lemma_zero_times(b.e1n, a.s);
    lemma_step_add(Product::Outer, a, b, 9, 1, 5);
    lemma_step_skip(Product::Outer, a, b, 9, 2, 18);
    lemma_step_skip(Product::Outer, a, b, 9, 3, 20);
    lemma_step_skip(Product::Outer, a, b, 9, 4, 21);
    lemma_step_sub(Product::Outer, a, b, 9, 5, 1);
    lemma_step_skip(Product::Outer, a, b, 9, 6, 12);
    lemma_step_skip(Product::Outer, a, b, 9, 7, 14);
    lemma_step_skip(Product::Outer, a, b, 9, 8, 15);
    lemma_step_zero(Product::Outer, a, b, 9, 9, 0);
    lemma_step_skip(Product::Outer, a, b, 9, 10, 27);
    lemma_step_skip(Product::Outer, a, b, 9, 11, 28);
    lemma_step_skip(Product::Outer, a, b, 9, 12, 6);
    lemma_step_skip(Product::Outer, a, b, 9, 13, 29);
    lemma_step_skip(Product::Outer, a, b, 9, 14, 7);
    lemma_step_skip(Product::Outer, a, b, 9, 15, 8);
    lemma_step_skip(Product::Outer, a, b, 9, 16, 23);
    lemma_step_skip(Product::Outer, a, b, 9, 17, 24);
    lemma_step_skip(Product::Outer, a, b, 9, 18, 2);
    lemma_step_skip(Product::Outer, a, b, 9, 19, 25);
    lemma_step_skip(Product::Outer, a, b, 9, 20, 3);
    lemma_step_skip(Product::Outer, a, b, 9, 21, 4);
    lemma_step_skip(Product::Outer, a, b, 9, 22, 31);
    lemma_step_skip(Product::Outer, a, b, 9, 23, 16);
    lemma_step_skip(Product::Outer, a, b, 9, 24, 17);
    lemma_step_skip(Product::Outer, a, b, 9, 25, 19);
    lemma_step_skip(Product::Outer, a, b, 9, 26, 30);
    lemma_step_skip(Product::Outer, a, b, 9, 27, 10);
    lemma_step_skip(Product::Outer, a, b, 9, 28, 11);
    lemma_step_skip(Product::Outer, a, b, 9, 29, 13);
    lemma_step_skip(Product::Outer, a, b, 9, 30, 26);
    lemma_step_skip(Product::Outer, a, b, 9, 31, 22);
}

/// The coefficient of `e23` in the outer product of two points.
pub proof fn lemma_point_outer_point_e23(a: R410<real>, b: R410<real>)
    requires
        zero_outside(a, |i: int| point_blade(i)),
        zero_outside(b, |i: int| point_blade(i)),
    ensures
        real_sum(Product::Outer, a, b, 10, 31) == b.e3 * a.e2 - b.e2 * a.e3,
{
    lemma_step_first(Product::Outer, a, b, 10);
    lemma_zero_times(b.e23, a.s);
    lemma_step_skip(Product::Outer, a, b, 10, 1, 16);
    lemma_step_add(Product::Outer, a, b, 10, 2, 3);
    lemma_step_sub(Product::Outer, a, b, 10, 3, 2);
    lemma_step_skip(Product::Outer, a, b, 10, 4, 22);
    lemma_step_skip(Product::Outer, a, b, 10, 5, 23);
    lemma_step_skip(Product::Outer, a, b, 10, 6, 7);
    lemma_step_skip(Product::Outer, a, b, 10, 7, 6);
    lemma_step_skip(Product::Outer, a, b, 10, 8, 26);
    lemma_step_skip(Product::Outer, a, b, 10, 9, 27);
    lemma_step_zero(Product::Outer, a, b, 10, 10, 0);
    lemma_step_skip(Product::Outer, a, b, 10, 11, 13);
    lemma_step_skip(Product::Outer, a, b, 10, 12, 14);
    lemma_step_skip(Product::Outer, a, b, 10, 13, 11);
    lemma_step_skip(Product::Outer, a, b, 10, 14, 12);
    lemma_step_skip(Product::Outer, a, b, 10, 15, 30);
    lemma_step_skip(Product::Outer, a, b, 10, 16, 1);
    lemma_step_skip(Product::Outer, a, b, 10, 17, 19);
    lemma_step_skip(Product::Outer, a, b, 10, 18, 20);
    lemma_step_skip(Product::Outer, a, b, 10, 19, 17);
    lemma_step_skip(Product::Outer, a, b, 10, 20, 18);
    lemma_step_skip(Product::Outer, a, b, 10, 21, 31);
    lemma_step_skip(Product::Outer, a, b, 10, 22, 4);
    lemma_step_skip(Product::Outer, a, b, 10, 23, 5);
    lemma_step_skip(Product::Outer, a, b, 10, 24, 25);
    lemma_step_skip(Product::Outer, a, b, 10, 25, 24);
    lemma_step_skip(Product::Outer, a, b, 10, 26, 8);
    lemma_step_skip(Product::Outer, a, b, 10, 27, 9);
    lemma_step_skip(Product::Outer, a, b, 10, 28, 29);
    lemma_step_skip(Product::Outer, a, b, 10, 29, 28);
    lemma_step_skip(Product::Outer, a, b, 10, 30, 15);
    lemma_step_skip(Product::Outer, a, b, 10, 31, 21);
}

/// The coefficient of `e2p` in the outer product of two points.
pub proof fn lemma_point_outer_point_e2p(a: R410<real>, b: R410<real>)
    requires
        zero_outside(a, |i: int| point_blade(i)),
        zero_outside(b, |i: int| point_blade(i)),
    ensures
        real_sum(Product::Outer, a, b, 11, 31) == b.ep * a.e2 - b.e2 * a.ep,
{
    lemma_step_first(Product::Outer, a, b, 11);
    lemma_zero_times(b.e2p, a.s);
    lemma_step_skip(Product::Outer, a, b, 11, 1, 17);
    lemma_step_add(Product::Outer, a, b, 11, 2, 4);
    lemma_step_skip(Product::Outer, a, b, 11, 3, 22);
    lemma_step_sub(Product::Outer, a, b, 11, 4, 2);
    lemma_step_skip(Product::Outer, a, b, 11, 5, 24);
    lemma_step_skip(Product::Outer, a, b, 11, 6, 8);
    lemma_step_skip(Product::Outer, a, b, 11, 7, 26);
    lemma_step_skip(Product::Outer, a, b, 11, 8, 6);
    lemma_step_skip(Product::Outer, a, b, 11, 9, 28);
    lemma_step_skip(Product::Outer, a, b, 11, 10, 13);
    lemma_step_zero(Product::Outer, a, b, 11, 11, 0);
    lemma_step_skip(Product::Outer, a, b, 11, 12, 15);
    lemma_step_skip(Product::Outer, a, b, 11, 13, 10);
    lemma_step_skip(Product::Outer, a, b, 11, 14, 30);
    lemma_step_skip(Product::Outer, a, b, 11, 15, 12);
    lemma_step_skip(Product::Outer, a, b, 11, 16, 19);
    lemma_step_skip(Product::Outer, a, b, 11, 17, 1);
    lemma_step_skip(Product::Outer, a, b, 11, 18, 21);
    lemma_step_skip(Product::Outer, a, b, 11, 19, 16);
    lemma_step_skip(Product::Outer, a, b, 11, 20, 31);
    lemma_step_skip(Product::Outer, a, b, 11, 21, 18);
    lemma_step_skip(Product::Outer, a, b, 11, 22, 3);
    lemma_step_skip(Product::Outer, a, b, 11, 23, 25);
    lemma_step_skip(Product::Outer, a, b, 11, 24, 5);
    lemma_step_skip(Product::Outer, a, b, 11, 25, 23);
    lemma_step_skip(Product::Outer, a, b, 11, 26, 7);
    lemma_step_skip(Product::Outer, a, b, 11, 27, 29);
    lemma_step_skip(Product::Outer, a, b, 11, 28, 9);
    lemma_step_skip(Product::Outer, a, b, 11, 29, 27);
    lemma_step_skip(Product::Outer, a, b, 11, 30, 14);
    lemma_step_skip(Product::Outer, a, b, 11, 31, 20);
}

/// The coefficient of `e2n` in the outer product of two points.
pub proof fn lemma_point_outer_point_e2n(a: R410<real>, b: R410<real>)
    requires
        zero_outside(a, |i: int| point_blade(i)),
        zero_outside(b, |i: int| point_blade(i)),
    ensures
        real_sum(Product::Outer, a, b, 12, 31) == b.en * a.e2 - b.e2 * a.en,
{
    lemma_step_first(Product::Outer, a, b, 12);
    lemma_zero_times(b.e2n, a.s);
    lemma_step_skip(Product::Outer, a, b, 12, 1, 18);
    lemma_step_add(Product::Outer, a, b, 12, 2, 5);
    lemma_step_skip(Product::Outer, a, b, 12, 3, 23);
    lemma_step_skip(Product::Outer, a, b, 12, 4, 24);
    lemma_step_sub(Product::Outer, a, b, 12, 5, 2);
    lemma_step_skip(Product::Outer, a, b, 12, 6, 9);
    lemma_step_skip(Product::Outer, a, b, 12, 7, 27);
    lemma_step_skip(Product::Outer, a, b, 12, 8, 28);
    lemma_step_skip(Product::Outer, a, b, 12, 9, 6);
    lemma_step_skip(Product::Outer, a, b, 12, 10, 14);
    lemma_step_skip(Product::Outer, a, b, 12, 11, 15);
    lemma_step_zero(Product::Outer, a, b, 12, 12, 0);
    lemma_step_skip(Product::Outer, a, b, 12, 13, 30);
    lemma_step_skip(Product::Outer, a, b, 12, 14, 10);
    lemma_step_skip(Product::Outer, a, b, 12, 15, 11);
    lemma_step_skip(Product::Outer, a, b, 12, 16, 20);
    lemma_step_skip(Product::Outer, a, b, 12, 17, 21);
    lemma_step_skip(Product::Outer, a, b, 12, 18, 1);
    lemma_step_skip(Product::Outer, a, b, 12, 19, 31);
    lemma_step_skip(Product::Outer, a, b, 12, 20, 16);
    lemma_step_skip(Product::Outer, a, b, 12, 21, 17);
    lemma_step_skip(Product::Outer, a, b, 12, 22, 25);
    lemma_step_skip(Product::Outer, a, b, 12, 23, 3);
    lemma_step_skip(Product::Outer, a, b, 12, 24, 4);
    lemma_step_skip(Product::Outer, a, b, 12, 25, 22);
    lemma_step_skip(Product::Outer, a, b, 12, 26, 29);
    lemma_step_skip(Product::Outer, a, b, 12, 27, 7);
    lemma_step_skip(Product::Outer, a, b, 12, 28, 8);
    lemma_step_skip(Product::Outer, a, b, 12, 29, 26);
    lemma_step_skip(Product::Outer, a, b, 12, 30, 13);
    lemma_step_skip(Product::Outer, a, b, 12, 31, 19);
}

/// The coefficient of `e3p` in the outer product of two points.
pub proof fn lemma_point_outer_point_e3p(a: R410<real>, b: R410<real>)
    requires
        zero_outside(a, |i: int| point_blade(i)),
        zero_outside(b, |i: int| point_blade(i)),
    ensures
        real_sum(Product::Outer, a, b, 13, 31) == b.ep * a.e3 - b.e3 * a.ep,
{
    lemma_step_first(Product::Outer, a, b, 13);
    lemma_zero_times(b.e3p, a.s);
    lemma_step_skip(Product::Outer, a, b, 13, 1, 19);
    lemma_step_skip(Product::Outer, a, b, 13, 2, 22);
    lemma_step_add(Product::Outer, a, b, 13, 3, 4);
    lemma_step_sub(Product::Outer, a, b, 13, 4, 3);
    lemma_step_skip(Product::Outer, a, b, 13, 5, 25);
    lemma_step_skip(Product::Outer, a, b, 13, 6, 26);
    lemma_step_skip(Product::Outer, a, b, 13, 7, 8);
    lemma_step_skip(Product::Outer, a, b, 13, 8, 7);
    lemma_step_skip(Product::Outer, a, b, 13, 9, 29);
    lemma_step_skip(Product::Outer, a, b, 13, 10, 11);
    lemma_step_skip(Product::Outer, a, b, 13, 11, 10);
    lemma_step_skip(Product::Outer, a, b, 13, 12, 30);
    lemma_step_zero(Product::Outer, a, b, 13, 13, 0);
    lemma_step_skip(Product::Outer, a, b, 13, 14, 15);
    lemma_step_skip(Product::Outer, a, b, 13, 15, 14);
    lemma_step_skip(Product::Outer, a, b, 13, 16, 17);
    lemma_step_skip(Product::Outer, a, b, 13, 17, 16);
    lemma_step_skip(Product::Outer, a, b, 13, 18, 31);
    lemma_step_skip(Product::Outer, a, b, 13, 19, 1);
    lemma_step_skip(Product::Outer, a, b, 13, 20, 21);
    lemma_step_skip(Product::Outer, a, b, 13, 21, 20);
    lemma_step_skip(Product::Outer, a, b, 13, 22, 2);
    lemma_step_skip(Product::Outer, a, b, 13, 23, 24);
    lemma_step_skip(Product::Outer, a, b, 13, 24, 23);
    lemma_step_skip(Product::Outer, a, b, 13, 25, 5);
    lemma_step_skip(Product::Outer, a, b, 13, 26, 6);
    lemma_step_skip(Product::Outer, a, b, 13, 27, 28);
    lemma_step_skip(Product::Outer, a, b, 13, 28, 27);
    lemma_step_skip(Product::Outer, a, b, 13, 29, 9);
    lemma_step_skip(Product::Outer, a, b, 13, 30, 12);
    lemma_step_skip(Product::Outer, a, b, 13, 31, 18);
}

/// The coefficient of `e3n` in the outer product of two points.
pub proof fn lemma_point_outer_point_e3n(a: R410<real>, b: R410<real>)
    requires
        zero_outside(a, |i: int| point_blade(i)),
        zero_outside(b, |i: int| point_blade(i)),
    ensures
        real_sum(Product::Outer, a, b, 14, 31) == b.en * a.e3 - b.e3 * a.en,
{
    lemma_step_first(Product::Outer, a, b, 14);
    lemma_zero_times(b.e3n, a.s);
    lemma_step_skip(Product::Outer, a, b, 14, 1, 20);
    lemma_step_skip(Product::Outer, a, b, 14, 2, 23);
    lemma_step_add(Product::Outer, a, b, 14, 3, 5);
    lemma_step_skip(Product::Outer, a, b, 14, 4, 25);
    lemma_step_sub(Product::Outer, a, b, 14, 5, 3);
    lemma_step_skip(Product::Outer, a, b, 14, 6, 27);
    lemma_step_skip(Product::Outer, a, b, 14, 7, 9);
    lemma_step_skip(Product::Outer, a, b, 14, 8, 29);
    lemma_step_skip(Product::Outer, a, b, 14, 9, 7);
    lemma_step_skip(Product::Outer, a, b, 14, 10, 12);
    lemma_step_skip(Product::Outer, a, b, 14, 11, 30);
    lemma_step_skip(Product::Outer, a, b, 14, 12, 10);
    lemma_step_skip(Product::Outer, a, b, 14, 13, 15);
    lemma_step_zero(Product::Outer, a, b, 14, 14, 0);
    lemma_step_skip(Product::Outer, a, b, 14, 15, 13);
    lemma_step_skip(Product::Outer, a, b, 14, 16, 18);
    lemma_step_skip(Product::Outer, a, b, 14, 17, 31);
    lemma_step_skip(Product::Outer, a, b, 14, 18, 16);
    lemma_step_skip(Product::Outer, a, b, 14, 19, 21);
    lemma_step_skip(Product::Outer, a, b, 14, 20, 1);
    lemma_step_skip(Product::Outer, a, b, 14, 21, 19);
    lemma_step_skip(Product::Outer, a, b, 14, 22, 24);
    lemma_step_skip(Product::Outer, a, b, 14, 23, 2);
    lemma_step_skip(Product::Outer, a, b, 14, 24, 22);
    lemma_step_skip(Product::Outer, a, b, 14, 25, 4);
    lemma_step_skip(Product::Outer, a, b, 14, 26, 28);
    lemma_step_skip(Product::Outer, a, b, 14, 27, 6);
    lemma_step_skip(Product::Outer, a, b, 14, 28, 26);
    lemma_step_skip(Product::Outer, a, b, 14, 29, 8);
    lemma_step_skip(Product::Outer, a, b, 14, 30, 11);
    lemma_step_skip(Product::Outer, a, b, 14, 31, 17);
}

/// The coefficient of `epn` in the outer product of two points.
pub proof fn lemma_point_outer_point_epn(a: R410<real>, b: R410<real>)
    requires
        zero_outside(a, |i: int| point_blade(i)),
        zero_outside(b, |i: int| point_blade(i)),
    ensures
        real_sum(Product::Outer, a, b, 15, 31) == b.en * a.ep - b.ep * a.en,
{
    lemma_step_first(Product::Outer, a, b, 15);
    lemma_zero_times(b.epn, a.s);
    lemma_step_skip(Product::Outer, a, b, 15, 1, 21);
    lemma_step_skip(Product::Outer, a, b, 15, 2, 24);
    lemma_step_skip(Product::Outer, a, b, 15, 3, 25);
    lemma_step_add(Product::Outer, a, b, 15, 4, 5);
    lemma_step_sub(Product::Outer, a, b, 15, 5, 4);
    lemma_step_skip(Product::Outer, a, b, 15, 6, 28);
    lemma_step_skip(Product::Outer, a, b, 15, 7, 29);
    lemma_step_skip(Product::Outer, a, b, 15, 8, 9);
    lemma_step_skip(Product::Outer, a, b, 15, 9, 8);
    lemma_step_skip(Product::Outer, a, b, 15, 10, 30);
    lemma_step_skip(Product::Outer, a, b, 15, 11, 12);
    lemma_step_skip(Product::Outer, a, b, 15, 12, 11);
    lemma_step_skip(Product::Outer, a, b, 15, 13, 14);
    lemma_step_skip(Product::Outer, a, b, 15, 14, 13);
    lemma_step_zero(Product::Outer, a, b, 15, 15, 0);
    lemma_step_skip(Product::Outer, a, b, 15, 16, 31);
    lemma_step_skip(Product::Outer, a, b, 15, 17, 18);
    lemma_step_skip(Product::Outer, a, b, 15, 18, 17);
    lemma_step_skip(Product::Outer, a, b, 15, 19, 20);
    lemma_step_skip(Product::Outer, a, b, 15, 20, 19);
    lemma_step_skip(Product::Outer, a, b, 15, 21, 1);
    lemma_step_skip(Product::Outer, a, b, 15, 22, 23);
    lemma_step_skip(Product::Outer, a, b, 15, 23, 22);
    lemma_step_skip(Product::Outer, a, b, 15, 24, 2);
    lemma_step_skip(Product::Outer, a, b, 15, 25, 3);
    lemma_step_skip(Product::Outer, a, b, 15, 26, 27);
    lemma_step_skip(Product::Outer, a, b, 15, 27, 26);
    lemma_step_skip(Product::Outer, a, b, 15, 28, 6);
    lemma_step_skip(Product::Outer, a, b, 15, 29, 7);
    lemma_step_skip(Product::Outer, a, b, 15, 30, 10);
    lemma_step_skip(Product::Outer, a, b, 15, 31, 16);
}

/// The scalar part of the inner product of two pairs.
pub proof fn lemma_pair_inner_pair_s(a: R410<real>, b: R410<real>)
    requires
        zero_outside(a, |i: int| pair_blade(i)),
        zero_outside(b, |i: int| pair_blade(i)),
    ensures
        real_sum(Product::Inner, a, b, 0, 31) == -(b.e12 * a.e12) - b.e13 * a.e13 - b.e1p * a.e1p + b.e1n * a.e1n - b.e23 * a.e23 - b.e2p * a.e2p + b.e2n * a.e2n - b.e3p * a.e3p + b.e3n * a.e3n + b.epn * a.epn,
{
    lemma_step_first(Product::Inner, a, b, 0);
    lemma_zero_times(b.s, a.s);
    lemma_step_zero(Product::Inner, a, b, 0, 1, 1);
    lemma_step_zero(Product::Inner, a, b, 0, 2, 2);
    lemma_step_zero(Product::Inner, a, b, 0, 3, 3);
    lemma_step_zero(Product::Inner, a, b, 0, 4, 4);
    lemma_step_zero(Product::Inner, a, b, 0, 5, 5);
    lemma_step_sub(Product::Inner, a, b, 0, 6, 6);
    lemma_step_sub(Product::Inner, a, b, 0, 7, 7);
    lemma_step_sub(Product::Inner, a, b, 0, 8, 8);
    lemma_step_add(Product::Inner, a, b, 0, 9, 9);
    lemma_step_sub(Product::Inner, a, b, 0, 10, 10);
    lemma_step_sub(Product::Inner, a, b, 0, 11, 11);
    lemma_step_add(Product::Inner, a, b, 0, 12, 12);
    lemma_step_sub(Product::Inner, a, b, 0, 13, 13);
    lemma_step_add(Product::Inner, a, b, 0, 14, 14);
    lemma_step_add(Product::Inner, a, b, 0, 15, 15);
    lemma_step_zero(Product::Inner, a, b, 0, 16, 16);
    lemma_step_zero(Product::Inner, a, b, 0, 17, 17);
    lemma_step_zero(Product::Inner, a, b, 0, 18, 18);
    lemma_step_zero(Product::Inner, a, b, 0, 19, 19);
    lemma_step_zero(Product::Inner, a, b, 0, 20, 20);
    lemma_step_zero(Product::Inner, a, b, 0, 21, 21);
    lemma_step_zero(Product::Inner, a, b, 0, 22, 22);
    lemma_step_zero(Product::Inner, a, b, 0, 23, 23);
    lemma_step_zero(Product::Inner, a, b, 0, 24, 24);
    lemma_step_zero(Product::Inner, a, b, 0, 25, 25);
    lemma_step_zero(Product::Inner, a, b, 0, 26, 26);
    lemma_step_zero(Product::Inner, a, b, 0, 27, 27);
    lemma_step_zero(Product::Inner, a, b, 0, 28, 28);
    lemma_step_zero(Product::Inner, a, b, 0, 29, 29);
    lemma_step_zero(Product::Inner, a, b, 0, 30, 30);
    lemma_step_zero(Product::Inner, a, b, 0, 31, 31);
}

/// The coefficient of `e1` in the inner product of an infinity with a pair.
pub proof fn lemma_infinity_inner_pair_e1(a: R410<real>, b: R410<real>)
    requires
        zero_outside(a, |i: int| infinity_blade(i)),
        zero_outside(b, |i: int| pair_blade(i)),
    ensures
        real_sum(Product::Inner, a, b, 1, 31) == -(b.e1p * a.ep) + b.e1n * a.en,
{
    lemma_step_first(Product::Inner, a, b, 1);
    lemma_zero_times(b.e1, a.s);
    lemma_step_zero(Product::Inner, a, b, 1, 1, 0);
    lemma_step_zero(Product::Inner, a, b, 1, 2, 6);
    lemma_step_zero(Product::Inner, a, b, 1, 3, 7);
    lemma_step_sub(Product::Inner, a, b, 1, 4, 8);
    lemma_step_add(Product::Inner, a, b, 1, 5, 9);
    lemma_step_zero(Product::Inner, a, b, 1, 6, 2);
    lemma_step_zero(Product::Inner, a, b, 1, 7, 3);
    lemma_step_zero(Product::Inner, a, b, 1, 8, 4);
    lemma_step_zero(Product::Inner, a, b, 1, 9, 5);
    lemma_step_zero(Product::Inner, a, b, 1, 10, 16);
    lemma_step_zero(Product::Inner, a, b, 1, 11, 17);
    lemma_step_zero(Product::Inner, a, b, 1, 12, 18);
    lemma_step_zero(Product::Inner, a, b, 1, 13, 19);
    lemma_step_zero(Product::Inner, a, b, 1, 14, 20);
    lemma_step_zero(Product::Inner, a, b, 1, 15, 21);
    lemma_step_zero(Product::Inner, a, b, 1, 16, 10);
    lemma_step_zero(Product::Inner, a, b, 1, 17, 11);
    lemma_step_zero(Product::Inner, a, b, 1, 18, 12);
    lemma_step_zero(Product::Inner, a, b, 1, 19, 13);
    lemma_step_zero(Product::Inner, a, b, 1, 20, 14);
    lemma_step_zero(Product::Inner, a, b, 1, 21, 15);
    lemma_step_zero(Product::Inner, a, b, 1, 22, 26);
    lemma_step_zero(Product::Inner, a, b, 1, 23, 27);
    lemma_step_zero(Product::Inner, a, b, 1, 24, 28);
    lemma_step_zero(Product::Inner, a, b, 1, 25, 29);
    lemma_step_zero(Product::Inner, a, b, 1, 26, 22);
    lemma_step_zero(Product::Inner, a, b, 1, 27, 23);
    lemma_step_zero(Product::Inner, a, b, 1, 28, 24);
    lemma_step_zero(Product::Inner, a, b, 1, 29, 25);
    lemma_step_zero(Product::Inner, a, b, 1, 30, 31);
    lemma_step_zero(Product::Inner, a, b, 1, 31, 30);
}

/// The coefficient of `e2` in the inner product of an infinity with a pair.
pub proof fn lemma_infinity_inner_pair_e2(a: R410<real>, b: R410<real>)
    requires
        zero_outside(a, |i: int| infinity_blade(i)),
        zero_outside(b, |i: int| pair_blade(i)),
    ensures
        real_sum(Product::Inner, a, b, 2, 31) == -(b.e2p * a.ep) + b.e2n * a.en,
{
    lemma_step_first(Product::Inner, a, b, 2);
    lemma_zero_times(b.e2, a.s);
    lemma_step_zero(Product::Inner, a, b, 2, 1, 6);
    lemma_step_zero(Product::Inner, a, b, 2, 2, 0);
    lemma_step_zero(Product::Inner, a, b, 2, 3, 10);
    lemma_step_sub(Product::Inner, a, b, 2, 4, 11);
    lemma_step_add(Product::Inner, a, b, 2, 5, 12);
    lemma_step_zero(Product::Inner, a, b, 2, 6, 1);
    lemma_step_zero(Product::Inner, a, b, 2, 7, 16);
    lemma_step_zero(Product::Inner, a, b, 2, 8, 17);
    lemma_step_zero(Product::Inner, a, b, 2, 9, 18);
    lemma_step_zero(Product::Inner, a, b, 2, 10, 3);
    lemma_step_zero(Product::Inner, a, b, 2, 11, 4);
    lemma_step_zero(Product::Inner, a, b, 2, 12, 5);
    lemma_step_zero(Product::Inner, a, b, 2, 13, 22);
    lemma_step_zero(Product::Inner, a, b, 2, 14, 23);
    lemma_step_zero(Product::Inner, a, b, 2, 15, 24);
    lemma_step_zero(Product::Inner, a, b, 2, 16, 7);
    lemma_step_zero(Product::Inner, a, b, 2, 17, 8);
    lemma_step_zero(Product::Inner, a, b, 2, 18, 9);
    lemma_step_zero(Product::Inner, a, b, 2, 19, 26);
    lemma_step_zero(Product::Inner, a, b, 2, 20, 27);
    lemma_step_zero(Product::Inner, a, b, 2, 21, 28);
    lemma_step_zero(Product::Inner, a, b, 2, 22, 13);
    lemma_step_zero(Product::Inner, a, b, 2, 23, 14);
    lemma_step_zero(Product::Inner, a, b, 2, 24, 15);
    lemma_step_zero(Product::Inner, a, b, 2, 25, 30);
    lemma_step_zero(Product::Inner, a, b, 2, 26, 19);
    lemma_step_zero(Product::Inner, a, b, 2, 27, 20);
    lemma_step_zero(Product::Inner, a, b, 2, 28, 21);
    lemma_step_zero(Product::Inner, a, b, 2, 29, 31);
    lemma_step_zero(Product::Inner, a, b, 2, 30, 25);
    lemma_step_zero(Product::Inner, a, b, 2, 31, 29);
}

/// The coefficient of `e3` in the inner product of an infinity with a pair.
pub proof fn lemma_infinity_inner_pair_e3(a: R410<real>, b: R410<real>)
    requires
        zero_outside(a, |i: int| infinity_blade(i)),
        zero_outside(b, |i: int| pair_blade(i)),
    ensures
        real_sum(Product::Inner, a, b, 3, 31) == -(b.e3p * a.ep) + b.e3n * a.en,
{
    lemma_step_first(Product::Inner, a, b, 3);
    lemma_zero_times(b.e3, a.s);
    lemma_step_zero(Product::Inner, a, b, 3, 1, 7);
    lemma_step_zero(Product::Inner, a, b, 3, 2, 10);
    lemma_step_zero(Product::Inner, a, b, 3, 3, 0);
    lemma_step_sub(Product::Inner, a, b, 3, 4, 13);
    lemma_step_add(Product::Inner, a, b, 3, 5, 14);
    lemma_step_zero(Product::Inner, a, b, 3, 6, 16);
    lemma_step_zero(Product::Inner, a, b, 3, 7, 1);
    lemma_step_zero(Product::Inner, a, b, 3, 8, 19);
    lemma_step_zero(Product::Inner, a, b, 3, 9, 20);
    lemma_step_zero(Product::Inner, a, b, 3, 10, 2);
    lemma_step_zero(Product::Inner, a, b, 3, 11, 22);
    lemma_step_zero(Product::Inner, a, b, 3, 12, 23);
    lemma_step_zero(Product::Inner, a, b, 3, 13, 4);
    lemma_step_zero(Product::Inner, a, b, 3, 14, 5);
    lemma_step_zero(Product::Inner, a, b, 3, 15, 25);
    lemma_step_zero(Product::Inner, a, b, 3, 16, 6);
    lemma_step_zero(Product::Inner, a, b, 3, 17, 26);
    lemma_step_zero(Product::Inner, a, b, 3, 18, 27);
    lemma_step_zero(Product::Inner, a, b, 3, 19, 8);
    lemma_step_zero(Product::Inner, a, b, 3, 20, 9);
    lemma_step_zero(Product::Inner, a, b, 3, 21, 29);
    lemma_step_zero(Product::Inner, a, b, 3, 22, 11);
    lemma_step_zero(Product::Inner, a, b, 3, 23, 12);
    lemma_step_zero(Product::Inner, a, b, 3, 24, 30);
    lemma_step_zero(Product::Inner, a, b, 3, 25, 15);
    lemma_step_zero(Product::Inner, a, b, 3, 26, 17);
    lemma_step_zero(Product::Inner, a, b, 3, 27, 18);
    lemma_step_zero(Product::Inner, a, b, 3, 28, 31);
    lemma_step_zero(Product::Inner, a, b, 3, 29, 21);
    lemma_step_zero(Product::Inner, a, b, 3, 30, 24);
    lemma_step_zero(Product::Inner, a, b, 3, 31, 28);
}

/// The coefficient of `ep` in the inner product of an infinity with a pair.
pub proof fn lemma_infinity_inner_pair_ep(a: R410<real>, b: R410<real>)
    requires
        zero_outside(a, |i: int| infinity_blade(i)),
        zero_outside(b, |i: int| pair_blade(i)),
    ensures
        real_sum(Product::Inner, a, b, 4, 31) == b.epn * a.en,
{
    lemma_step_first(Product::Inner, a, b, 4);
    lemma_zero_times(b.ep, a.s);
    lemma_step_zero(Product::Inner, a, b, 4, 1, 8);
    lemma_step_zero(Product::Inner, a, b, 4, 2, 11);
    lemma_step_zero(Product::Inner, a, b, 4, 3, 13);
    lemma_step_zero(Product::Inner, a, b, 4, 4, 0);
    lemma_step_add(Product::Inner, a, b, 4, 5, 15);
    lemma_step_zero(Product::Inner, a, b, 4, 6, 17);
    lemma_step_zero(Product::Inner, a, b, 4, 7, 19);
    lemma_step_zero(Product::Inner, a, b, 4, 8, 1);
    lemma_step_zero(Product::Inner, a, b, 4, 9, 21);
    lemma_step_zero(Product::Inner, a, b, 4, 10, 22);
    lemma_step_zero(Product::Inner, a, b, 4, 11, 2);
    lemma_step_zero(Product::Inner, a, b, 4, 12, 24);
    lemma_step_zero(Product::Inner, a, b, 4, 13, 3);
    lemma_step_zero(Product::Inner, a, b, 4, 14, 25);
    lemma_step_zero(Product::Inner, a, b, 4, 15, 5);
    lemma_step_zero(Product::Inner, a, b, 4, 16, 26);
    lemma_step_zero(Product::Inner, a, b, 4, 17, 6);
    lemma_step_zero(Product::Inner, a, b, 4, 18, 28);
    lemma_step_zero(Product::Inner, a, b, 4, 19, 7);
    lemma_step_zero(Product::Inner, a, b, 4, 20, 29);
    lemma_step_zero(Product::Inner, a, b, 4, 21, 9);
    lemma_step_zero(Product::Inner, a, b, 4, 22, 10);
    lemma_step_zero(Product::Inner, a, b, 4, 23, 30);
    lemma_step_zero(Product::Inner, a, b, 4, 24, 12);
    lemma_step_zero(Product::Inner, a, b, 4, 25, 14);
    lemma_step_zero(Product::Inner, a, b, 4, 26, 16);
    lemma_step_zero(Product::Inner, a, b, 4, 27, 31);
    lemma_step_zero(Product::Inner, a, b, 4, 28, 18);
    lemma_step_zero(Product::Inner, a, b, 4, 29, 20);
    lemma_step_zero(Product::Inner, a, b, 4, 30, 23);
    lemma_step_zero(Product::Inner, a, b, 4, 31, 27);
}

/// The coefficient of `en` in the inner product of an infinity with a pair.
pub proof fn lemma_infinity_inner_pair_en(a: R410<real>, b: R410<real>)
    requires
        zero_outside(a, |i: int| infinity_blade(i)),
        zero_outside(b, |i: int| pair_blade(i)),
    ensures
        real_sum(Product::Inner, a, b, 5, 31) == b.epn * a.ep,
{
    lemma_step_first(Product::Inner, a, b, 5);
    lemma_zero_times(b.en, a.s);
    lemma_step_zero(Product::Inner, a, b, 5, 1, 9);
    lemma_step_zero(Product::Inner, a, b, 5, 2, 12);
    lemma_step_zero(Product::Inner, a, b, 5, 3, 14);
    lemma_step_add(Product::Inner, a, b, 5, 4, 15);
    lemma_step_zero(Product::Inner, a, b, 5, 5, 0);
    lemma_step_zero(Product::Inner, a, b, 5, 6, 18);
    lemma_step_zero(Product::Inner, a, b, 5, 7, 20);
    lemma_step_zero(Product::Inner, a, b, 5, 8, 21);
    lemma_step_zero(Product::Inner, a, b, 5, 9, 1);
    lemma_step_zero(Product::Inner, a, b, 5, 10, 23);
    lemma_step_zero(Product::Inner, a, b, 5, 11, 24);
    lemma_step_zero(Product::Inner, a, b, 5, 12, 2);
    lemma_step_zero(Product::Inner, a, b, 5, 13, 25);
    lemma_step_zero(Product::Inner, a, b, 5, 14, 3);
    lemma_step_zero(Product::Inner, a, b, 5, 15, 4);
    lemma_step_zero(Product::Inner, a, b, 5, 16, 27);
    lemma_step_zero(Product::Inner, a, b, 5, 17, 28);
    lemma_step_zero(Product::Inner, a, b, 5, 18, 6);
    lemma_step_zero(Product::Inner, a, b, 5, 19, 29);
    lemma_step_zero(Product::Inner, a, b, 5, 20, 7);
    lemma_step_zero(Product::Inner, a, b, 5, 21, 8);
    lemma_step_zero(Product::Inner, a, b, 5, 22, 30);
    lemma_step_zero(Product::Inner, a, b, 5, 23, 10);
    lemma_step_zero(Product::Inner, a, b, 5, 24, 11);
    lemma_step_zero(Product::Inner, a, b, 5, 25, 13);
    lemma_step_zero(Product::Inner, a, b, 5, 26, 31);
    lemma_step_zero(Product::Inner, a, b, 5, 27, 16);
    lemma_step_zero(Product::Inner, a, b, 5, 28, 17);
    lemma_step_zero(Product::Inner, a, b, 5, 29, 19);
    lemma_step_zero(Product::Inner, a, b, 5, 30, 22);
    lemma_step_zero(Product::Inner, a, b, 5, 31, 26);
}

/// Where the blades of the two factors can meet.
proof fn lemma_infinity_inner_pair_support(x: int, y: int)
    requires
        infinity_blade(x),
        pair_blade(y),
        keeps(Product::Inner, x, y),
    ensures
        point_blade(blade_times(x, y)),
{
    if x == 4 && y == 8 {
        assert(blade_times(4, 8) == 1);
    }
    if x == 4 && y == 11 {
        assert(blade_times(4, 11) == 2);
    }
    if x == 4 && y == 13 {
        assert(blade_times(4, 13) == 3);
    }
    if x == 4 && y == 15 {
        assert(blade_times(4, 15) == 5);
    }
    if x == 5 && y == 9 {
        assert(blade_times(5, 9) == 1);
    }
    if x == 5 && y == 12 {
        assert(blade_times(5, 12) == 2);
    }
    if x == 5 && y == 14 {
        assert(blade_times(5, 14) == 3);
    }
    if x == 5 && y == 15 {
        assert(blade_times(5, 15) == 4);
    }
}

/// The inner product of an infinity with a pair has no other coefficients.
pub proof fn lemma_infinity_inner_pair_elsewhere(a: R410<real>, b: R410<real>, c: int)
    requires
        zero_outside(a, |i: int| infinity_blade(i)),
        zero_outside(b, |i: int| pair_blade(i)),
        0 <= c < 32,
        !point_blade(c),
    ensures
        real_sum(Product::Inner, a, b, c, 31) == 0real,
{
    assert forall|x: int| 1 <= x <= 31 implies !keeps(
        Product::Inner,
        x,
        #[trigger] blade_times(x, c),
    ) || a.coeff(x) == 0real || b.coeff(blade_times(x, c)) == 0real by {
        let y = blade_times(x, c);
        lemma_blade_times_in_range(x, c);
        if infinity_blade(x) && pair_blade(y) && keeps(Product::Inner, x, y) {
            lemma_infinity_inner_pair_support(x, y);
            lemma_blade_times_solves(x, y, c);
        }
    }
    assert(a.coeff(0) == 0real);
    lemma_real_sum_vanishes(Product::Inner, a, b, c, 31);
}

/// The coefficient of `e1` in the inner product of any multivector with a point.
pub proof fn lemma_any_inner_point_e1(a: R410<real>, b: R410<real>)
    requires
        zero_outside(b, |i: int| point_blade(i)),
    ensures
        real_sum(Product::Inner, a, b, 1, 31) == b.e1 * a.s + b.e2 * a.e12 + b.e3 * a.e13 + b.ep * a.e1p - b.en * a.e1n,
{
    lemma_step_first(Product::Inner, a, b, 1);
    lemma_step_zero(Product::Inner, a, b, 1, 1, 0);
    lemma_step_zero(Product::Inner, a, b, 1, 2, 6);
    lemma_step_zero(Product::Inner, a, b, 1, 3, 7);
    lemma_step_zero(Product::Inner, a, b, 1, 4, 8);
    lemma_step_zero(Product::Inner, a, b, 1, 5, 9);
    lemma_step_add(Product::Inner, a, b, 1, 6, 2);
    lemma_step_add(Product::Inner, a, b, 1, 7, 3);
    lemma_step_add(Product::Inner, a, b, 1, 8, 4);
    lemma_step_sub(Product::Inner, a, b, 1, 9, 5);
    lemma_step_zero(Product::Inner, a, b, 1, 10, 16);
    lemma_step_zero(Product::Inner, a, b, 1, 11, 17);
    lemma_step_zero(Product::Inner, a, b, 1, 12, 18);
    lemma_step_zero(Product::Inner, a, b, 1, 13, 19);
    lemma_step_zero(Product::Inner, a, b, 1, 14, 20);
    lemma_step_zero(Product::Inner, a, b, 1, 15, 21);
    lemma_step_zero(Product::Inner, a, b, 1, 16, 10);
    lemma_step_zero(Product::Inner, a, b, 1, 17, 11);
    lemma_step_zero(Product::Inner, a, b, 1, 18, 12);
    lemma_step_zero(Product::Inner, a, b, 1, 19, 13);
    lemma_step_zero(Product::Inner, a, b, 1, 20, 14);
    lemma_step_zero(Product::Inner, a, b, 1, 21, 15);
    lemma_step_zero(Product::Inner, a, b, 1, 22, 26);
    lemma_step_zero(Product::Inner, a, b, 1, 23, 27);
    lemma_step_zero(Product::Inner, a, b, 1, 24, 28);
    lemma_step_zero(Product::Inner, a, b, 1, 25, 29);
    lemma_step_zero(Product::Inner, a, b, 1, 26, 22);
    lemma_step_zero(Product::Inner, a, b, 1, 27, 23);
    lemma_step_zero(Product::Inner, a, b, 1, 28, 24);
    lemma_step_zero(Product::Inner, a, b, 1, 29, 25);
    lemma_step_zero(Product::Inner, a, b, 1, 30, 31);
    lemma_step_zero(Product::Inner, a, b, 1, 31, 30);
}

/// The coefficient of `e2` in the inner product of any multivector with a point.
pub proof fn lemma_any_inner_point_e2(a: R410<real>, b: R410<real>)
    requires
        zero_outside(b, |i: int| point_blade(i)),
    ensures
        real_sum(Product::Inner, a, b, 2, 31) == b.e2 * a.s - b.e1 * a.e12 + b.e3 * a.e23 + b.ep * a.e2p - b.en * a.e2n,
{
    lemma_step_first(Product::Inner, a, b, 2);
    lemma_step_zero(Product::Inner, a, b, 2, 1, 6);
    lemma_step_zero(Product::Inner, a, b, 2, 2, 0);
    lemma_step_zero(Product::Inner, a, b, 2, 3, 10);
    lemma_step_zero(Product::Inner, a, b, 2, 4, 11);
    lemma_step_zero(Product::Inner, a, b, 2, 5, 12);
    lemma_step_sub(Product::Inner, a, b, 2, 6, 1);
    lemma_step_zero(Product::Inner, a, b, 2, 7, 16);
    lemma_step_zero(Product::Inner, a, b, 2, 8, 17);
    lemma_step_zero(Product::Inner, a, b, 2, 9, 18);
    lemma_step_add(Product::Inner, a, b, 2, 10, 3);
    lemma_step_add(Product::Inner, a, b, 2, 11, 4);
    lemma_step_sub(Product::Inner, a, b, 2, 12, 5);
    lemma_step_zero(Product::Inner, a, b, 2, 13, 22);
    lemma_step_zero(Product::Inner, a, b, 2, 14, 23);
    lemma_step_zero(Product::Inner, a, b, 2, 15, 24);
    lemma_step_zero(Product::Inner, a, b, 2, 16, 7);
    lemma_step_zero(Product::Inner, a, b, 2, 17, 8);
    lemma_step_zero(Product::Inner, a, b, 2, 18, 9);
    lemma_step_zero(Product::Inner, a, b, 2, 19, 26);
    lemma_step_zero(Product::Inner, a, b, 2, 20, 27);
    lemma_step_zero(Product::Inner, a, b, 2, 21, 28);
    lemma_step_zero(Product::Inner, a, b, 2, 22, 13);
    lemma_step_zero(Product::Inner, a, b, 2, 23, 14);
    lemma_step_zero(Product::Inner, a, b, 2, 24, 15);
    lemma_step_zero(Product::Inner, a, b, 2, 25, 30);
    lemma_step_zero(Product::Inner, a, b, 2, 26, 19);
    lemma_step_zero(Product::Inner, a, b, 2, 27, 20);
    lemma_step_zero(Product::Inner, a, b, 2, 28, 21);
    lemma_step_zero(Product::Inner, a, b, 2, 29, 31);
    lemma_step_zero(Product::Inner, a, b, 2, 30, 25);
    lemma_step_zero(Product::Inner, a, b, 2, 31, 29);
}

/// The coefficient of `e3` in the inner product of any multivector with a point.
pub proof fn lemma_any_inner_point_e3(a: R410<real>, b: R410<real>)
    requires
        zero_outside(b, |i: int| point_blade(i)),
    ensures
        real_sum(Product::Inner, a, b, 3, 31) == b.e3 * a.s - b.e1 * a.e13 - b.e2 * a.e23 + b.ep * a.e3p - b.en * a.e3n,
{
    lemma_step_first(Product::Inner, a, b, 3);
    lemma_step_zero(Product::Inner, a, b, 3, 1, 7);
    lemma_step_zero(Product::Inner, a, b, 3, 2, 10);
    lemma_step_zero(Product::Inner, a, b, 3, 3, 0);
    lemma_step_zero(Product::Inner, a, b, 3, 4, 13);
    lemma_step_zero(Product::Inner, a, b, 3, 5, 14);
    lemma_step_zero(Product::Inner, a, b, 3, 6, 16);
    lemma_step_sub(Product::Inner, a, b, 3, 7, 1);
    lemma_step_zero(Product::Inner, a, b, 3, 8, 19);
    lemma_step_zero(Product::Inner, a, b, 3, 9, 20);
    lemma_step_sub(Product::Inner, a, b, 3, 10, 2);
    lemma_step_zero(Product::Inner, a, b, 3, 11, 22);
    lemma_step_zero(Product::Inner, a, b, 3, 12, 23);
    lemma_step_add(Product::Inner, a, b, 3, 13, 4);
    lemma_step_sub(Product::Inner, a, b, 3, 14, 5);
    lemma_step_zero(Product::Inner, a, b, 3, 15, 25);
    lemma_step_zero(Product::Inner, a, b, 3, 16, 6);
    lemma_step_zero(Product::Inner, a, b, 3, 17, 26);
    lemma_step_zero(Product::Inner, a, b, 3, 18, 27);
    lemma_step_zero(Product::Inner, a, b, 3, 19, 8);
    lemma_step_zero(Product::Inner, a, b, 3, 20, 9);
    lemma_step_zero(Product::Inner, a, b, 3, 21, 29);
    lemma_step_zero(Product::Inner, a, b, 3, 22, 11);
    lemma_step_zero(Product::Inner, a, b, 3, 23, 12);
    lemma_step_zero(Product::Inner, a, b, 3, 24, 30);
    lemma_step_zero(Product::Inner, a, b, 3, 25, 15);
    lemma_step_zero(Product::Inner, a, b, 3, 26, 17);
    lemma_step_zero(Product::Inner, a, b, 3, 27, 18);
    lemma_step_zero(Product::Inner, a, b, 3, 28, 31);
    lemma_step_zero(Product::Inner, a, b, 3, 29, 21);
    lemma_step_zero(Product::Inner, a, b, 3, 30, 24);
    lemma_step_zero(Product::Inner, a, b, 3, 31, 28);
}

/// The coefficient of `ep` in the inner product of any multivector with a point.
pub proof fn lemma_any_inner_point_ep(a: R410<real>, b: R410<real>)
    requires
        zero_outside(b, |i: int| point_blade(i)),
    ensures
        real_sum(Product::Inner, a, b, 4, 31) == b.ep * a.s - b.e1 * a.e1p - b.e2 * a.e2p - b.e3 * a.e3p - b.en * a.epn,
{
    lemma_step_first(Product::Inner, a, b, 4);
    lemma_step_zero(Product::Inner, a, b, 4, 1, 8);
    lemma_step_zero(Product::Inner, a, b, 4, 2, 11);
    lemma_step_zero(Product::Inner, a, b, 4, 3, 13);
    lemma_step_zero(Product::Inner, a, b, 4, 4, 0);
    lemma_step_zero(Product::Inner, a, b, 4, 5, 15);
    lemma_step_zero(Product::Inner, a, b, 4, 6, 17);
    lemma_step_zero(Product::Inner, a, b, 4, 7, 19);
    lemma_step_sub(Product::Inner, a, b, 4, 8, 1);
    lemma_step_zero(Product::Inner, a, b, 4, 9, 21);
    lemma_step_zero(Product::Inner, a, b, 4, 10, 22);
    lemma_step_sub(Product::Inner, a, b, 4, 11, 2);
    lemma_step_zero(Product::Inner, a, b, 4, 12, 24);
    lemma_step_sub(Product::Inner, a, b, 4, 13, 3);
    lemma_step_zero(Product::Inner, a, b, 4, 14, 25);
    lemma_step_sub(Product::Inner, a, b, 4, 15, 5);
    lemma_step_zero(Product::Inner, a, b, 4, 16, 26);
    lemma_step_zero(Product::Inner, a, b, 4, 17, 6);
    lemma_step_zero(Product::Inner, a, b, 4, 18, 28);
    lemma_step_zero(Product::Inner, a, b, 4, 19, 7);
    lemma_step_zero(Product::Inner, a, b, 4, 20, 29);
    lemma_step_zero(Product::Inner, a, b, 4, 21, 9);
    lemma_step_zero(Product::Inner, a, b, 4, 22, 10);
    lemma_step_zero(Product::Inner, a, b, 4, 23, 30);
    lemma_step_zero(Product::Inner, a, b, 4, 24, 12);
    lemma_step_zero(Product::Inner, a, b, 4, 25, 14);
    lemma_step_zero(Product::Inner, a, b, 4, 26, 16);
    lemma_step_zero(Product::Inner, a, b, 4, 27, 31);
    lemma_step_zero(Product::Inner, a, b, 4, 28, 18);
    lemma_step_zero(Product::Inner, a, b, 4, 29, 20);
    lemma_step_zero(Product::Inner, a, b, 4, 30, 23);
    lemma_step_zero(Product::Inner, a, b, 4, 31, 27);
}

/// The coefficient of `en` in the inner product of any multivector with a point.
pub proof fn lemma_any_inner_point_en(a: R410<real>, b: R410<real>)
    requires
        zero_outside(b, |i: int| point_blade(i)),
    ensures
        real_sum(Product::Inner, a, b, 5, 31) == b.en * a.s - b.e1 * a.e1n - b.e2 * a.e2n - b.e3 * a.e3n - b.ep * a.epn,
{
    lemma_step_first(Product::Inner, a, b, 5);
    lemma_step_zero(Product::Inner, a, b, 5, 1, 9);
    lemma_step_zero(Product::Inner, a, b, 5, 2, 12);
    lemma_step_zero(Product::Inner, a, b, 5, 3, 14);
    lemma_step_zero(Product::Inner, a, b, 5, 4, 15);
    lemma_step_zero(Product::Inner, a, b, 5, 5, 0);
    lemma_step_zero(Product::Inner, a, b, 5, 6, 18);
    lemma_step_zero(Product::Inner, a, b, 5, 7, 20);
    lemma_step_zero(Product::Inner, a, b, 5, 8, 21);
    lemma_step_sub(Product::Inner, a, b, 5, 9, 1);
    lemma_step_zero(Product::Inner, a, b, 5, 10, 23);
    lemma_step_zero(Product::Inner, a, b, 5, 11, 24);
    lemma_step_sub(Product::Inner, a, b, 5, 12, 2);
    lemma_step_zero(Product::Inner, a, b, 5, 13, 25);
    lemma_step_sub(Product::Inner, a, b, 5, 14, 3);
    lemma_step_sub(Product::Inner, a, b, 5, 15, 4);
    lemma_step_zero(Product::Inner, a, b, 5, 16, 27);
    lemma_step_zero(Product::Inner, a, b, 5, 17, 28);
    lemma_step_zero(Product::Inner, a, b, 5, 18, 6);
    lemma_step_zero(Product::Inner, a, b, 5, 19, 29);
    lemma_step_zero(Product::Inner, a, b, 5, 20, 7);
    lemma_step_zero(Product::Inner, a, b, 5, 21, 8);
    lemma_step_zero(Product::Inner, a, b, 5, 22, 30);
    lemma_step_zero(Product::Inner, a, b, 5, 23, 10);
    lemma_step_zero(Product::Inner, a, b, 5, 24, 11);
    lemma_step_zero(Product::Inner, a, b, 5, 25, 13);
    lemma_step_zero(Product::Inner, a, b, 5, 26, 31);
    lemma_step_zero(Product::Inner, a, b, 5, 27, 16);
    lemma_step_zero(Product::Inner, a, b, 5, 28, 17);
    lemma_step_zero(Product::Inner, a, b, 5, 29, 19);
    lemma_step_zero(Product::Inner, a, b, 5, 30, 22);
    lemma_step_zero(Product::Inner, a, b, 5, 31, 26);
}

} // verus!
