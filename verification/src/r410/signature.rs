//! The signature of the algebra, as the unit blades show it.
//!
//! The generators `e1`, `e2`, `e3` and `ep` square to one and `en` squares to minus one; two
//! different generators change places with a change of sign; and the product of `e1`, `e2`
//! and `e3` does not depend on which two are multiplied first. The laws are stated of scalars
//! whose arithmetic with zero, one and negation is exact.

use vstd::prelude::*;
use crate::blades::blade_negative;
use crate::blades::blade_times;
use crate::field::Field;
use crate::r410::units::exact_units;
use crate::r410::units::lemma_unit_blades_negative;
use crate::r410::units::lemma_unit_blades_positive;
use crate::r410::R410;

verus! {

/// The entry of the multiplication table for `e1` times `e1`.
proof fn lemma_table_e1_e1()
    ensures
        blade_times(1, 1) == 0,
        !blade_negative(1, 1),
{
}

/// The entry of the multiplication table for `e1` times `e2`.
proof fn lemma_table_e1_e2()
    ensures
        blade_times(1, 2) == 6,
        !blade_negative(1, 2),
{
}

/// The entry of the multiplication table for `e1` times `e3`.
proof fn lemma_table_e1_e3()
    ensures
        blade_times(1, 3) == 7,
        !blade_negative(1, 3),
{
}

/// The entry of the multiplication table for `e1` times `ep`.
proof fn lemma_table_e1_ep()
    ensures
        blade_times(1, 4) == 8,
        !blade_negative(1, 4),
{
}

/// The entry of the multiplication table for `e1` times `en`.
proof fn lemma_table_e1_en()
    ensures
        blade_times(1, 5) == 9,
        !blade_negative(1, 5),
{
}

/// The entry of the multiplication table for `e2` times `e1`.
proof fn lemma_table_e2_e1()
    ensures
        blade_times(2, 1) == 6,
        blade_negative(2, 1),
{
}

/// The entry of the multiplication table for `e2` times `e2`.
proof fn lemma_table_e2_e2()
    ensures
        blade_times(2, 2) == 0,
        !blade_negative(2, 2),
{
}

/// The entry of the multiplication table for `e2` times `e3`.
proof fn lemma_table_e2_e3()
    ensures
        blade_times(2, 3) == 10,
        !blade_negative(2, 3),
{
}

/// The entry of the multiplication table for `e2` times `ep`.
proof fn lemma_table_e2_ep()
    ensures
        blade_times(2, 4) == 11,
        !blade_negative(2, 4),
{
}

/// The entry of the multiplication table for `e2` times `en`.
proof fn lemma_table_e2_en()
    ensures
        blade_times(2, 5) == 12,
        !blade_negative(2, 5),
{
}

/// The entry of the multiplication table for `e3` times `e1`.
proof fn lemma_table_e3_e1()
    ensures
        blade_times(3, 1) == 7,
        blade_negative(3, 1),
{
}

/// The entry of the multiplication table for `e3` times `e2`.
proof fn lemma_table_e3_e2()
    ensures
        blade_times(3, 2) == 10,
        blade_negative(3, 2),
{
}

/// The entry of the multiplication table for `e3` times `e3`.
proof fn lemma_table_e3_e3()
    ensures
        blade_times(3, 3) == 0,
        !blade_negative(3, 3),
{
}

/// The entry of the multiplication table for `e3` times `ep`.
proof fn lemma_table_e3_ep()
    ensures
        blade_times(3, 4) == 13,
        !blade_negative(3, 4),
{
}

/// The entry of the multiplication table for `e3` times `en`.
proof fn lemma_table_e3_en()
    ensures
        blade_times(3, 5) == 14,
        !blade_negative(3, 5),
{
}

/// The entry of the multiplication table for `ep` times `e1`.
proof fn lemma_table_ep_e1()
    ensures
        blade_times(4, 1) == 8,
        blade_negative(4, 1),
{
}

/// The entry of the multiplication table for `ep` times `e2`.
proof fn lemma_table_ep_e2()
    ensures
        blade_times(4, 2) == 11,
        blade_negative(4, 2),
{
}

/// The entry of the multiplication table for `ep` times `e3`.
proof fn lemma_table_ep_e3()
    ensures
        blade_times(4, 3) == 13,
        blade_negative(4, 3),
{
}

/// The entry of the multiplication table for `ep` times `ep`.
proof fn lemma_table_ep_ep()
    ensures
        blade_times(4, 4) == 0,
        !blade_negative(4, 4),
{
}

/// The entry of the multiplication table for `ep` times `en`.
proof fn lemma_table_ep_en()
    ensures
        blade_times(4, 5) == 15,
        !blade_negative(4, 5),
{
}

/// The entry of the multiplication table for `en` times `e1`.
proof fn lemma_table_en_e1()
    ensures
        blade_times(5, 1) == 9,
        blade_negative(5, 1),
{
}

/// The entry of the multiplication table for `en` times `e2`.
proof fn lemma_table_en_e2()
    ensures
        blade_times(5, 2) == 12,
        blade_negative(5, 2),
{
}

/// The entry of the multiplication table for `en` times `e3`.
proof fn lemma_table_en_e3()
    ensures
        blade_times(5, 3) == 14,
        blade_negative(5, 3),
{
}

/// The entry of the multiplication table for `en` times `ep`.
proof fn lemma_table_en_ep()
    ensures
        blade_times(5, 4) == 15,
        blade_negative(5, 4),
{
}

/// The entry of the multiplication table for `en` times `en`.
proof fn lemma_table_en_en()
    ensures
        blade_times(5, 5) == 0,
        blade_negative(5, 5),
{
}

/// The entry of the multiplication table for `e12` times `e3`.
proof fn lemma_table_e12_e3()
    ensures
        blade_times(6, 3) == 16,
        !blade_negative(6, 3),
{
}

/// The entry of the multiplication table for `e1` times `e23`.
proof fn lemma_table_e1_e23()
    ensures
        blade_times(1, 10) == 16,
        !blade_negative(1, 10),
{
}

/// A generator squares to one, but for `en`, which squares to minus one: for the generator
/// at place `x`, the product with itself is the scalar one, and for `en` its negative.
pub proof fn lemma_generator_squares<T: Field>(x: int)
    requires
        exact_units::<T>(),
        1 <= x <= 5,
    ensures
        x != 5 ==> R410::<T>::basis_spec(x).mul_spec(R410::<T>::basis_spec(x))
            == R410::<T>::basis_spec(0),
        x == 5 ==> R410::<T>::basis_spec(x).mul_spec(R410::<T>::basis_spec(x))
            == R410::<T>::basis_spec(0).neg_spec(),
{
    if x == 1 {
        lemma_table_e1_e1();
        lemma_unit_blades_positive::<T>(1, 1, 0);
    } else if x == 2 {
        lemma_table_e2_e2();
        lemma_unit_blades_positive::<T>(2, 2, 0);
    } else if x == 3 {
        lemma_table_e3_e3();
        lemma_unit_blades_positive::<T>(3, 3, 0);
    } else if x == 4 {
        lemma_table_ep_ep();
        lemma_unit_blades_positive::<T>(4, 4, 0);
    } else {
        lemma_table_en_en();
        lemma_unit_blades_negative::<T>(5, 5, 0);
    }
}

/// Two different generators change places with a change of sign: for the generators at the
/// places `x` and `y`, the product in one order is the negative of the product in the other,
/// so `e1 e2` is `-(e2 e1)`.
pub proof fn lemma_generators_anticommute<T: Field>(x: int, y: int)
    requires
        exact_units::<T>(),
        1 <= x <= 5,
        1 <= y <= 5,
        x != y,
    ensures
        R410::<T>::basis_spec(x).mul_spec(R410::<T>::basis_spec(y)) == R410::<T>::basis_spec(
            y,
        ).mul_spec(R410::<T>::basis_spec(x)).neg_spec(),
{
    if x == 1 && y == 2 {
        lemma_table_e1_e2();
        lemma_table_e2_e1();
        lemma_unit_blades_positive::<T>(1, 2, 6);
        lemma_unit_blades_negative::<T>(2, 1, 6);
    } else if x == 1 && y == 3 {
        lemma_table_e1_e3();
        lemma_table_e3_e1();
        lemma_unit_blades_positive::<T>(1, 3, 7);
        lemma_unit_blades_negative::<T>(3, 1, 7);
    } else if x == 1 && y == 4 {
        lemma_table_e1_ep();
        lemma_table_ep_e1();
        lemma_unit_blades_positive::<T>(1, 4, 8);
        lemma_unit_blades_negative::<T>(4, 1, 8);
    } else if x == 1 && y == 5 {
        lemma_table_e1_en();
        lemma_table_en_e1();
        lemma_unit_blades_positive::<T>(1, 5, 9);
        lemma_unit_blades_negative::<T>(5, 1, 9);
    } else if x == 2 && y == 1 {
        lemma_table_e2_e1();
        lemma_table_e1_e2();
        lemma_unit_blades_negative::<T>(2, 1, 6);
        lemma_unit_blades_positive::<T>(1, 2, 6);
    } else if x == 2 && y == 3 {
        lemma_table_e2_e3();
        lemma_table_e3_e2();
        lemma_unit_blades_positive::<T>(2, 3, 10);
        lemma_unit_blades_negative::<T>(3, 2, 10);
    } else if x == 2 && y == 4 {
        lemma_table_e2_ep();
        lemma_table_ep_e2();
        lemma_unit_blades_positive::<T>(2, 4, 11);
        lemma_unit_blades_negative::<T>(4, 2, 11);
    } else if x == 2 && y == 5 {
        lemma_table_e2_en();
        lemma_table_en_e2();
        lemma_unit_blades_positive::<T>(2, 5, 12);
        lemma_unit_blades_negative::<T>(5, 2, 12);
    } else if x == 3 && y == 1 {
        lemma_table_e3_e1();
        lemma_table_e1_e3();
        lemma_unit_blades_negative::<T>(3, 1, 7);
        lemma_unit_blades_positive::<T>(1, 3, 7);
    } else if x == 3 && y == 2 {
        lemma_table_e3_e2();
        lemma_table_e2_e3();
        lemma_unit_blades_negative::<T>(3, 2, 10);
        lemma_unit_blades_positive::<T>(2, 3, 10);
    } else if x == 3 && y == 4 {
        lemma_table_e3_ep();
        lemma_table_ep_e3();
        lemma_unit_blades_positive::<T>(3, 4, 13);
        lemma_unit_blades_negative::<T>(4, 3, 13);
    } else if x == 3 && y == 5 {
        lemma_table_e3_en();
        lemma_table_en_e3();
        lemma_unit_blades_positive::<T>(3, 5, 14);
        lemma_unit_blades_negative::<T>(5, 3, 14);
    } else if x == 4 && y == 1 {
        lemma_table_ep_e1();
        lemma_table_e1_ep();
        lemma_unit_blades_negative::<T>(4, 1, 8);
        lemma_unit_blades_positive::<T>(1, 4, 8);
    } else if x == 4 && y == 2 {
        lemma_table_ep_e2();
        lemma_table_e2_ep();
        lemma_unit_blades_negative::<T>(4, 2, 11);
        lemma_unit_blades_positive::<T>(2, 4, 11);
    } else if x == 4 && y == 3 {
        lemma_table_ep_e3();
        lemma_table_e3_ep();
        lemma_unit_blades_negative::<T>(4, 3, 13);
        lemma_unit_blades_positive::<T>(3, 4, 13);
    } else if x == 4 && y == 5 {
        lemma_table_ep_en();
        lemma_table_en_ep();
        lemma_unit_blades_positive::<T>(4, 5, 15);
        lemma_unit_blades_negative::<T>(5, 4, 15);
    } else if x == 5 && y == 1 {
        lemma_table_en_e1();
        lemma_table_e1_en();
        lemma_unit_blades_negative::<T>(5, 1, 9);
        lemma_unit_blades_positive::<T>(1, 5, 9);
    } else if x == 5 && y == 2 {
        lemma_table_en_e2();
        lemma_table_e2_en();
        lemma_unit_blades_negative::<T>(5, 2, 12);
        lemma_unit_blades_positive::<T>(2, 5, 12);
    } else if x == 5 && y == 3 {
        lemma_table_en_e3();
        lemma_table_e3_en();
        lemma_unit_blades_negative::<T>(5, 3, 14);
        lemma_unit_blades_positive::<T>(3, 5, 14);
    } else if x == 5 && y == 4 {
        lemma_table_en_ep();
        lemma_table_ep_en();
        lemma_unit_blades_negative::<T>(5, 4, 15);
        lemma_unit_blades_positive::<T>(4, 5, 15);
    }
}

/// The product of `e1`, `e2` and `e3` does not depend on which two are multiplied first:
/// `(e1 e2) e3` is `e1 (e2 e3)`, and both are `e123`.
pub proof fn lemma_generators_associate<T: Field>()
    requires
        exact_units::<T>(),
    ensures
        R410::<T>::basis_spec(1).mul_spec(R410::<T>::basis_spec(2)).mul_spec(
            R410::<T>::basis_spec(3),
        ) == R410::<T>::basis_spec(1).mul_spec(
            R410::<T>::basis_spec(2).mul_spec(R410::<T>::basis_spec(3)),
        ),
        R410::<T>::basis_spec(1).mul_spec(R410::<T>::basis_spec(2)).mul_spec(
            R410::<T>::basis_spec(3),
        ) == R410::<T>::basis_spec(16),
{
    lemma_table_e1_e2();
    lemma_table_e12_e3();
    lemma_table_e2_e3();
    lemma_table_e1_e23();
    lemma_unit_blades_positive::<T>(1, 2, 6);
    lemma_unit_blades_positive::<T>(6, 3, 16);
    lemma_unit_blades_positive::<T>(2, 3, 10);
    lemma_unit_blades_positive::<T>(1, 10, 16);
}

} // verus!
