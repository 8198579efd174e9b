//! A translator built from a displacement moves a point by that displacement.
//!
//! The law is stated of scalars that a field embedding reads as real numbers. The steps
//! that build the translator and the point, and the sandwich that moves the point, are
//! followed coefficient by coefficient in the real numbers, where the two sides are seen to
//! be the same polynomials.

use vstd::prelude::*;
use crate::blades::count_spec;
use crate::d3::direction::DVector;
use crate::d3::flat::FPoint;
use crate::d3::free::Vector;
use crate::d3::round::point::origin_spec;
use crate::d3::round::Point;
use crate::d3::transform::Translator;
use crate::field::half_spec;
use crate::field::two_spec;
use crate::field::Field;
use crate::r410::exact::at;
use crate::r410::exact::embeds;
use crate::r410::exact::homomorphic;
use crate::r410::exact::lemma_commute;
use crate::r410::exact::lemma_distribute;
use crate::r410::exact::lemma_half;
use crate::r410::exact::lemma_half_through;
use crate::r410::exact::lemma_half_twice;
use crate::r410::exact::lemma_minus_one_times;
use crate::r410::exact::lemma_negated_coeff;
use crate::r410::exact::lemma_one_times;
use crate::r410::exact::lemma_outer_coeff;
use crate::r410::exact::lemma_product_coeff;
use crate::r410::exact::lemma_quarter;
use crate::r410::exact::lemma_same_value;
use crate::r410::exact::lemma_scalar_added_coeff;
use crate::r410::exact::lemma_scaled_coeff;
use crate::r410::exact::lemma_shadow_coeff;
use crate::r410::exact::lemma_sign_out;
use crate::r410::exact::lemma_square_of_sum;
use crate::r410::exact::lemma_sum_coeff;
use crate::r410::exact::lemma_two_out;
use crate::r410::exact::lemma_two_times;
use crate::r410::exact::lemma_zero_times;
use crate::r410::exact::shadow;
use crate::r410::sparse::lemma_any_translator_e1;
use crate::r410::sparse::lemma_any_translator_e2;
use crate::r410::sparse::lemma_any_translator_e3;
use crate::r410::sparse::lemma_any_translator_ep;
use crate::r410::sparse::lemma_any_translator_en;
use crate::r410::sparse::lemma_infinity_any_e1;
use crate::r410::sparse::lemma_infinity_any_e2;
use crate::r410::sparse::lemma_infinity_any_e3;
use crate::r410::sparse::lemma_infinity_any_ep;
use crate::r410::sparse::lemma_infinity_any_en;
use crate::r410::sparse::lemma_translator_point_e1;
use crate::r410::sparse::lemma_translator_point_e2;
use crate::r410::sparse::lemma_translator_point_e3;
use crate::r410::sparse::lemma_translator_point_ep;
use crate::r410::sparse::lemma_translator_point_en;
use crate::r410::sparse::lemma_translator_point_e12p;
use crate::r410::sparse::lemma_translator_point_e12n;
use crate::r410::sparse::lemma_translator_point_e13p;
use crate::r410::sparse::lemma_translator_point_e13n;
use crate::r410::sparse::lemma_translator_point_e1pn;
use crate::r410::sparse::lemma_translator_point_e23p;
use crate::r410::sparse::lemma_translator_point_e23n;
use crate::r410::sparse::lemma_translator_point_e2pn;
use crate::r410::sparse::lemma_translator_point_e3pn;
use crate::r410::sparse::flat_blade;
use crate::r410::sparse::lemma_flat_flat_e1p;
use crate::r410::sparse::lemma_flat_flat_e2p;
use crate::r410::sparse::lemma_flat_flat_e3p;
use crate::r410::sparse::lemma_flat_flat_s;
use crate::r410::sparse::lemma_point_outer_infinity_e1p;
use crate::r410::sparse::lemma_point_outer_infinity_e2p;
use crate::r410::sparse::lemma_point_outer_infinity_e3p;
use crate::r410::sparse::lemma_point_outer_infinity_epn;
use crate::r410::sparse::lemma_translator_translator_e1p;
use crate::r410::sparse::lemma_translator_translator_e2p;
use crate::r410::sparse::lemma_translator_translator_e3p;
use crate::r410::sparse::lemma_translator_translator_s;
use crate::r410::sparse::lemma_vector_infinity_e1p;
use crate::r410::sparse::lemma_vector_infinity_e2p;
use crate::r410::sparse::lemma_vector_infinity_e3p;
use crate::r410::sparse::lemma_vector_vector_s;
use crate::r410::sparse::lemma_vector_vector_epn;
use crate::r410::sparse::lemma_vector_vector_e1p;
use crate::r410::sparse::lemma_vector_vector_e1n;
use crate::r410::sparse::lemma_vector_vector_e2p;
use crate::r410::sparse::lemma_vector_vector_e2n;
use crate::r410::sparse::lemma_vector_vector_e3p;
use crate::r410::sparse::lemma_vector_vector_e3n;
use crate::r410::sparse::infinity_blade;
use crate::r410::sparse::point_blade;
use crate::r410::sparse::translator_blade;
use crate::r410::sparse::vector_blade;
use crate::r410::sparse::zero_outside;
use crate::r410::R410;
use crate::spaces::infinity_spec;
use crate::spaces::Euclidean;
use crate::spaces::SpaceKind;
use crate::Multivec;

verus! {

/// The square of the length of the vector `v`, read as a real number.
pub open spec fn square<T: Field>(val: spec_fn(T) -> real, v: Vector<T>) -> real {
    at(val, v.e1) * at(val, v.e1) + at(val, v.e2) * at(val, v.e2) + at(val, v.e3) * at(val, v.e3)
}

/// The shadow of a vector has the coordinates of the vector on `e1 e2 e3`, and nothing else.
pub proof fn lemma_vector_shadow<T: Field>(val: spec_fn(T) -> real, v: Vector<T>)
    requires
        homomorphic(val),
    ensures
        zero_outside(shadow(val, v.into_mv_spec()), |i: int| vector_blade(i)),
        shadow(val, v.into_mv_spec()).e1 == at(val, v.e1),
        shadow(val, v.into_mv_spec()).e2 == at(val, v.e2),
        shadow(val, v.into_mv_spec()).e3 == at(val, v.e3),
{
    reveal(homomorphic);
    let m = v.into_mv_spec();
    assert forall|i: int| 0 <= i < 32 && !vector_blade(i) implies #[trigger] shadow(val, m).coeff(
        i,
    ) == 0real by {
        lemma_shadow_coeff(val, m, i);
    }
    lemma_shadow_coeff(val, m, 1);
    lemma_shadow_coeff(val, m, 2);
    lemma_shadow_coeff(val, m, 3);
}

/// The shadow of the Euclidean infinity is one on `ep` and on `en`, and nothing else.
pub proof fn lemma_infinity_shadow<T: Field>(val: spec_fn(T) -> real)
    requires
        homomorphic(val),
    ensures
        zero_outside(
            shadow(val, infinity_spec::<T>(SpaceKind::Euclidean)),
            |i: int| infinity_blade(i),
        ),
        shadow(val, infinity_spec::<T>(SpaceKind::Euclidean)).ep == 1real,
        shadow(val, infinity_spec::<T>(SpaceKind::Euclidean)).en == 1real,
{
    reveal(homomorphic);
    let m = infinity_spec::<T>(SpaceKind::Euclidean);
    assert forall|i: int| 0 <= i < 32 && !infinity_blade(i) implies #[trigger] shadow(
        val,
        m,
    ).coeff(i) == 0real by {
        lemma_shadow_coeff(val, m, i);
    }
    lemma_shadow_coeff(val, m, 4);
    lemma_shadow_coeff(val, m, 5);
}

/// The shadow of a point has the coefficients of the point, and nothing else.
pub proof fn lemma_point_shadow<T: Field>(val: spec_fn(T) -> real, x: Point<T>)
    requires
        homomorphic(val),
    ensures
        zero_outside(shadow(val, x.into_mv_spec()), |i: int| point_blade(i)),
        shadow(val, x.into_mv_spec()).e1 == at(val, x.e1),
        shadow(val, x.into_mv_spec()).e2 == at(val, x.e2),
        shadow(val, x.into_mv_spec()).e3 == at(val, x.e3),
        shadow(val, x.into_mv_spec()).ep == at(val, x.ep),
        shadow(val, x.into_mv_spec()).en == at(val, x.en),
{
    reveal(homomorphic);
    let m = x.into_mv_spec();
    assert forall|i: int| 0 <= i < 32 && !point_blade(i) implies #[trigger] shadow(val, m).coeff(
        i,
    ) == 0real by {
        lemma_shadow_coeff(val, m, i);
    }
    lemma_shadow_coeff(val, m, 1);
    lemma_shadow_coeff(val, m, 2);
    lemma_shadow_coeff(val, m, 3);
    lemma_shadow_coeff(val, m, 4);
    lemma_shadow_coeff(val, m, 5);
}

/// The shadow of a Euclidean translator has its scalar, and each of its directions on both
/// blades of the null pair.
proof fn lemma_translator_shadow<T: Field>(val: spec_fn(T) -> real, t: Translator<T>)
    requires
        homomorphic(val),
    ensures
        zero_outside(shadow(val, t.into_mv_spec()), |i: int| translator_blade(i)),
        shadow(val, t.into_mv_spec()).s == at(val, t.s),
        shadow(val, t.into_mv_spec()).e1p == at(val, t.e1i),
        shadow(val, t.into_mv_spec()).e1n == at(val, t.e1i),
        shadow(val, t.into_mv_spec()).e2p == at(val, t.e2i),
        shadow(val, t.into_mv_spec()).e2n == at(val, t.e2i),
        shadow(val, t.into_mv_spec()).e3p == at(val, t.e3i),
        shadow(val, t.into_mv_spec()).e3n == at(val, t.e3i),
{
    reveal(homomorphic);
    let m = t.into_mv_spec();
    assert forall|i: int| 0 <= i < 32 && !translator_blade(i) implies #[trigger] shadow(
        val,
        m,
    ).coeff(i) == 0real by {
        lemma_shadow_coeff(val, m, i);
    }
    lemma_shadow_coeff(val, m, 0);
    lemma_shadow_coeff(val, m, 8);
    lemma_shadow_coeff(val, m, 9);
    lemma_shadow_coeff(val, m, 11);
    lemma_shadow_coeff(val, m, 12);
    lemma_shadow_coeff(val, m, 13);
    lemma_shadow_coeff(val, m, 14);
}

/// The shadow of the reverse of a Euclidean translator: the directions are negated.
proof fn lemma_reversed_translator_shadow<T: Field>(val: spec_fn(T) -> real, t: Translator<T>)
    requires
        homomorphic(val),
    ensures
        zero_outside(shadow(val, t.into_mv_spec().reverse_spec()), |i: int| translator_blade(i)),
        shadow(val, t.into_mv_spec().reverse_spec()).s == at(val, t.s),
        shadow(val, t.into_mv_spec().reverse_spec()).e1p == -at(val, t.e1i),
        shadow(val, t.into_mv_spec().reverse_spec()).e1n == -at(val, t.e1i),
        shadow(val, t.into_mv_spec().reverse_spec()).e2p == -at(val, t.e2i),
        shadow(val, t.into_mv_spec().reverse_spec()).e2n == -at(val, t.e2i),
        shadow(val, t.into_mv_spec().reverse_spec()).e3p == -at(val, t.e3i),
        shadow(val, t.into_mv_spec().reverse_spec()).e3n == -at(val, t.e3i),
{
    reveal(homomorphic);
    let m = t.into_mv_spec().reverse_spec();
    reveal_with_fuel(count_spec, 6);
    assert(m.s == t.s);
    assert(m.e1p == t.e1i.neg_spec());
    assert(m.e1n == t.e1i.neg_spec());
    assert(m.e2p == t.e2i.neg_spec());
    assert(m.e2n == t.e2i.neg_spec());
    assert(m.e3p == t.e3i.neg_spec());
    assert(m.e3n == t.e3i.neg_spec());
    assert forall|i: int| 0 <= i < 32 && !translator_blade(i) implies #[trigger] shadow(
        val,
        m,
    ).coeff(i) == 0real by {
        lemma_shadow_coeff(val, m, i);
        assert(m.coeff(i) == T::zero_spec() || m.coeff(i) == T::zero_spec().neg_spec());
    }
    lemma_shadow_coeff(val, m, 0);
    lemma_shadow_coeff(val, m, 8);
    lemma_shadow_coeff(val, m, 9);
    lemma_shadow_coeff(val, m, 11);
    lemma_shadow_coeff(val, m, 12);
    lemma_shadow_coeff(val, m, 13);
    lemma_shadow_coeff(val, m, 14);
}

/// One coordinate of the product of a vector with infinity, on the blade with `ep`.
proof fn lemma_direction_coeff<T: Field>(val: spec_fn(T) -> real, d: Vector<T>, k: int)
    requires
        homomorphic(val),
        k == 1 || k == 2 || k == 3,
    ensures
        at(
            val,
            d.into_mv_spec().mul_spec(infinity_spec::<T>(SpaceKind::Euclidean)).coeff(
                if k == 1 {
                    8int
                } else if k == 2 {
                    11int
                } else {
                    13int
                },
            ),
        ) == at(val, d.into_mv_spec().coeff(k)),
{
    let v = d.into_mv_spec();
    let ni = infinity_spec::<T>(SpaceKind::Euclidean);
    let a = shadow(val, v);
    let b = shadow(val, ni);
    lemma_vector_shadow(val, d);
    lemma_infinity_shadow::<T>(val);
    lemma_shadow_coeff(val, v, k);
    if k == 1 {
        lemma_product_coeff(val, v, ni, 8);
        lemma_vector_infinity_e1p(a, b);
        lemma_one_times(b.ep, a.e1);
    } else if k == 2 {
        lemma_product_coeff(val, v, ni, 11);
        lemma_vector_infinity_e2p(a, b);
        lemma_one_times(b.ep, a.e2);
    } else {
        lemma_product_coeff(val, v, ni, 13);
        lemma_vector_infinity_e3p(a, b);
        lemma_one_times(b.ep, a.e3);
    }
}

/// Where the coordinates of a vector stand in its multivector.
proof fn lemma_vector_places<T: Field>(v: Vector<T>)
    ensures
        v.into_mv_spec().coeff(1) == v.e1,
        v.into_mv_spec().coeff(2) == v.e2,
        v.into_mv_spec().coeff(3) == v.e3,
{
}

/// The direction of a vector has the coordinates of the vector.
proof fn lemma_direction_values<T: Field>(val: spec_fn(T) -> real, d: Vector<T>)
    requires
        homomorphic(val),
    ensures
        at(val, d.as_direction_spec::<Euclidean>().e1i) == at(val, d.e1),
        at(val, d.as_direction_spec::<Euclidean>().e2i) == at(val, d.e2),
        at(val, d.as_direction_spec::<Euclidean>().e3i) == at(val, d.e3),
{
    let p = d.into_mv_spec().mul_spec(infinity_spec::<T>(SpaceKind::Euclidean));
    lemma_direction_picks(p);
    lemma_vector_places(d);
    lemma_direction_coeff(val, d, 1);
    lemma_direction_coeff(val, d, 2);
    lemma_direction_coeff(val, d, 3);
}

/// Where the coefficients of a direction stand in its multivector.
proof fn lemma_direction_places<T: Field>(dir: DVector<T>)
    ensures
        dir.into_mv_spec().coeff(0) == T::zero_spec(),
        dir.into_mv_spec().coeff(8) == dir.e1i,
        dir.into_mv_spec().coeff(11) == dir.e2i,
        dir.into_mv_spec().coeff(13) == dir.e3i,
{
}

/// Where a direction takes its coefficients from a multivector.
proof fn lemma_direction_picks<T: Field>(x: R410<T>)
    ensures
        DVector::<T, Euclidean>::from_mv_spec(x).e1i == x.coeff(8),
        DVector::<T, Euclidean>::from_mv_spec(x).e2i == x.coeff(11),
        DVector::<T, Euclidean>::from_mv_spec(x).e3i == x.coeff(13),
{
}

/// Where a translator takes its coefficients from a multivector.
proof fn lemma_translator_picks<T: Field>(x: R410<T>)
    ensures
        Translator::<T, Euclidean>::from_mv_spec(x).s == x.coeff(0),
        Translator::<T, Euclidean>::from_mv_spec(x).e1i == x.coeff(8),
        Translator::<T, Euclidean>::from_mv_spec(x).e2i == x.coeff(11),
        Translator::<T, Euclidean>::from_mv_spec(x).e3i == x.coeff(13),
{
}

/// A direction stretched by a scalar has its coefficients multiplied by the scalar.
proof fn lemma_scaled_direction_values<T: Field>(val: spec_fn(T) -> real, dir: DVector<T>, t: T)
    requires
        homomorphic(val),
    ensures
        at(val, dir.mul_scalar_spec(t).e1i) == at(val, t) * at(val, dir.e1i),
        at(val, dir.mul_scalar_spec(t).e2i) == at(val, t) * at(val, dir.e2i),
        at(val, dir.mul_scalar_spec(t).e3i) == at(val, t) * at(val, dir.e3i),
{
    let dm = dir.into_mv_spec();
    let x = dm.mul_scalar_spec(t);
    lemma_direction_places(dir);
    lemma_direction_picks(x);
    lemma_scaled_coeff(val, dm, t, 8);
    lemma_scaled_coeff(val, dm, t, 11);
    lemma_scaled_coeff(val, dm, t, 13);
}

/// One less a multivector, coefficient by coefficient.
proof fn lemma_one_less_coeff<T: Field>(val: spec_fn(T) -> real, a: R410<T>, c: int)
    requires
        homomorphic(val),
        0 <= c < 32,
    ensures
        at(val, a.neg_spec().add_scalar_spec(T::one_spec()).coeff(c)) == (if c == 0 {
            1real
        } else {
            0real
        }) - at(val, a.coeff(c)),
{
    reveal(homomorphic);
    lemma_negated_coeff(val, a, c);
    lemma_scalar_added_coeff(val, a.neg_spec(), T::one_spec(), c);
}

/// The exponential of a direction is one less the direction.
proof fn lemma_exp_values<T: Field>(val: spec_fn(T) -> real, dir: DVector<T>)
    requires
        homomorphic(val),
    ensures
        at(val, dir.exp_spec().s) == 1real,
        at(val, dir.exp_spec().e1i) == -at(val, dir.e1i),
        at(val, dir.exp_spec().e2i) == -at(val, dir.e2i),
        at(val, dir.exp_spec().e3i) == -at(val, dir.e3i),
{
    let hm = dir.into_mv_spec();
    let sum = hm.neg_spec().add_scalar_spec(T::one_spec());
    lemma_direction_places(dir);
    lemma_translator_picks(sum);
    lemma_one_less_coeff(val, hm, 0);
    lemma_one_less_coeff(val, hm, 8);
    lemma_one_less_coeff(val, hm, 11);
    lemma_one_less_coeff(val, hm, 13);
    assert(at(val, T::zero_spec()) == 0real) by {
        reveal(homomorphic);
    }
}

/// The translator of a vector `d` is `1 - d infinity / 2`: its scalar is one, and its
/// directions are minus half the coordinates of `d`.
pub proof fn lemma_translator_values<T: Field>(val: spec_fn(T) -> real, d: Vector<T>)
    requires
        homomorphic(val),
    ensures
        at(val, d.into_translator_spec::<Euclidean>().s) == 1real,
        at(val, d.into_translator_spec::<Euclidean>().e1i) == -(at(val, half_spec::<T>()) * at(
            val,
            d.e1,
        )),
        at(val, d.into_translator_spec::<Euclidean>().e2i) == -(at(val, half_spec::<T>()) * at(
            val,
            d.e2,
        )),
        at(val, d.into_translator_spec::<Euclidean>().e3i) == -(at(val, half_spec::<T>()) * at(
            val,
            d.e3,
        )),
{
    let dir = d.as_direction_spec::<Euclidean>();
    lemma_direction_values(val, d);
    lemma_scaled_direction_values(val, dir, half_spec::<T>());
    lemma_exp_values(val, dir.mul_scalar_spec(half_spec::<T>()));
}

/// The point of a vector `v` is `v + (v * v / 2) infinity + origin`: it has the coordinates
/// of `v`, and on the null pair half the square of `v`, less a half and more a half.
pub proof fn lemma_point_values<T: Field>(val: spec_fn(T) -> real, v: Vector<T>)
    requires
        homomorphic(val),
    ensures
        at(val, v.into_point_spec::<Euclidean>().e1) == at(val, v.e1),
        at(val, v.into_point_spec::<Euclidean>().e2) == at(val, v.e2),
        at(val, v.into_point_spec::<Euclidean>().e3) == at(val, v.e3),
        at(val, v.into_point_spec::<Euclidean>().ep) == at(val, half_spec::<T>()) * square(val, v)
            - at(val, half_spec::<T>()),
        at(val, v.into_point_spec::<Euclidean>().en) == at(val, half_spec::<T>()) * square(val, v)
            + at(val, half_spec::<T>()),
{
    reveal(homomorphic);
    let h = at(val, half_spec::<T>());
    let m = v.into_mv_spec();
    let ni = infinity_spec::<T>(SpaceKind::Euclidean);
    let no = origin_spec::<T>();
    let vv = m.mul_spec(m);
    let x = ni.mul_spec(vv);
    let y = x.mul_scalar_spec(half_spec::<T>());
    let s1 = m.add_spec(y);
    let s2 = s1.add_spec(no);
    let a = shadow(val, m);
    let n = shadow(val, ni);
    let b = shadow(val, vv);
    lemma_vector_shadow(val, v);
    lemma_infinity_shadow::<T>(val);
    // the square of the vector is a scalar
    assert(b.s == square(val, v)) by {
        lemma_shadow_coeff(val, vv, 0);
        lemma_product_coeff(val, m, m, 0);
        lemma_vector_vector_s(a, a);
    }
    assert(b.epn == 0real) by {
        lemma_shadow_coeff(val, vv, 15);
        lemma_product_coeff(val, m, m, 15);
        lemma_vector_vector_epn(a, a);
    }
    assert(b.e1p == 0real) by {
        lemma_shadow_coeff(val, vv, 8);
        lemma_product_coeff(val, m, m, 8);
        lemma_vector_vector_e1p(a, a);
    }
    assert(b.e1n == 0real) by {
        lemma_shadow_coeff(val, vv, 9);
        lemma_product_coeff(val, m, m, 9);
        lemma_vector_vector_e1n(a, a);
    }
    assert(b.e2p == 0real) by {
        lemma_shadow_coeff(val, vv, 11);
        lemma_product_coeff(val, m, m, 11);
        lemma_vector_vector_e2p(a, a);
    }
    assert(b.e2n == 0real) by {
        lemma_shadow_coeff(val, vv, 12);
        lemma_product_coeff(val, m, m, 12);
        lemma_vector_vector_e2n(a, a);
    }
    assert(b.e3p == 0real) by {
        lemma_shadow_coeff(val, vv, 13);
        lemma_product_coeff(val, m, m, 13);
        lemma_vector_vector_e3p(a, a);
    }
    assert(b.e3n == 0real) by {
        lemma_shadow_coeff(val, vv, 14);
        lemma_product_coeff(val, m, m, 14);
        lemma_vector_vector_e3n(a, a);
    }
    // infinity times the square
    assert(at(val, x.coeff(1)) == 0real) by {
        lemma_product_coeff(val, ni, vv, 1);
        lemma_infinity_any_e1(n, b);
        lemma_zero_times(b.e1p, n.ep);
        lemma_zero_times(b.e1n, n.en);
    }
    assert(at(val, x.coeff(2)) == 0real) by {
        lemma_product_coeff(val, ni, vv, 2);
        lemma_infinity_any_e2(n, b);
        lemma_zero_times(b.e2p, n.ep);
        lemma_zero_times(b.e2n, n.en);
    }
    assert(at(val, x.coeff(3)) == 0real) by {
        lemma_product_coeff(val, ni, vv, 3);
        lemma_infinity_any_e3(n, b);
        lemma_zero_times(b.e3p, n.ep);
        lemma_zero_times(b.e3n, n.en);
    }
    assert(at(val, x.coeff(4)) == square(val, v)) by {
        lemma_product_coeff(val, ni, vv, 4);
        lemma_infinity_any_ep(n, b);
        lemma_one_times(n.ep, b.s);
        lemma_zero_times(b.epn, n.en);
    }
    assert(at(val, x.coeff(5)) == square(val, v)) by {
        lemma_product_coeff(val, ni, vv, 5);
        lemma_infinity_any_en(n, b);
        lemma_one_times(n.en, b.s);
        lemma_zero_times(b.epn, n.ep);
    }
    // half of it, added to the vector and to the origin
    lemma_scaled_coeff(val, x, half_spec::<T>(), 1);
    lemma_scaled_coeff(val, x, half_spec::<T>(), 2);
    lemma_scaled_coeff(val, x, half_spec::<T>(), 3);
    lemma_scaled_coeff(val, x, half_spec::<T>(), 4);
    lemma_scaled_coeff(val, x, half_spec::<T>(), 5);
    lemma_zero_times(h, at(val, x.coeff(1)));
    lemma_zero_times(h, at(val, x.coeff(2)));
    lemma_zero_times(h, at(val, x.coeff(3)));
    lemma_sum_coeff(val, m, y, 1);
    lemma_sum_coeff(val, m, y, 2);
    lemma_sum_coeff(val, m, y, 3);
    lemma_sum_coeff(val, m, y, 4);
    lemma_sum_coeff(val, m, y, 5);
    lemma_sum_coeff(val, s1, no, 1);
    lemma_sum_coeff(val, s1, no, 2);
    lemma_sum_coeff(val, s1, no, 3);
    lemma_sum_coeff(val, s1, no, 4);
    lemma_sum_coeff(val, s1, no, 5);
    assert(v.into_point_spec::<Euclidean>() == Point::<T, Euclidean>::from_mv_spec(s2));
}

/// A coordinate of a point with the coefficients `x u w`, multiplied from the left by a
/// translator with scalar one and the direction `t` on that coordinate.
pub open spec fn lifted(x: real, t: real, u: real, w: real) -> real {
    x + u * t - w * t
}

/// The coefficient on a coordinate and the null pair, of a point with the coefficients `u w`
/// on the null pair, multiplied from the left by a translator with the direction `t`.
pub open spec fn twisted(t: real, u: real, w: real) -> real {
    w * t - u * t
}

/// The sum of the products of the coordinates of a point with the directions of a
/// translator.
pub open spec fn paired(x1: real, x2: real, x3: real, t1: real, t2: real, t3: real) -> real {
    x1 * t1 + x2 * t2 + x3 * t3
}

/// The coefficients of the product of a Euclidean translator `t` with scalar one and a point
/// `x`, as far as the sandwich needs them.
proof fn lemma_translator_times_point<T: Field>(
    val: spec_fn(T) -> real,
    t: Translator<T>,
    x: Point<T>,
)
    requires
        homomorphic(val),
        at(val, t.s) == 1real,
    ensures
        ({
            let am = shadow(val, t.into_mv_spec().mul_spec(x.into_mv_spec()));
            let t1 = at(val, t.e1i);
            let t2 = at(val, t.e2i);
            let t3 = at(val, t.e3i);
            let x1 = at(val, x.e1);
            let x2 = at(val, x.e2);
            let x3 = at(val, x.e3);
            let u = at(val, x.ep);
            let w = at(val, x.en);
            &&& am.e1 == x1 + u * t1 - w * t1
            &&& am.e2 == x2 + u * t2 - w * t2
            &&& am.e3 == x3 + u * t3 - w * t3
            &&& am.ep == u - x1 * t1 - x2 * t2 - x3 * t3
            &&& am.en == w - x1 * t1 - x2 * t2 - x3 * t3
            &&& am.e12p == -(x2 * t1) + x1 * t2
            &&& am.e12n == -(x2 * t1) + x1 * t2
            &&& am.e13p == -(x3 * t1) + x1 * t3
            &&& am.e13n == -(x3 * t1) + x1 * t3
            &&& am.e1pn == w * t1 - u * t1
            &&& am.e23p == -(x3 * t2) + x2 * t3
            &&& am.e23n == -(x3 * t2) + x2 * t3
            &&& am.e2pn == w * t2 - u * t2
            &&& am.e3pn == w * t3 - u * t3
        }),
{
    let tm = t.into_mv_spec();
    let xm = x.into_mv_spec();
    let m = tm.mul_spec(xm);
    let a = shadow(val, tm);
    let b = shadow(val, xm);
    let am = shadow(val, m);
    lemma_translator_shadow(val, t);
    lemma_point_shadow(val, x);
    lemma_one_times(a.s, b.e1);
    lemma_one_times(a.s, b.e2);
    lemma_one_times(a.s, b.e3);
    lemma_one_times(a.s, b.ep);
    lemma_one_times(a.s, b.en);
    assert(am.e1 == b.e1 * a.s + b.ep * a.e1p - b.en * a.e1n) by {
        lemma_shadow_coeff(val, m, 1);
        lemma_product_coeff(val, tm, xm, 1);
        lemma_translator_point_e1(a, b);
    }
    assert(am.e2 == b.e2 * a.s + b.ep * a.e2p - b.en * a.e2n) by {
        lemma_shadow_coeff(val, m, 2);
        lemma_product_coeff(val, tm, xm, 2);
        lemma_translator_point_e2(a, b);
    }
    assert(am.e3 == b.e3 * a.s + b.ep * a.e3p - b.en * a.e3n) by {
        lemma_shadow_coeff(val, m, 3);
        lemma_product_coeff(val, tm, xm, 3);
        lemma_translator_point_e3(a, b);
    }
    assert(am.ep == b.ep * a.s - b.e1 * a.e1p - b.e2 * a.e2p - b.e3 * a.e3p) by {
        lemma_shadow_coeff(val, m, 4);
        lemma_product_coeff(val, tm, xm, 4);
        lemma_translator_point_ep(a, b);
    }
    assert(am.en == b.en * a.s - b.e1 * a.e1n - b.e2 * a.e2n - b.e3 * a.e3n) by {
        lemma_shadow_coeff(val, m, 5);
        lemma_product_coeff(val, tm, xm, 5);
        lemma_translator_point_en(a, b);
    }
    assert(am.e12p == -(b.e2 * a.e1p) + b.e1 * a.e2p) by {
        lemma_shadow_coeff(val, m, 17);
        lemma_product_coeff(val, tm, xm, 17);
        lemma_translator_point_e12p(a, b);
    }
    assert(am.e12n == -(b.e2 * a.e1n) + b.e1 * a.e2n) by {
        lemma_shadow_coeff(val, m, 18);
        lemma_product_coeff(val, tm, xm, 18);
        lemma_translator_point_e12n(a, b);
    }
    assert(am.e13p == -(b.e3 * a.e1p) + b.e1 * a.e3p) by {
        lemma_shadow_coeff(val, m, 19);
        lemma_product_coeff(val, tm, xm, 19);
        lemma_translator_point_e13p(a, b);
    }
    assert(am.e13n == -(b.e3 * a.e1n) + b.e1 * a.e3n) by {
        lemma_shadow_coeff(val, m, 20);
        lemma_product_coeff(val, tm, xm, 20);
        lemma_translator_point_e13n(a, b);
    }
    assert(am.e1pn == b.en * a.e1p - b.ep * a.e1n) by {
        lemma_shadow_coeff(val, m, 21);
        lemma_product_coeff(val, tm, xm, 21);
        lemma_translator_point_e1pn(a, b);
    }
    assert(am.e23p == -(b.e3 * a.e2p) + b.e2 * a.e3p) by {
        lemma_shadow_coeff(val, m, 22);
        lemma_product_coeff(val, tm, xm, 22);
        lemma_translator_point_e23p(a, b);
    }
    assert(am.e23n == -(b.e3 * a.e2n) + b.e2 * a.e3n) by {
        lemma_shadow_coeff(val, m, 23);
        lemma_product_coeff(val, tm, xm, 23);
        lemma_translator_point_e23n(a, b);
    }
    assert(am.e2pn == b.en * a.e2p - b.ep * a.e2n) by {
        lemma_shadow_coeff(val, m, 24);
        lemma_product_coeff(val, tm, xm, 24);
        lemma_translator_point_e2pn(a, b);
    }
    assert(am.e3pn == b.en * a.e3p - b.ep * a.e3n) by {
        lemma_shadow_coeff(val, m, 25);
        lemma_product_coeff(val, tm, xm, 25);
        lemma_translator_point_e3pn(a, b);
    }
}

/// The coefficients of a point in the product of any multivector `m` with the reverse of a
/// Euclidean translator `t` with scalar one.
proof fn lemma_times_reversed_translator<T: Field>(
    val: spec_fn(T) -> real,
    m: R410<T>,
    t: Translator<T>,
)
    requires
        homomorphic(val),
        at(val, t.s) == 1real,
    ensures
        ({
            let am = shadow(val, m);
            let t1 = at(val, t.e1i);
            let t2 = at(val, t.e2i);
            let t3 = at(val, t.e3i);
            &&& at(val, m.mul_spec(t.into_mv_spec().reverse_spec()).coeff(1)) == am.e1 - (-t1) * am.ep + (-t1) * am.en - (-t2) * am.e12p + (-t2) * am.e12n - (-t3) * am.e13p + (-t3) * am.e13n
            &&& at(val, m.mul_spec(t.into_mv_spec().reverse_spec()).coeff(2)) == am.e2 - (-t2) * am.ep + (-t2) * am.en + (-t1) * am.e12p - (-t1) * am.e12n - (-t3) * am.e23p + (-t3) * am.e23n
            &&& at(val, m.mul_spec(t.into_mv_spec().reverse_spec()).coeff(3)) == am.e3 - (-t3) * am.ep + (-t3) * am.en + (-t1) * am.e13p - (-t1) * am.e13n + (-t2) * am.e23p - (-t2) * am.e23n
            &&& at(val, m.mul_spec(t.into_mv_spec().reverse_spec()).coeff(4)) == (-t1) * am.e1 + (-t2) * am.e2 + (-t3) * am.e3 + am.ep - (-t1) * am.e1pn - (-t2) * am.e2pn - (-t3) * am.e3pn
            &&& at(val, m.mul_spec(t.into_mv_spec().reverse_spec()).coeff(5)) == (-t1) * am.e1 + (-t2) * am.e2 + (-t3) * am.e3 + am.en - (-t1) * am.e1pn - (-t2) * am.e2pn - (-t3) * am.e3pn
        }),
{
    let rt = t.into_mv_spec().reverse_spec();
    let rr = m.mul_spec(rt);
    let am = shadow(val, m);
    let brt = shadow(val, rt);
    lemma_reversed_translator_shadow(val, t);
    lemma_one_times(brt.s, am.e1);
    lemma_one_times(brt.s, am.e2);
    lemma_one_times(brt.s, am.e3);
    lemma_one_times(brt.s, am.ep);
    lemma_one_times(brt.s, am.en);
    assert(at(val, rr.coeff(1)) == brt.s * am.e1 - brt.e1p * am.ep + brt.e1n * am.en - brt.e2p * am.e12p + brt.e2n * am.e12n - brt.e3p * am.e13p + brt.e3n * am.e13n) by {
        lemma_product_coeff(val, m, rt, 1);
        lemma_any_translator_e1(am, brt);
    }
    assert(at(val, rr.coeff(2)) == brt.s * am.e2 - brt.e2p * am.ep + brt.e2n * am.en + brt.e1p * am.e12p - brt.e1n * am.e12n - brt.e3p * am.e23p + brt.e3n * am.e23n) by {
        lemma_product_coeff(val, m, rt, 2);
        lemma_any_translator_e2(am, brt);
    }
    assert(at(val, rr.coeff(3)) == brt.s * am.e3 - brt.e3p * am.ep + brt.e3n * am.en + brt.e1p * am.e13p - brt.e1n * am.e13n + brt.e2p * am.e23p - brt.e2n * am.e23n) by {
        lemma_product_coeff(val, m, rt, 3);
        lemma_any_translator_e3(am, brt);
    }
    assert(at(val, rr.coeff(4)) == brt.e1p * am.e1 + brt.e2p * am.e2 + brt.e3p * am.e3 + brt.s * am.ep - brt.e1n * am.e1pn - brt.e2n * am.e2pn - brt.e3n * am.e3pn) by {
        lemma_product_coeff(val, m, rt, 4);
        lemma_any_translator_ep(am, brt);
    }
    assert(at(val, rr.coeff(5)) == brt.e1n * am.e1 + brt.e2n * am.e2 + brt.e3n * am.e3 + brt.s * am.en - brt.e1p * am.e1pn - brt.e2p * am.e2pn - brt.e3p * am.e3pn) by {
        lemma_product_coeff(val, m, rt, 5);
        lemma_any_translator_en(am, brt);
    }
}

/// The sandwich of a point between a translator with scalar one and its reverse, put
/// together from the two products, in real numbers.
proof fn lemma_sandwich_combined(
    t1: real,
    t2: real,
    t3: real,
    x1: real,
    x2: real,
    x3: real,
    u: real,
    w: real,
    m_e1: real,
    m_e2: real,
    m_e3: real,
    m_ep: real,
    m_en: real,
    m_e12p: real,
    m_e12n: real,
    m_e13p: real,
    m_e13n: real,
    m_e1pn: real,
    m_e23p: real,
    m_e23n: real,
    m_e2pn: real,
    m_e3pn: real,
    r1: real,
    r2: real,
    r3: real,
    rp: real,
    rn: real,
)
    requires
        m_e1 == x1 + u * t1 - w * t1,
        m_e2 == x2 + u * t2 - w * t2,
        m_e3 == x3 + u * t3 - w * t3,
        m_ep == u - x1 * t1 - x2 * t2 - x3 * t3,
        m_en == w - x1 * t1 - x2 * t2 - x3 * t3,
        m_e12p == -(x2 * t1) + x1 * t2,
        m_e12n == -(x2 * t1) + x1 * t2,
        m_e13p == -(x3 * t1) + x1 * t3,
        m_e13n == -(x3 * t1) + x1 * t3,
        m_e1pn == w * t1 - u * t1,
        m_e23p == -(x3 * t2) + x2 * t3,
        m_e23n == -(x3 * t2) + x2 * t3,
        m_e2pn == w * t2 - u * t2,
        m_e3pn == w * t3 - u * t3,
        r1 == m_e1 - (-t1) * m_ep + (-t1) * m_en - (-t2) * m_e12p + (-t2) * m_e12n - (-t3) * m_e13p + (-t3) * m_e13n,
        r2 == m_e2 - (-t2) * m_ep + (-t2) * m_en + (-t1) * m_e12p - (-t1) * m_e12n - (-t3) * m_e23p + (-t3) * m_e23n,
        r3 == m_e3 - (-t3) * m_ep + (-t3) * m_en + (-t1) * m_e13p - (-t1) * m_e13n + (-t2) * m_e23p - (-t2) * m_e23n,
        rp == (-t1) * m_e1 + (-t2) * m_e2 + (-t3) * m_e3 + m_ep - (-t1) * m_e1pn - (-t2) * m_e2pn - (-t3) * m_e3pn,
        rn == (-t1) * m_e1 + (-t2) * m_e2 + (-t3) * m_e3 + m_en - (-t1) * m_e1pn - (-t2) * m_e2pn - (-t3) * m_e3pn,
    ensures
        ({
            let s = paired(x1, x2, x3, t1, t2, t3);
            &&& r1 == lifted(x1, t1, u, w) - (-t1) * (u - s) + (-t1) * (w - s)
            &&& r2 == lifted(x2, t2, u, w) - (-t2) * (u - s) + (-t2) * (w - s)
            &&& r3 == lifted(x3, t3, u, w) - (-t3) * (u - s) + (-t3) * (w - s)
            &&& rp == (-t1) * lifted(x1, t1, u, w) + (-t2) * lifted(x2, t2, u, w) + (-t3) * lifted(
                x3,
                t3,
                u,
                w,
            ) + (u - s) - (-t1) * twisted(t1, u, w) - (-t2) * twisted(t2, u, w) - (-t3) * twisted(
                t3,
                u,
                w,
            )
            &&& rn == (-t1) * lifted(x1, t1, u, w) + (-t2) * lifted(x2, t2, u, w) + (-t3) * lifted(
                x3,
                t3,
                u,
                w,
            ) + (w - s) - (-t1) * twisted(t1, u, w) - (-t2) * twisted(t2, u, w) - (-t3) * twisted(
                t3,
                u,
                w,
            )
        }),
{
}

/// Where a point takes its coefficients from a multivector.
pub proof fn lemma_point_picks<T: Field>(x: R410<T>)
    ensures
        Point::<T, Euclidean>::from_mv_spec(x).e1 == x.coeff(1),
        Point::<T, Euclidean>::from_mv_spec(x).e2 == x.coeff(2),
        Point::<T, Euclidean>::from_mv_spec(x).e3 == x.coeff(3),
        Point::<T, Euclidean>::from_mv_spec(x).ep == x.coeff(4),
        Point::<T, Euclidean>::from_mv_spec(x).en == x.coeff(5),
{
}

/// The coefficients of a point `x` moved by a Euclidean translator `t` with scalar one, in
/// the coefficients of the two.
pub proof fn lemma_moved_values<T: Field>(val: spec_fn(T) -> real, t: Translator<T>, x: Point<T>)
    requires
        homomorphic(val),
        at(val, t.s) == 1real,
    ensures
        ({
            let r = Point::<T>::from_mv_spec(
                t.into_mv_spec().reversed_sandwich_spec(x.into_mv_spec()),
            );
            let t1 = at(val, t.e1i);
            let t2 = at(val, t.e2i);
            let t3 = at(val, t.e3i);
            let x1 = at(val, x.e1);
            let x2 = at(val, x.e2);
            let x3 = at(val, x.e3);
            let u = at(val, x.ep);
            let w = at(val, x.en);
            let s = paired(x1, x2, x3, t1, t2, t3);
            &&& at(val, r.e1) == lifted(x1, t1, u, w) - (-t1) * (u - s) + (-t1) * (w - s)
            &&& at(val, r.e2) == lifted(x2, t2, u, w) - (-t2) * (u - s) + (-t2) * (w - s)
            &&& at(val, r.e3) == lifted(x3, t3, u, w) - (-t3) * (u - s) + (-t3) * (w - s)
            &&& at(val, r.ep) == (-t1) * lifted(x1, t1, u, w) + (-t2) * lifted(x2, t2, u, w) + (-t3)
                * lifted(x3, t3, u, w) + (u - s) - (-t1) * twisted(t1, u, w) - (-t2) * twisted(
                t2,
                u,
                w,
            ) - (-t3) * twisted(t3, u, w)
            &&& at(val, r.en) == (-t1) * lifted(x1, t1, u, w) + (-t2) * lifted(x2, t2, u, w) + (-t3)
                * lifted(x3, t3, u, w) + (w - s) - (-t1) * twisted(t1, u, w) - (-t2) * twisted(
                t2,
                u,
                w,
            ) - (-t3) * twisted(t3, u, w)
        }),
{
    let m = t.into_mv_spec().mul_spec(x.into_mv_spec());
    let rr = m.mul_spec(t.into_mv_spec().reverse_spec());
    let r = Point::<T>::from_mv_spec(rr);
    let am = shadow(val, m);
    lemma_translator_times_point(val, t, x);
    lemma_times_reversed_translator(val, m, t);
    lemma_point_picks(rr);
    lemma_sandwich_combined(
        at(val, t.e1i),
        at(val, t.e2i),
        at(val, t.e3i),
        at(val, x.e1),
        at(val, x.e2),
        at(val, x.e3),
        at(val, x.ep),
        at(val, x.en),
        am.e1,
        am.e2,
        am.e3,
        am.ep,
        am.en,
        am.e12p,
        am.e12n,
        am.e13p,
        am.e13n,
        am.e1pn,
        am.e23p,
        am.e23n,
        am.e2pn,
        am.e3pn,
        at(val, r.e1),
        at(val, r.e2),
        at(val, r.e3),
        at(val, r.ep),
        at(val, r.en),
    );
}

/// One coordinate of the moved point: the coordinate of the point, and the displacement.
proof fn lemma_coordinate_moved(h: real, d: real, p: real, t: real, u: real, w: real, s: real)
    requires
        h * 2real == 1real,
        u - w == -(2real * h),
        t == -(h * d),
    ensures
        lifted(p, t, u, w) - (-t) * (u - s) + (-t) * (w - s) == p + d,
{
    let z = h * d;
    let g = u - w;
    // (u - w) t = 2 (h z)
    lemma_distribute(t, u, w);
    lemma_sign_out(g, z);
    lemma_sign_out(2real * h, z);
    lemma_two_out(h, z);
    assert(g * t == 2real * (h * z));
    // z (u - s) - z (w - s) = z (u - w) = -2 (h z)
    lemma_distribute(z, u, s);
    lemma_distribute(z, w, s);
    lemma_distribute(z, u, w);
    lemma_commute(z, g);
    assert(z * (u - s) - z * (w - s) == -(2real * (h * z)));
    lemma_quarter(h, d);
}

/// What one coordinate adds to the coefficients of the moved point on the null pair: half the
/// square of the moved coordinate, less half the square of the coordinate.
proof fn lemma_coordinate_weight(h: real, d: real, p: real, t: real, u: real, w: real)
    requires
        h * 2real == 1real,
        u - w == -(2real * h),
        t == -(h * d),
    ensures
        (-t) * lifted(p, t, u, w) - (-t) * twisted(t, u, w) - p * t == h * ((p + d) * (p + d)) - h
            * (p * p),
{
    let z = h * d;
    let g = u - w;
    let k = h * z;
    lemma_distribute(t, u, w);
    lemma_sign_out(g, z);
    lemma_sign_out(2real * h, z);
    lemma_two_out(h, z);
    assert(g * t == 2real * k);
    assert(lifted(p, t, u, w) == p + 2real * k);
    assert(twisted(t, u, w) == -(2real * k));
    // z (p + 2 k) - z (-2 k) - p t
    lemma_distribute(z, p, 2real * k);
    lemma_two_out(z, k);
    lemma_sign_out(z, 2real * k);
    lemma_sign_out(p, z);
    assert((-t) * lifted(p, t, u, w) - (-t) * twisted(t, u, w) - p * t == z * p + p * z + 4real * (z
        * k));
    // in terms of p d and d d
    lemma_half_through(h, p, d);
    lemma_half_through(h, k, d);
    lemma_quarter(h, d);
    lemma_quarter_square(h, k, d);
    assert(z * k == h * (k * d));
    assert(4real * (z * k) == h * (d * d));
    // the square of the sum
    lemma_square_of_sum(p, d);
    lemma_distribute(h, p * p + 2real * (p * d), d * d);
    lemma_distribute(h, p * p, 2real * (p * d));
    lemma_two_out(h, p * d);
}

/// A quarter of a number, times the number, four times over.
proof fn lemma_quarter_square(h: real, k: real, d: real)
    by (nonlinear_arith)
    requires
        4real * k == d,
    ensures
        4real * (h * (k * d)) == h * (d * d),
{
}

/// A real number times a sum of three.
pub proof fn lemma_distribute3(h: real, a: real, b: real, c: real)
    ensures
        h * (a + b + c) == h * a + h * b + h * c,
{
    lemma_distribute(h, a + b, c);
    lemma_distribute(h, a, b);
}

/// A translator built from a displacement moves a point by that displacement: for vectors
/// `d` and `p`, the point of `p` moved by the translator of `d` is the point of `p + d`.
///
/// It is so wherever a field embedding `val` reads the scalars as real numbers.
pub proof fn lemma_translator_moves_point<T: Field>(
    val: spec_fn(T) -> real,
    d: Vector<T>,
    p: Vector<T>,
)
    requires
        embeds(val),
    ensures
        Point::<T>::from_mv_spec(
            d.into_translator_spec::<Euclidean>().into_mv_spec().reversed_sandwich_spec(
                p.into_point_spec::<Euclidean>().into_mv_spec(),
            ),
        ) == p.add_spec(d).into_point_spec::<Euclidean>(),
{
    let t = d.into_translator_spec::<Euclidean>();
    let x = p.into_point_spec::<Euclidean>();
    let r = Point::<T>::from_mv_spec(t.into_mv_spec().reversed_sandwich_spec(x.into_mv_spec()));
    let sum = p.add_spec(d);
    let e = sum.into_point_spec::<Euclidean>();
    let h = at(val, half_spec::<T>());
    let d1 = at(val, d.e1);
    let d2 = at(val, d.e2);
    let d3 = at(val, d.e3);
    let p1 = at(val, p.e1);
    let p2 = at(val, p.e2);
    let p3 = at(val, p.e3);
    let t1 = at(val, t.e1i);
    let t2 = at(val, t.e2i);
    let t3 = at(val, t.e3i);
    let u = at(val, x.ep);
    let w = at(val, x.en);
    let s = paired(p1, p2, p3, t1, t2, t3);
    lemma_half(val);
    lemma_translator_values(val, d);
    lemma_point_values(val, p);
    lemma_point_values(val, sum);
    lemma_moved_values(val, t, x);
    lemma_sum_values(val, p, d);
    // the coordinates
    lemma_coordinate_moved(h, d1, p1, t1, u, w, s);
    lemma_coordinate_moved(h, d2, p2, t2, u, w, s);
    lemma_coordinate_moved(h, d3, p3, t3, u, w, s);
    // the null pair
    lemma_coordinate_weight(h, d1, p1, t1, u, w);
    lemma_coordinate_weight(h, d2, p2, t2, u, w);
    lemma_coordinate_weight(h, d3, p3, t3, u, w);
    lemma_distribute3(h, p1 * p1, p2 * p2, p3 * p3);
    lemma_distribute3(
        h,
        (p1 + d1) * (p1 + d1),
        (p2 + d2) * (p2 + d2),
        (p3 + d3) * (p3 + d3),
    );
    assert(square(val, p) == p1 * p1 + p2 * p2 + p3 * p3);
    assert(square(val, sum) == (p1 + d1) * (p1 + d1) + (p2 + d2) * (p2 + d2) + (p3 + d3) * (p3
        + d3));
    assert(at(val, r.e1) == at(val, e.e1));
    assert(at(val, r.e2) == at(val, e.e2));
    assert(at(val, r.e3) == at(val, e.e3));
    assert(at(val, r.ep) == at(val, e.ep));
    assert(at(val, r.en) == at(val, e.en));
    lemma_same_value(val, r.e1, e.e1);
    lemma_same_value(val, r.e2, e.e2);
    lemma_same_value(val, r.e3, e.e3);
    lemma_same_value(val, r.ep, e.ep);
    lemma_same_value(val, r.en, e.en);
}

/// The two ways to the point of a vector agree: the lift through the products of
/// multivectors gives the point that is written out in coordinates.
///
/// It is so wherever a field embedding `val` reads the scalars as real numbers.
pub proof fn lemma_point_forms_agree<T: Field>(val: spec_fn(T) -> real, v: Vector<T>)
    requires
        embeds(val),
    ensures
        v.into_point_spec::<Euclidean>() == v.into_point_expanded_spec::<Euclidean>(),
{
    let a = v.into_point_spec::<Euclidean>();
    let b = v.into_point_expanded_spec::<Euclidean>();
    let h = at(val, half_spec::<T>());
    lemma_point_values(val, v);
    assert(at(val, v.norm_squared_spec()) == square(val, v)) by {
        reveal(homomorphic);
    }
    assert(at(val, b.ep) == square(val, v) * h - h && at(val, b.en) == square(val, v) * h + h) by {
        reveal(homomorphic);
    }
    lemma_commute(square(val, v), h);
    lemma_same_value(val, a.e1, b.e1);
    lemma_same_value(val, a.e2, b.e2);
    lemma_same_value(val, a.e3, b.e3);
    lemma_same_value(val, a.ep, b.ep);
    lemma_same_value(val, a.en, b.en);
}

/// Translators compose as displacements add: the translator of `a` times the translator of
/// `b` is the translator of `a + b`.
///
/// It is so wherever a field embedding `val` reads the scalars as real numbers.
pub proof fn lemma_translators_compose<T: Field>(val: spec_fn(T) -> real, a: Vector<T>, b: Vector<T>)
    requires
        embeds(val),
    ensures
        a.into_translator_spec::<Euclidean>().mul_spec(b.into_translator_spec::<Euclidean>())
            == a.add_spec(b).into_translator_spec::<Euclidean>(),
{
    let ta = a.into_translator_spec::<Euclidean>();
    let tb = b.into_translator_spec::<Euclidean>();
    let sum = a.add_spec(b);
    let e = sum.into_translator_spec::<Euclidean>();
    let p = ta.into_mv_spec().mul_spec(tb.into_mv_spec());
    let r = Translator::<T, Euclidean>::from_mv_spec(p);
    let x = shadow(val, ta.into_mv_spec());
    let y = shadow(val, tb.into_mv_spec());
    let h = at(val, half_spec::<T>());
    lemma_translator_values(val, a);
    lemma_translator_values(val, b);
    lemma_sum_values(val, a, b);
    lemma_translator_values(val, sum);
    lemma_translator_shadow(val, ta);
    lemma_translator_shadow(val, tb);
    lemma_translator_picks(p);
    lemma_product_coeff(val, ta.into_mv_spec(), tb.into_mv_spec(), 0);
    lemma_product_coeff(val, ta.into_mv_spec(), tb.into_mv_spec(), 8);
    lemma_product_coeff(val, ta.into_mv_spec(), tb.into_mv_spec(), 11);
    lemma_product_coeff(val, ta.into_mv_spec(), tb.into_mv_spec(), 13);
    lemma_translator_translator_s(x, y);
    lemma_translator_translator_e1p(x, y);
    lemma_translator_translator_e2p(x, y);
    lemma_translator_translator_e3p(x, y);
    lemma_one_times(x.s, y.s);
    lemma_one_times(x.s, y.e1p);
    lemma_one_times(x.s, y.e2p);
    lemma_one_times(x.s, y.e3p);
    lemma_one_times(y.s, x.e1p);
    lemma_one_times(y.s, x.e2p);
    lemma_one_times(y.s, x.e3p);
    lemma_distribute(h, at(val, a.e1), at(val, b.e1));
    lemma_distribute(h, at(val, a.e2), at(val, b.e2));
    lemma_distribute(h, at(val, a.e3), at(val, b.e3));
    assert(at(val, r.s) == at(val, e.s));
    assert(at(val, r.e1i) == at(val, e.e1i));
    assert(at(val, r.e2i) == at(val, e.e2i));
    assert(at(val, r.e3i) == at(val, e.e3i));
    lemma_same_value(val, r.s, e.s);
    lemma_same_value(val, r.e1i, e.e1i);
    lemma_same_value(val, r.e2i, e.e2i);
    lemma_same_value(val, r.e3i, e.e3i);
}

/// The shadow of a Euclidean flat point has each of its directions on both blades of the null
/// pair, and its weight on `epn`.
proof fn lemma_flat_point_shadow<T: Field>(val: spec_fn(T) -> real, f: FPoint<T>)
    requires
        homomorphic(val),
    ensures
        zero_outside(shadow(val, f.into_mv_spec()), |i: int| flat_blade(i)),
        shadow(val, f.into_mv_spec()).e1p == at(val, f.e1i),
        shadow(val, f.into_mv_spec()).e1n == at(val, f.e1i),
        shadow(val, f.into_mv_spec()).e2p == at(val, f.e2i),
        shadow(val, f.into_mv_spec()).e2n == at(val, f.e2i),
        shadow(val, f.into_mv_spec()).e3p == at(val, f.e3i),
        shadow(val, f.into_mv_spec()).e3n == at(val, f.e3i),
        shadow(val, f.into_mv_spec()).epn == at(val, f.epn),
{
    reveal(homomorphic);
    let m = f.into_mv_spec();
    assert forall|i: int| 0 <= i < 32 && !flat_blade(i) implies #[trigger] shadow(val, m).coeff(i)
        == 0real by {
        lemma_shadow_coeff(val, m, i);
    }
    lemma_shadow_coeff(val, m, 8);
    lemma_shadow_coeff(val, m, 9);
    lemma_shadow_coeff(val, m, 11);
    lemma_shadow_coeff(val, m, 12);
    lemma_shadow_coeff(val, m, 13);
    lemma_shadow_coeff(val, m, 14);
    lemma_shadow_coeff(val, m, 15);
}

/// Where a flat point takes its coefficients from a multivector.
proof fn lemma_flat_point_picks<T: Field>(x: R410<T>)
    ensures
        FPoint::<T, Euclidean>::from_mv_spec(x).e1i == x.coeff(8),
        FPoint::<T, Euclidean>::from_mv_spec(x).e2i == x.coeff(11),
        FPoint::<T, Euclidean>::from_mv_spec(x).e3i == x.coeff(13),
        FPoint::<T, Euclidean>::from_mv_spec(x).epn == x.coeff(15),
{
}

/// The flat point of the point of a vector has the coordinates of the vector, and the weight
/// minus one.
pub proof fn lemma_flat_point_values<T: Field>(val: spec_fn(T) -> real, v: Vector<T>)
    requires
        homomorphic(val),
    ensures
        at(val, v.into_point_spec::<Euclidean>().into_flat_spec().e1i) == at(val, v.e1),
        at(val, v.into_point_spec::<Euclidean>().into_flat_spec().e2i) == at(val, v.e2),
        at(val, v.into_point_spec::<Euclidean>().into_flat_spec().e3i) == at(val, v.e3),
        at(val, v.into_point_spec::<Euclidean>().into_flat_spec().epn) == -1real,
{
    let x = v.into_point_spec::<Euclidean>();
    let ni = infinity_spec::<T>(SpaceKind::Euclidean);
    let p = x.into_mv_spec().outer_spec(ni);
    let a = shadow(val, x.into_mv_spec());
    let n = shadow(val, ni);
    lemma_half(val);
    lemma_point_values(val, v);
    lemma_point_shadow(val, x);
    lemma_infinity_shadow::<T>(val);
    lemma_flat_point_picks(p);
    lemma_outer_coeff(val, x.into_mv_spec(), ni, 8);
    lemma_outer_coeff(val, x.into_mv_spec(), ni, 11);
    lemma_outer_coeff(val, x.into_mv_spec(), ni, 13);
    lemma_outer_coeff(val, x.into_mv_spec(), ni, 15);
    lemma_point_outer_infinity_e1p(a, n);
    lemma_point_outer_infinity_e2p(a, n);
    lemma_point_outer_infinity_e3p(a, n);
    lemma_point_outer_infinity_epn(a, n);
    lemma_one_times(n.ep, a.e1);
    lemma_one_times(n.ep, a.e2);
    lemma_one_times(n.ep, a.e3);
    lemma_one_times(n.en, a.ep);
    lemma_one_times(n.ep, a.en);
}

/// Twice the difference of two vectors has twice the differences of their coordinates.
proof fn lemma_double_difference_values<T: Field>(val: spec_fn(T) -> real, p: Vector<T>, q: Vector<T>)
    requires
        homomorphic(val),
    ensures
        at(val, p.sub_spec(q).mul_scalar_spec(two_spec::<T>()).e1) == 2real * (at(val, p.e1) - at(
            val,
            q.e1,
        )),
        at(val, p.sub_spec(q).mul_scalar_spec(two_spec::<T>()).e2) == 2real * (at(val, p.e2) - at(
            val,
            q.e2,
        )),
        at(val, p.sub_spec(q).mul_scalar_spec(two_spec::<T>()).e3) == 2real * (at(val, p.e3) - at(
            val,
            q.e3,
        )),
{
    let pm = p.into_mv_spec();
    let qm = q.into_mv_spec();
    let d = p.sub_spec(q);
    let dm = d.into_mv_spec();
    lemma_half(val);
    lemma_negated_coeff(val, qm, 1);
    lemma_negated_coeff(val, qm, 2);
    lemma_negated_coeff(val, qm, 3);
    lemma_sum_coeff(val, pm, qm.neg_spec(), 1);
    lemma_sum_coeff(val, pm, qm.neg_spec(), 2);
    lemma_sum_coeff(val, pm, qm.neg_spec(), 3);
    assert(at(val, d.e1) == at(val, p.e1) - at(val, q.e1) && at(val, d.e2) == at(val, p.e2) - at(
        val,
        q.e2,
    ) && at(val, d.e3) == at(val, p.e3) - at(val, q.e3));
    lemma_scaled_coeff(val, dm, two_spec::<T>(), 1);
    lemma_scaled_coeff(val, dm, two_spec::<T>(), 2);
    lemma_scaled_coeff(val, dm, two_spec::<T>(), 3);
    lemma_two_times(at(val, two_spec::<T>()), at(val, d.e1));
    lemma_two_times(at(val, two_spec::<T>()), at(val, d.e2));
    lemma_two_times(at(val, two_spec::<T>()), at(val, d.e3));
}

/// The product of two flat points is the translator over twice their separation: for
/// vectors `p` and `q`, the flat point of `p` times the flat point of `q` is the translator
/// of `2 (p - q)`.
///
/// It is so wherever a field embedding `val` reads the scalars as real numbers.
pub proof fn lemma_flat_points_translate<T: Field>(val: spec_fn(T) -> real, p: Vector<T>, q: Vector<T>)
    requires
        embeds(val),
    ensures
        p.into_point_spec::<Euclidean>().into_flat_spec().mul_spec(
            q.into_point_spec::<Euclidean>().into_flat_spec(),
        ) == p.sub_spec(q).mul_scalar_spec(two_spec::<T>()).into_translator_spec::<Euclidean>(),
{
    let f = p.into_point_spec::<Euclidean>().into_flat_spec();
    let g = q.into_point_spec::<Euclidean>().into_flat_spec();
    let d = p.sub_spec(q).mul_scalar_spec(two_spec::<T>());
    let e = d.into_translator_spec::<Euclidean>();
    let m = f.into_mv_spec().mul_spec(g.into_mv_spec());
    let r = Translator::<T, Euclidean>::from_mv_spec(m);
    let x = shadow(val, f.into_mv_spec());
    let y = shadow(val, g.into_mv_spec());
    let h = at(val, half_spec::<T>());
    lemma_half(val);
    lemma_flat_point_values(val, p);
    lemma_flat_point_values(val, q);
    lemma_flat_point_shadow(val, f);
    lemma_flat_point_shadow(val, g);
    lemma_double_difference_values(val, p, q);
    lemma_translator_values(val, d);
    lemma_translator_picks(m);
    lemma_product_coeff(val, f.into_mv_spec(), g.into_mv_spec(), 0);
    lemma_product_coeff(val, f.into_mv_spec(), g.into_mv_spec(), 8);
    lemma_product_coeff(val, f.into_mv_spec(), g.into_mv_spec(), 11);
    lemma_product_coeff(val, f.into_mv_spec(), g.into_mv_spec(), 13);
    lemma_flat_flat_s(x, y);
    lemma_flat_flat_e1p(x, y);
    lemma_flat_flat_e2p(x, y);
    lemma_flat_flat_e3p(x, y);
    lemma_minus_one_times(y.epn, x.epn);
    lemma_minus_one_times(y.epn, x.e1n);
    lemma_minus_one_times(y.epn, x.e2n);
    lemma_minus_one_times(y.epn, x.e3n);
    lemma_minus_one_times(x.epn, y.e1n);
    lemma_minus_one_times(x.epn, y.e2n);
    lemma_minus_one_times(x.epn, y.e3n);
    lemma_half_twice(h, at(val, p.e1) - at(val, q.e1));
    lemma_half_twice(h, at(val, p.e2) - at(val, q.e2));
    lemma_half_twice(h, at(val, p.e3) - at(val, q.e3));
    lemma_two_out(h, at(val, p.e1) - at(val, q.e1));
    lemma_two_out(h, at(val, p.e2) - at(val, q.e2));
    lemma_two_out(h, at(val, p.e3) - at(val, q.e3));
    assert(at(val, r.s) == at(val, e.s));
    assert(at(val, r.e1i) == at(val, e.e1i));
    assert(at(val, r.e2i) == at(val, e.e2i));
    assert(at(val, r.e3i) == at(val, e.e3i));
    lemma_same_value(val, r.s, e.s);
    lemma_same_value(val, r.e1i, e.e1i);
    lemma_same_value(val, r.e2i, e.e2i);
    lemma_same_value(val, r.e3i, e.e3i);
}

/// The sum of two vectors has the sums of their coordinates.
proof fn lemma_sum_values<T: Field>(val: spec_fn(T) -> real, p: Vector<T>, d: Vector<T>)
    requires
        homomorphic(val),
    ensures
        at(val, p.add_spec(d).e1) == at(val, p.e1) + at(val, d.e1),
        at(val, p.add_spec(d).e2) == at(val, p.e2) + at(val, d.e2),
        at(val, p.add_spec(d).e3) == at(val, p.e3) + at(val, d.e3),
{
    lemma_sum_coeff(val, p.into_mv_spec(), d.into_mv_spec(), 1);
    lemma_sum_coeff(val, p.into_mv_spec(), d.into_mv_spec(), 2);
    lemma_sum_coeff(val, p.into_mv_spec(), d.into_mv_spec(), 3);
}

} // verus!
