//! The centre of the sphere about a point is the point.
//!
//! A sphere about a point, given in dual form, taken to standard form and asked for its
//! centre, gives the point back, whatever the radius. The law is stated of scalars that a
//! field embedding reads as real numbers, and of points that are normalized null vectors.

use vstd::prelude::*;
use crate::blades::count_spec;
use crate::d3::dual::DSphere;
use crate::d3::motion::lemma_infinity_shadow;
use crate::d3::free::Vector;
use crate::d3::motion::lemma_point_picks;
use crate::d3::motion::lemma_point_shadow;
use crate::d3::motion::lemma_point_values;
use crate::d3::motion::square;
use crate::d3::round::Point;
use crate::d3::round::Sphere;
use crate::field::half_spec;
use crate::field::Field;
use crate::r410::exact::at;
use crate::r410::exact::embeds;
use crate::r410::exact::homomorphic;
use crate::r410::exact::lemma_commute;
use crate::r410::exact::lemma_distribute;
use crate::r410::exact::lemma_embedded_units;
use crate::r410::exact::lemma_half;
use crate::r410::exact::lemma_half_twice;
use crate::r410::exact::lemma_inner_coeff;
use crate::r410::exact::lemma_inverse_of_four;
use crate::r410::exact::lemma_inverse_of_minus_one;
use crate::r410::exact::lemma_minus_half_of_minus_twice;
use crate::r410::exact::lemma_minus_half_times;
use crate::r410::exact::lemma_minus_one_times;
use crate::r410::exact::lemma_minus_two_squared;
use crate::r410::exact::lemma_negated_coeff;
use crate::r410::exact::lemma_one_times;
use crate::r410::exact::lemma_product_coeff;
use crate::r410::exact::lemma_quarter_of_minus_two;
use crate::r410::exact::lemma_same_value;
use crate::r410::exact::lemma_scalar_on_the_right;
use crate::r410::exact::lemma_scaled_coeff;
use crate::r410::exact::lemma_shadow_coeff;
use crate::r410::exact::lemma_sign_out;
use crate::r410::exact::lemma_sum_coeff;
use crate::r410::exact::lemma_zero_times;
use crate::r410::exact::shadow;
use crate::r410::lemma_grade_signs_coeff;
use crate::r410::conjugate_negates;
use crate::r410::sparse::lemma_sphere_infinity_e123;
use crate::r410::sparse::lemma_sphere_infinity_e12p;
use crate::r410::sparse::lemma_sphere_infinity_e12n;
use crate::r410::sparse::lemma_sphere_infinity_e13p;
use crate::r410::sparse::lemma_sphere_infinity_e13n;
use crate::r410::sparse::lemma_sphere_infinity_e23p;
use crate::r410::sparse::lemma_sphere_infinity_e23n;
use crate::r410::sparse::lemma_sphere_infinity_e123pn;
use crate::r410::sparse::lemma_swept_sphere_e1;
use crate::r410::sparse::lemma_swept_sphere_e2;
use crate::r410::sparse::lemma_swept_sphere_e3;
use crate::r410::sparse::lemma_swept_sphere_ep;
use crate::r410::sparse::lemma_swept_sphere_en;
use crate::r410::sparse::lemma_swept_sphere_e12p;
use crate::r410::sparse::lemma_swept_sphere_e12n;
use crate::r410::sparse::lemma_swept_sphere_e13p;
use crate::r410::sparse::lemma_swept_sphere_e13n;
use crate::r410::sparse::lemma_swept_sphere_e1pn;
use crate::r410::sparse::lemma_swept_sphere_e23p;
use crate::r410::sparse::lemma_swept_sphere_e23n;
use crate::r410::sparse::lemma_swept_sphere_e2pn;
use crate::r410::sparse::lemma_swept_sphere_e3pn;
use crate::r410::sparse::infinity_blade;
use crate::r410::sparse::lemma_point_inner_infinity_elsewhere;
use crate::r410::sparse::lemma_point_inner_infinity_s;
use crate::r410::sparse::lemma_point_inner_point_s;
use crate::r410::sparse::lemma_sphere_infinity_elsewhere;
use crate::r410::sparse::lemma_swept_sphere_elsewhere;
use crate::r410::sparse::odd_blade;
use crate::r410::sparse::point_blade;
use crate::r410::sparse::scalar_blade;
use crate::r410::sparse::sphere_blade;
use crate::r410::sparse::swept_blade;
use crate::r410::sparse::zero_outside;
use crate::r410::units::exact_units;
use crate::r410::units::lemma_build_coeff;
use crate::r410::units::lemma_undual_complements;
use crate::r410::R410;
use crate::spaces::infinity_spec;
use crate::spaces::Euclidean;
use crate::spaces::SpaceKind;
use crate::Multivec;

verus! {

/// Whether `p` is a normalized null vector, as the point of a vector is when divided by its
/// weight: the difference of its coefficients on the null pair is one, and their sum is minus
/// the square of its coordinates.
pub open spec fn normalized<T: Field>(val: spec_fn(T) -> real, p: Point<T>) -> bool {
    &&& at(val, p.ep) - at(val, p.en) == 1real
    &&& at(val, p.ep) + at(val, p.en) == -(at(val, p.e1) * at(val, p.e1) + at(val, p.e2) * at(
        val,
        p.e2,
    ) + at(val, p.e3) * at(val, p.e3))
}

/// Where a dual sphere takes its coefficients from a multivector.
proof fn lemma_dual_sphere_picks<T: Field>(x: R410<T>)
    ensures
        DSphere::<T, Euclidean>::from_mv_spec(x).e1 == x.coeff(1),
        DSphere::<T, Euclidean>::from_mv_spec(x).e2 == x.coeff(2),
        DSphere::<T, Euclidean>::from_mv_spec(x).e3 == x.coeff(3),
        DSphere::<T, Euclidean>::from_mv_spec(x).ep == x.coeff(4),
        DSphere::<T, Euclidean>::from_mv_spec(x).en == x.coeff(5),
{
}

/// Where the coefficients of a point and of infinity stand in their multivectors.
proof fn lemma_point_places<T: Field>(p: Point<T>)
    ensures
        p.into_mv_spec().coeff(1) == p.e1,
        p.into_mv_spec().coeff(2) == p.e2,
        p.into_mv_spec().coeff(3) == p.e3,
        p.into_mv_spec().coeff(4) == p.ep,
        p.into_mv_spec().coeff(5) == p.en,
        infinity_spec::<T>(SpaceKind::Euclidean).coeff(1) == T::zero_spec(),
        infinity_spec::<T>(SpaceKind::Euclidean).coeff(2) == T::zero_spec(),
        infinity_spec::<T>(SpaceKind::Euclidean).coeff(3) == T::zero_spec(),
        infinity_spec::<T>(SpaceKind::Euclidean).coeff(4) == T::one_spec(),
        infinity_spec::<T>(SpaceKind::Euclidean).coeff(5) == T::one_spec(),
{
}

/// A coefficient of a multivector less a multiple of infinity.
proof fn lemma_less_infinity_coeff<T: Field>(val: spec_fn(T) -> real, m: R410<T>, t: T, c: int)
    requires
        homomorphic(val),
        1 <= c <= 5,
    ensures
        at(
            val,
            m.sub_spec(infinity_spec::<T>(SpaceKind::Euclidean).mul_scalar_spec(t)).coeff(c),
        ) == at(val, m.coeff(c)) - at(val, t) * at(
            val,
            infinity_spec::<T>(SpaceKind::Euclidean).coeff(c),
        ),
{
    let ni = infinity_spec::<T>(SpaceKind::Euclidean);
    let y = ni.mul_scalar_spec(t);
    lemma_scaled_coeff(val, ni, t, c);
    lemma_negated_coeff(val, y, c);
    lemma_sum_coeff(val, m, y.neg_spec(), c);
}

/// The sphere about a point in dual form: the point, less a multiple of infinity.
pub proof fn lemma_dual_sphere_values<T: Field>(val: spec_fn(T) -> real, p: Point<T>, r: T)
    requires
        homomorphic(val),
    ensures
        at(val, p.into_sphere_spec(r).e1) == at(val, p.e1),
        at(val, p.into_sphere_spec(r).e2) == at(val, p.e2),
        at(val, p.into_sphere_spec(r).e3) == at(val, p.e3),
        at(val, p.into_sphere_spec(r).ep) - at(val, p.into_sphere_spec(r).en) == at(val, p.ep) - at(
            val,
            p.en,
        ),
{
    let t = r.mul_spec(r).mul_spec(half_spec::<T>());
    let ni = infinity_spec::<T>(SpaceKind::Euclidean);
    let m = p.into_mv_spec();
    let d = m.sub_spec(ni.mul_scalar_spec(t));
    lemma_point_places(p);
    lemma_dual_sphere_picks(d);
    lemma_less_infinity_coeff(val, m, t, 1);
    lemma_less_infinity_coeff(val, m, t, 2);
    lemma_less_infinity_coeff(val, m, t, 3);
    lemma_less_infinity_coeff(val, m, t, 4);
    lemma_less_infinity_coeff(val, m, t, 5);
    assert(at(val, T::zero_spec()) == 0real && at(val, T::one_spec()) == 1real) by {
        reveal(homomorphic);
    }
    lemma_zero_times(at(val, t), at(val, ni.coeff(1)));
    lemma_zero_times(at(val, t), at(val, ni.coeff(2)));
    lemma_zero_times(at(val, t), at(val, ni.coeff(3)));
    lemma_one_times(at(val, ni.coeff(4)), at(val, t));
    lemma_one_times(at(val, ni.coeff(5)), at(val, t));
}

/// Where a sphere takes its coefficients from a multivector.
proof fn lemma_sphere_picks<T: Field>(x: R410<T>)
    ensures
        Sphere::<T, Euclidean>::from_mv_spec(x).e123p == x.coeff(26),
        Sphere::<T, Euclidean>::from_mv_spec(x).e123n == x.coeff(27),
        Sphere::<T, Euclidean>::from_mv_spec(x).e12pn == x.coeff(28),
        Sphere::<T, Euclidean>::from_mv_spec(x).e13pn == x.coeff(29),
        Sphere::<T, Euclidean>::from_mv_spec(x).e23pn == x.coeff(30),
{
}

/// The coefficients on the blades of a sphere of what a multivector is the dual of.
proof fn lemma_uncomplement_on_sphere<T: Field>(m: R410<T>)
    ensures
        m.uncomplement_spec().coeff(26) == m.en.neg_spec(),
        m.uncomplement_spec().coeff(27) == m.ep.neg_spec(),
        m.uncomplement_spec().coeff(28) == m.e3,
        m.uncomplement_spec().coeff(29) == m.e2.neg_spec(),
        m.uncomplement_spec().coeff(30) == m.e1,
{
    lemma_build_coeff(|c: int| m.undual_coeff(c), 26);
    lemma_build_coeff(|c: int| m.undual_coeff(c), 27);
    lemma_build_coeff(|c: int| m.undual_coeff(c), 28);
    lemma_build_coeff(|c: int| m.undual_coeff(c), 29);
    lemma_build_coeff(|c: int| m.undual_coeff(c), 30);
}

/// A dual sphere taken to standard form has its coefficients on the complementary blades,
/// with signs.
pub proof fn lemma_undual_sphere<T: Field>(d: DSphere<T>)
    requires
        exact_units::<T>(),
    ensures
        d.undual_spec().e123p == d.en.neg_spec(),
        d.undual_spec().e123n == d.ep.neg_spec(),
        d.undual_spec().e12pn == d.e3,
        d.undual_spec().e13pn == d.e2.neg_spec(),
        d.undual_spec().e23pn == d.e1,
{
    let m = d.into_mv_spec();
    let w = m.undual_spec();
    lemma_undual_complements(m);
    lemma_uncomplement_on_sphere(m);
    lemma_sphere_picks(w);
}

/// A dual sphere taken to standard form, in real numbers.
pub proof fn lemma_undual_sphere_values<T: Field>(val: spec_fn(T) -> real, d: DSphere<T>)
    requires
        homomorphic(val),
        exact_units::<T>(),
    ensures
        at(val, d.undual_spec().e123p) == -at(val, d.en),
        at(val, d.undual_spec().e123n) == -at(val, d.ep),
        at(val, d.undual_spec().e12pn) == at(val, d.e3),
        at(val, d.undual_spec().e13pn) == -at(val, d.e2),
        at(val, d.undual_spec().e23pn) == at(val, d.e1),
{
    lemma_undual_sphere(d);
    reveal(homomorphic);
}

/// The shadow of a sphere has its coefficients on the five blades of grade four, and nothing
/// else.
proof fn lemma_sphere_shadow<T: Field>(val: spec_fn(T) -> real, s: Sphere<T>)
    requires
        homomorphic(val),
    ensures
        zero_outside(shadow(val, s.into_mv_spec()), |i: int| sphere_blade(i)),
        shadow(val, s.into_mv_spec()).e123p == at(val, s.e123p),
        shadow(val, s.into_mv_spec()).e123n == at(val, s.e123n),
        shadow(val, s.into_mv_spec()).e12pn == at(val, s.e12pn),
        shadow(val, s.into_mv_spec()).e13pn == at(val, s.e13pn),
        shadow(val, s.into_mv_spec()).e23pn == at(val, s.e23pn),
{
    reveal(homomorphic);
    let m = s.into_mv_spec();
    assert forall|i: int| 0 <= i < 32 && !sphere_blade(i) implies #[trigger] shadow(val, m).coeff(
        i,
    ) == 0real by {
        lemma_shadow_coeff(val, m, i);
    }
    lemma_shadow_coeff(val, m, 26);
    lemma_shadow_coeff(val, m, 27);
    lemma_shadow_coeff(val, m, 28);
    lemma_shadow_coeff(val, m, 29);
    lemma_shadow_coeff(val, m, 30);
}

/// A sphere swept to infinity: the coefficients of the product of a sphere with infinity.
proof fn lemma_swept_values<T: Field>(val: spec_fn(T) -> real, s: Sphere<T>)
    requires
        homomorphic(val),
    ensures
        ({
            let a = shadow(val, s.into_mv_spec().mul_spec(infinity_spec::<T>(SpaceKind::Euclidean)));
            let s1 = at(val, s.e123p);
            let s2 = at(val, s.e123n);
            let s3 = at(val, s.e12pn);
            let s4 = at(val, s.e13pn);
            let s5 = at(val, s.e23pn);
            &&& zero_outside(a, |i: int| swept_blade(i))
            &&& a.e123 == s1 - s2
            &&& a.e123pn == s1 - s2
            &&& a.e12p == -s3
            &&& a.e12n == -s3
            &&& a.e13p == -s4
            &&& a.e13n == -s4
            &&& a.e23p == -s5
            &&& a.e23n == -s5
        }),
{
    let sm = s.into_mv_spec();
    let ni = infinity_spec::<T>(SpaceKind::Euclidean);
    let m = sm.mul_spec(ni);
    let x = shadow(val, sm);
    let n = shadow(val, ni);
    let a = shadow(val, m);
    let s1 = at(val, s.e123p);
    let s2 = at(val, s.e123n);
    let s3 = at(val, s.e12pn);
    let s4 = at(val, s.e13pn);
    let s5 = at(val, s.e23pn);
    lemma_sphere_shadow(val, s);
    lemma_infinity_shadow::<T>(val);
    lemma_one_times(n.ep, x.e123p);
    lemma_one_times(n.ep, x.e123n);
    lemma_one_times(n.ep, x.e12pn);
    lemma_one_times(n.ep, x.e13pn);
    lemma_one_times(n.ep, x.e23pn);
    lemma_one_times(n.en, x.e123p);
    lemma_one_times(n.en, x.e123n);
    lemma_one_times(n.en, x.e12pn);
    lemma_one_times(n.en, x.e13pn);
    lemma_one_times(n.en, x.e23pn);
    assert(a.e123 == s1 - s2) by {
        lemma_shadow_coeff(val, m, 16);
        lemma_product_coeff(val, sm, ni, 16);
        lemma_sphere_infinity_e123(x, n);
    }
    assert(a.e12p == -s3) by {
        lemma_shadow_coeff(val, m, 17);
        lemma_product_coeff(val, sm, ni, 17);
        lemma_sphere_infinity_e12p(x, n);
    }
    assert(a.e12n == -s3) by {
        lemma_shadow_coeff(val, m, 18);
        lemma_product_coeff(val, sm, ni, 18);
        lemma_sphere_infinity_e12n(x, n);
    }
    assert(a.e13p == -s4) by {
        lemma_shadow_coeff(val, m, 19);
        lemma_product_coeff(val, sm, ni, 19);
        lemma_sphere_infinity_e13p(x, n);
    }
    assert(a.e13n == -s4) by {
        lemma_shadow_coeff(val, m, 20);
        lemma_product_coeff(val, sm, ni, 20);
        lemma_sphere_infinity_e13n(x, n);
    }
    assert(a.e23p == -s5) by {
        lemma_shadow_coeff(val, m, 22);
        lemma_product_coeff(val, sm, ni, 22);
        lemma_sphere_infinity_e23p(x, n);
    }
    assert(a.e23n == -s5) by {
        lemma_shadow_coeff(val, m, 23);
        lemma_product_coeff(val, sm, ni, 23);
        lemma_sphere_infinity_e23n(x, n);
    }
    assert(a.e123pn == s1 - s2) by {
        lemma_shadow_coeff(val, m, 31);
        lemma_product_coeff(val, sm, ni, 31);
        lemma_sphere_infinity_e123pn(x, n);
    }
    assert forall|i: int| 0 <= i < 32 && !swept_blade(i) implies #[trigger] a.coeff(i) == 0real by {
        lemma_shadow_coeff(val, m, i);
        lemma_product_coeff(val, sm, ni, i);
        lemma_sphere_infinity_elsewhere(x, n, i);
    }
}

/// The coefficients of the product of a sphere swept to infinity with the sphere, as far as
/// any term can reach them.
proof fn lemma_numerator_products<T: Field>(val: spec_fn(T) -> real, s: Sphere<T>)
    requires
        homomorphic(val),
    ensures
        ({
            let ni = infinity_spec::<T>(SpaceKind::Euclidean);
            let x = shadow(val, s.into_mv_spec());
            let a = shadow(val, s.into_mv_spec().mul_spec(ni));
            let b = shadow(val, s.into_mv_spec().mul_spec(ni).mul_spec(s.into_mv_spec()));
            &&& b.e1 == x.e123p * a.e23p - x.e123n * a.e23n - x.e23pn * a.e123pn
            &&& b.e2 == -(x.e123p * a.e13p) + x.e123n * a.e13n + x.e13pn * a.e123pn
            &&& b.e3 == x.e123p * a.e12p - x.e123n * a.e12n - x.e12pn * a.e123pn
            &&& b.ep == -(x.e123p * a.e123) - x.e12pn * a.e12n - x.e13pn * a.e13n - x.e23pn * a.e23n + x.e123n * a.e123pn
            &&& b.en == -(x.e123n * a.e123) - x.e12pn * a.e12p - x.e13pn * a.e13p - x.e23pn * a.e23p + x.e123p * a.e123pn
            &&& b.e12p == -(x.e23pn * a.e13n) + x.e13pn * a.e23n
            &&& b.e12n == -(x.e23pn * a.e13p) + x.e13pn * a.e23p
            &&& b.e13p == x.e23pn * a.e12n - x.e12pn * a.e23n
            &&& b.e13n == x.e23pn * a.e12p - x.e12pn * a.e23p
            &&& b.e1pn == -(x.e23pn * a.e123) + x.e123n * a.e23p - x.e123p * a.e23n
            &&& b.e23p == -(x.e13pn * a.e12n) + x.e12pn * a.e13n
            &&& b.e23n == -(x.e13pn * a.e12p) + x.e12pn * a.e13p
            &&& b.e2pn == x.e13pn * a.e123 - x.e123n * a.e13p + x.e123p * a.e13n
            &&& b.e3pn == -(x.e12pn * a.e123) + x.e123n * a.e12p - x.e123p * a.e12n
        }),
{
    let sm = s.into_mv_spec();
    let ni = infinity_spec::<T>(SpaceKind::Euclidean);
    let am = sm.mul_spec(ni);
    let m = am.mul_spec(sm);
    let x = shadow(val, sm);
    let a = shadow(val, am);
    let b = shadow(val, m);
    lemma_sphere_shadow(val, s);
    lemma_swept_values(val, s);
    assert(b.e1 == x.e123p * a.e23p - x.e123n * a.e23n - x.e23pn * a.e123pn) by {
        lemma_shadow_coeff(val, m, 1);
        lemma_product_coeff(val, am, sm, 1);
        lemma_swept_sphere_e1(a, x);
    }
    assert(b.e2 == -(x.e123p * a.e13p) + x.e123n * a.e13n + x.e13pn * a.e123pn) by {
        lemma_shadow_coeff(val, m, 2);
        lemma_product_coeff(val, am, sm, 2);
        lemma_swept_sphere_e2(a, x);
    }
    assert(b.e3 == x.e123p * a.e12p - x.e123n * a.e12n - x.e12pn * a.e123pn) by {
        lemma_shadow_coeff(val, m, 3);
        lemma_product_coeff(val, am, sm, 3);
        lemma_swept_sphere_e3(a, x);
    }
    assert(b.ep == -(x.e123p * a.e123) - x.e12pn * a.e12n - x.e13pn * a.e13n - x.e23pn * a.e23n + x.e123n * a.e123pn) by {
        lemma_shadow_coeff(val, m, 4);
        lemma_product_coeff(val, am, sm, 4);
        lemma_swept_sphere_ep(a, x);
    }
    assert(b.en == -(x.e123n * a.e123) - x.e12pn * a.e12p - x.e13pn * a.e13p - x.e23pn * a.e23p + x.e123p * a.e123pn) by {
        lemma_shadow_coeff(val, m, 5);
        lemma_product_coeff(val, am, sm, 5);
        lemma_swept_sphere_en(a, x);
    }
    assert(b.e12p == -(x.e23pn * a.e13n) + x.e13pn * a.e23n) by {
        lemma_shadow_coeff(val, m, 17);
        lemma_product_coeff(val, am, sm, 17);
        lemma_swept_sphere_e12p(a, x);
    }
    assert(b.e12n == -(x.e23pn * a.e13p) + x.e13pn * a.e23p) by {
        lemma_shadow_coeff(val, m, 18);
        lemma_product_coeff(val, am, sm, 18);
        lemma_swept_sphere_e12n(a, x);
    }
    assert(b.e13p == x.e23pn * a.e12n - x.e12pn * a.e23n) by {
        lemma_shadow_coeff(val, m, 19);
        lemma_product_coeff(val, am, sm, 19);
        lemma_swept_sphere_e13p(a, x);
    }
    assert(b.e13n == x.e23pn * a.e12p - x.e12pn * a.e23p) by {
        lemma_shadow_coeff(val, m, 20);
        lemma_product_coeff(val, am, sm, 20);
        lemma_swept_sphere_e13n(a, x);
    }
    assert(b.e1pn == -(x.e23pn * a.e123) + x.e123n * a.e23p - x.e123p * a.e23n) by {
        lemma_shadow_coeff(val, m, 21);
        lemma_product_coeff(val, am, sm, 21);
        lemma_swept_sphere_e1pn(a, x);
    }
    assert(b.e23p == -(x.e13pn * a.e12n) + x.e12pn * a.e13n) by {
        lemma_shadow_coeff(val, m, 22);
        lemma_product_coeff(val, am, sm, 22);
        lemma_swept_sphere_e23p(a, x);
    }
    assert(b.e23n == -(x.e13pn * a.e12p) + x.e12pn * a.e13p) by {
        lemma_shadow_coeff(val, m, 23);
        lemma_product_coeff(val, am, sm, 23);
        lemma_swept_sphere_e23n(a, x);
    }
    assert(b.e2pn == x.e13pn * a.e123 - x.e123n * a.e13p + x.e123p * a.e13n) by {
        lemma_shadow_coeff(val, m, 24);
        lemma_product_coeff(val, am, sm, 24);
        lemma_swept_sphere_e2pn(a, x);
    }
    assert(b.e3pn == -(x.e12pn * a.e123) + x.e123n * a.e12p - x.e123p * a.e12n) by {
        lemma_shadow_coeff(val, m, 25);
        lemma_product_coeff(val, am, sm, 25);
        lemma_swept_sphere_e3pn(a, x);
    }
}

/// The sandwich of infinity in a sphere, in real numbers: what is left of the products of
/// the coefficients `s1 ... s5` of the sphere when `s1 - s2` is one.
proof fn lemma_numerator_algebra(
    s1: real,
    s2: real,
    s3: real,
    s4: real,
    s5: real,
    a_e123: real,
    a_e12p: real,
    a_e12n: real,
    a_e13p: real,
    a_e13n: real,
    a_e23p: real,
    a_e23n: real,
    a_e123pn: real,
    b_e1: real,
    b_e2: real,
    b_e3: real,
    b_ep: real,
    b_en: real,
    b_e12p: real,
    b_e12n: real,
    b_e13p: real,
    b_e13n: real,
    b_e1pn: real,
    b_e23p: real,
    b_e23n: real,
    b_e2pn: real,
    b_e3pn: real,
)
    requires
        s1 - s2 == 1real,
        a_e123 == s1 - s2,
        a_e12p == -s3,
        a_e12n == -s3,
        a_e13p == -s4,
        a_e13n == -s4,
        a_e23p == -s5,
        a_e23n == -s5,
        a_e123pn == s1 - s2,
        b_e1 == s1 * a_e23p - s2 * a_e23n - s5 * a_e123pn,
        b_e2 == -(s1 * a_e13p) + s2 * a_e13n + s4 * a_e123pn,
        b_e3 == s1 * a_e12p - s2 * a_e12n - s3 * a_e123pn,
        b_ep == -(s1 * a_e123) - s3 * a_e12n - s4 * a_e13n - s5 * a_e23n + s2 * a_e123pn,
        b_en == -(s2 * a_e123) - s3 * a_e12p - s4 * a_e13p - s5 * a_e23p + s1 * a_e123pn,
        b_e12p == -(s5 * a_e13n) + s4 * a_e23n,
        b_e12n == -(s5 * a_e13p) + s4 * a_e23p,
        b_e13p == s5 * a_e12n - s3 * a_e23n,
        b_e13n == s5 * a_e12p - s3 * a_e23p,
        b_e1pn == -(s5 * a_e123) + s2 * a_e23p - s1 * a_e23n,
        b_e23p == -(s4 * a_e12n) + s3 * a_e13n,
        b_e23n == -(s4 * a_e12p) + s3 * a_e13p,
        b_e2pn == s4 * a_e123 - s2 * a_e13p + s1 * a_e13n,
        b_e3pn == -(s3 * a_e123) + s2 * a_e12p - s1 * a_e12n,
    ensures
        b_e1 == -(2real * s5),
        b_e2 == 2real * s4,
        b_e3 == -(2real * s3),
        b_ep == s3 * s3 + s4 * s4 + s5 * s5 - 1real,
        b_en == s3 * s3 + s4 * s4 + s5 * s5 + 1real,
        b_e12p == 0real,
        b_e12n == 0real,
        b_e13p == 0real,
        b_e13n == 0real,
        b_e1pn == 0real,
        b_e23p == 0real,
        b_e23n == 0real,
        b_e2pn == 0real,
        b_e3pn == 0real,
{
    lemma_sign_out(s1, s1);
    lemma_sign_out(s1, s2);
    lemma_sign_out(s1, s3);
    lemma_sign_out(s1, s4);
    lemma_sign_out(s1, s5);
    lemma_sign_out(s2, s1);
    lemma_sign_out(s2, s2);
    lemma_sign_out(s2, s3);
    lemma_sign_out(s2, s4);
    lemma_sign_out(s2, s5);
    lemma_sign_out(s3, s1);
    lemma_sign_out(s3, s2);
    lemma_sign_out(s3, s3);
    lemma_sign_out(s3, s4);
    lemma_sign_out(s3, s5);
    lemma_sign_out(s4, s1);
    lemma_sign_out(s4, s2);
    lemma_sign_out(s4, s3);
    lemma_sign_out(s4, s4);
    lemma_sign_out(s4, s5);
    lemma_sign_out(s5, s1);
    lemma_sign_out(s5, s2);
    lemma_sign_out(s5, s3);
    lemma_sign_out(s5, s4);
    lemma_sign_out(s5, s5);
    lemma_commute(s1, s2);
    lemma_commute(s1, s3);
    lemma_commute(s1, s4);
    lemma_commute(s1, s5);
    lemma_commute(s2, s3);
    lemma_commute(s2, s4);
    lemma_commute(s2, s5);
    lemma_commute(s3, s4);
    lemma_commute(s3, s5);
    lemma_commute(s4, s5);
    lemma_distribute(s1, s1, s2);
    lemma_one_times(s1 - s2, s1);
    lemma_distribute(s2, s1, s2);
    lemma_one_times(s1 - s2, s2);
    lemma_distribute(s3, s1, s2);
    lemma_one_times(s1 - s2, s3);
    lemma_distribute(s4, s1, s2);
    lemma_one_times(s1 - s2, s4);
    lemma_distribute(s5, s1, s2);
    lemma_one_times(s1 - s2, s5);
}

/// The coefficients outside the blades of a point of the product of a sphere swept to
/// infinity with the sphere that no term can reach.
proof fn lemma_numerator_elsewhere<T: Field>(val: spec_fn(T) -> real, s: Sphere<T>, i: int)
    requires
        homomorphic(val),
        0 <= i < 32,
        !odd_blade(i),
    ensures
        shadow(
            val,
            s.into_mv_spec().mul_spec(infinity_spec::<T>(SpaceKind::Euclidean)).mul_spec(
                s.into_mv_spec(),
            ),
        ).coeff(i) == 0real,
{
    let sm = s.into_mv_spec();
    let ni = infinity_spec::<T>(SpaceKind::Euclidean);
    let am = sm.mul_spec(ni);
    let m = am.mul_spec(sm);
    lemma_sphere_shadow(val, s);
    lemma_swept_values(val, s);
    lemma_shadow_coeff(val, m, i);
    lemma_product_coeff(val, am, sm, i);
    lemma_swept_sphere_elsewhere(shadow(val, am), shadow(val, sm), i);
}

/// The sandwich of infinity in a sphere whose first two coefficients differ by one, on the
/// blades that a term can reach.
proof fn lemma_numerator_entries<T: Field>(val: spec_fn(T) -> real, s: Sphere<T>)
    requires
        homomorphic(val),
        at(val, s.e123p) - at(val, s.e123n) == 1real,
    ensures
        ({
            let ni = infinity_spec::<T>(SpaceKind::Euclidean);
            let b = shadow(val, s.into_mv_spec().mul_spec(ni).mul_spec(s.into_mv_spec()));
            let s3 = at(val, s.e12pn);
            let s4 = at(val, s.e13pn);
            let s5 = at(val, s.e23pn);
            &&& b.e1 == -(2real * s5)
            &&& b.e2 == 2real * s4
            &&& b.e3 == -(2real * s3)
            &&& b.ep == s3 * s3 + s4 * s4 + s5 * s5 - 1real
            &&& b.en == s3 * s3 + s4 * s4 + s5 * s5 + 1real
            &&& b.e12p == 0real
            &&& b.e12n == 0real
            &&& b.e13p == 0real
            &&& b.e13n == 0real
            &&& b.e1pn == 0real
            &&& b.e23p == 0real
            &&& b.e23n == 0real
            &&& b.e2pn == 0real
            &&& b.e3pn == 0real
        }),
{
    let sm = s.into_mv_spec();
    let ni = infinity_spec::<T>(SpaceKind::Euclidean);
    let x = shadow(val, sm);
    let a = shadow(val, sm.mul_spec(ni));
    let b = shadow(val, sm.mul_spec(ni).mul_spec(sm));
    let s1 = at(val, s.e123p);
    let s2 = at(val, s.e123n);
    let s3 = at(val, s.e12pn);
    let s4 = at(val, s.e13pn);
    let s5 = at(val, s.e23pn);
    lemma_sphere_shadow(val, s);
    lemma_swept_values(val, s);
    lemma_numerator_products(val, s);
    lemma_numerator_algebra(
        s1,
        s2,
        s3,
        s4,
        s5,
        a.e123,
        a.e12p,
        a.e12n,
        a.e13p,
        a.e13n,
        a.e23p,
        a.e23n,
        a.e123pn,
        b.e1,
        b.e2,
        b.e3,
        b.ep,
        b.en,
        b.e12p,
        b.e12n,
        b.e13p,
        b.e13n,
        b.e1pn,
        b.e23p,
        b.e23n,
        b.e2pn,
        b.e3pn,
    );
}

/// A real multivector that is zero wherever a sphere swept to infinity times a sphere cannot
/// reach, and on the blades of grade three that it can reach, has the shape of a point.
proof fn lemma_point_shaped(b: R410<real>)
    requires
        forall|i: int| 0 <= i < 32 && !odd_blade(i) ==> #[trigger] b.coeff(i) == 0real,
        b.e12p == 0real,
        b.e12n == 0real,
        b.e13p == 0real,
        b.e13n == 0real,
        b.e1pn == 0real,
        b.e23p == 0real,
        b.e23n == 0real,
        b.e2pn == 0real,
        b.e3pn == 0real,
    ensures
        zero_outside(b, |i: int| point_blade(i)),
{
}

/// The sandwich of infinity in a sphere whose first two coefficients differ by one: minus
/// twice the coordinates that the sphere holds, and on the null pair the square of those
/// coordinates, less one and more one.
proof fn lemma_numerator_values<T: Field>(val: spec_fn(T) -> real, s: Sphere<T>)
    requires
        homomorphic(val),
        at(val, s.e123p) - at(val, s.e123n) == 1real,
    ensures
        ({
            let ni = infinity_spec::<T>(SpaceKind::Euclidean);
            let b = shadow(val, s.into_mv_spec().mul_spec(ni).mul_spec(s.into_mv_spec()));
            let s3 = at(val, s.e12pn);
            let s4 = at(val, s.e13pn);
            let s5 = at(val, s.e23pn);
            &&& zero_outside(b, |i: int| point_blade(i))
            &&& b.e1 == -(2real * s5)
            &&& b.e2 == 2real * s4
            &&& b.e3 == -(2real * s3)
            &&& b.ep == s3 * s3 + s4 * s4 + s5 * s5 - 1real
            &&& b.en == s3 * s3 + s4 * s4 + s5 * s5 + 1real
        }),
{
    let ni = infinity_spec::<T>(SpaceKind::Euclidean);
    let b = shadow(val, s.into_mv_spec().mul_spec(ni).mul_spec(s.into_mv_spec()));
    lemma_numerator_entries(val, s);
    assert forall|i: int| 0 <= i < 32 && !odd_blade(i) implies #[trigger] b.coeff(i) == 0real by {
        lemma_numerator_elsewhere(val, s, i);
    }
    lemma_point_shaped(b);
}

/// The inner product with infinity of a multivector that has the shape of a point and whose
/// coefficients on the null pair differ by minus two: the scalar minus two.
proof fn lemma_denominator_values<T: Field>(val: spec_fn(T) -> real, m: R410<T>)
    requires
        homomorphic(val),
        zero_outside(shadow(val, m), |i: int| point_blade(i)),
        shadow(val, m).ep - shadow(val, m).en == -2real,
    ensures
        at(val, m.inner_spec(infinity_spec::<T>(SpaceKind::Euclidean)).coeff(0)) == -2real,
        forall|c: int|
            1 <= c < 32 ==> at(
                val,
                #[trigger] m.inner_spec(infinity_spec::<T>(SpaceKind::Euclidean)).coeff(c),
            ) == 0real,
{
    let ni = infinity_spec::<T>(SpaceKind::Euclidean);
    let q = m.inner_spec(ni);
    let a = shadow(val, m);
    let n = shadow(val, ni);
    lemma_infinity_shadow::<T>(val);
    lemma_inner_coeff(val, m, ni, 0);
    lemma_point_inner_infinity_s(a, n);
    lemma_one_times(n.ep, a.ep);
    lemma_one_times(n.en, a.en);
    assert forall|c: int| 1 <= c < 32 implies at(val, #[trigger] q.coeff(c)) == 0real by {
        lemma_inner_coeff(val, m, ni, c);
        lemma_point_inner_infinity_elsewhere(a, n, c);
    }
}

/// The inverse of a multivector that is the scalar minus two: the scalar minus a half.
proof fn lemma_inverse_values<T: Field>(val: spec_fn(T) -> real, q: R410<T>)
    requires
        homomorphic(val),
        at(val, q.coeff(0)) == -2real,
        forall|c: int| 1 <= c < 32 ==> at(val, #[trigger] q.coeff(c)) == 0real,
    ensures
        2real * at(val, q.recip_spec().coeff(0)) == -1real,
        forall|c: int| 1 <= c < 32 ==> at(val, #[trigger] q.recip_spec().coeff(c)) == 0real,
{
    let cj = q.conjugate_spec();
    let ns = q.norm_squared_spec();
    let rn = at(val, ns.recip_spec());
    let a = shadow(val, q);
    let b = shadow(val, cj);
    assert(at(val, cj.coeff(0)) == -2real) by {
        lemma_grade_signs_coeff(q, |k: int| conjugate_negates(k), 0);
        assert(count_spec(0) == 0);
    }
    assert forall|c: int| 1 <= c < 32 implies at(val, #[trigger] cj.coeff(c)) == 0real by {
        lemma_grade_signs_coeff(q, |k: int| conjugate_negates(k), c);
        assert(at(val, q.coeff(c)) == 0real);
        reveal(homomorphic);
    }
    assert forall|i: int| 1 <= i < 32 implies #[trigger] b.coeff(i) == 0real by {
        lemma_shadow_coeff(val, cj, i);
        assert(at(val, cj.coeff(i)) == 0real);
    }
    lemma_shadow_coeff(val, q, 0);
    lemma_shadow_coeff(val, cj, 0);
    assert(at(val, ns) == 4real) by {
        lemma_product_coeff(val, q, cj, 0);
        lemma_scalar_on_the_right(a, b, 0);
        lemma_minus_two_squared(b.s, a.coeff(0));
    }
    assert(4real * rn == 1real) by {
        reveal(homomorphic);
        lemma_inverse_of_four(rn, at(val, ns));
    }
    assert(q.recip_spec() == cj.mul_scalar_spec(ns.recip_spec()));
    lemma_scaled_coeff(val, cj, ns.recip_spec(), 0);
    lemma_quarter_of_minus_two(rn, at(val, cj.coeff(0)));
    assert forall|c: int| 1 <= c < 32 implies at(val, #[trigger] q.recip_spec().coeff(c))
        == 0real by {
        lemma_scaled_coeff(val, cj, ns.recip_spec(), c);
        assert(at(val, cj.coeff(c)) == 0real);
        lemma_zero_times(rn, at(val, cj.coeff(c)));
    }
}

/// The product with a multivector that is a scalar multiplies every coefficient by the
/// scalar.
proof fn lemma_quotient_values<T: Field>(val: spec_fn(T) -> real, m: R410<T>, i: R410<T>, c: int)
    requires
        homomorphic(val),
        0 <= c < 32,
        forall|k: int| 1 <= k < 32 ==> at(val, #[trigger] i.coeff(k)) == 0real,
    ensures
        at(val, m.mul_spec(i).coeff(c)) == at(val, i.coeff(0)) * at(val, m.coeff(c)),
{
    let a = shadow(val, m);
    let b = shadow(val, i);
    assert forall|k: int| 1 <= k < 32 implies #[trigger] b.coeff(k) == 0real by {
        lemma_shadow_coeff(val, i, k);
        assert(at(val, i.coeff(k)) == 0real);
    }
    lemma_shadow_coeff(val, i, 0);
    lemma_shadow_coeff(val, m, c);
    lemma_product_coeff(val, m, i, c);
    lemma_scalar_on_the_right(a, b, c);
}

/// The centre of a sphere whose first two coefficients differ by one: the coordinates that
/// the sphere holds, and on the null pair half of one less their square, and half of minus
/// one less their square.
pub proof fn lemma_centre_values<T: Field>(val: spec_fn(T) -> real, s: Sphere<T>)
    requires
        homomorphic(val),
        at(val, s.e123p) - at(val, s.e123n) == 1real,
    ensures
        ({
            let c = s.center_spec();
            let s3 = at(val, s.e12pn);
            let s4 = at(val, s.e13pn);
            let s5 = at(val, s.e23pn);
            &&& at(val, c.e1) == s5
            &&& at(val, c.e2) == -s4
            &&& at(val, c.e3) == s3
            &&& 2real * at(val, c.ep) == 1real - (s3 * s3 + s4 * s4 + s5 * s5)
            &&& 2real * at(val, c.en) == -1real - (s3 * s3 + s4 * s4 + s5 * s5)
        }),
{
    let ni = infinity_spec::<T>(SpaceKind::Euclidean);
    let sm = s.into_mv_spec();
    let m = sm.mul_spec(ni).mul_spec(sm);
    let q = m.inner_spec(ni);
    let i = q.recip_spec();
    let d = m.mul_spec(i);
    let b = shadow(val, m);
    let t = at(val, i.coeff(0));
    let s3 = at(val, s.e12pn);
    let s4 = at(val, s.e13pn);
    let s5 = at(val, s.e23pn);
    lemma_numerator_values(val, s);
    lemma_denominator_values(val, m);
    lemma_inverse_values(val, q);
    lemma_quotient_values(val, m, i, 1);
    lemma_quotient_values(val, m, i, 2);
    lemma_quotient_values(val, m, i, 3);
    lemma_quotient_values(val, m, i, 4);
    lemma_quotient_values(val, m, i, 5);
    lemma_shadow_coeff(val, m, 1);
    lemma_shadow_coeff(val, m, 2);
    lemma_shadow_coeff(val, m, 3);
    lemma_shadow_coeff(val, m, 4);
    lemma_shadow_coeff(val, m, 5);
    lemma_point_picks(d);
    assert(s.center_spec() == Point::<T, Euclidean>::from_mv_spec(d));
    lemma_minus_half_of_minus_twice(t, b.e1, s5);
    lemma_minus_half_of_minus_twice(t, b.e2, -s4);
    lemma_minus_half_of_minus_twice(t, b.e3, s3);
    lemma_minus_half_times(t, b.ep);
    lemma_minus_half_times(t, b.en);
}

/// The weight of the point of a vector is minus one.
pub proof fn lemma_weight_of_lift<T: Field>(val: spec_fn(T) -> real, v: Vector<T>)
    requires
        homomorphic(val),
    ensures
        at(val, v.into_point_spec::<Euclidean>().norm_spec()) == -1real,
{
    let x = v.into_point_spec::<Euclidean>();
    let n = Point::<T, Euclidean>::ni_spec();
    let a = shadow(val, x.into_mv_spec());
    let b = shadow(val, n.into_mv_spec());
    lemma_half(val);
    lemma_point_values(val, v);
    lemma_point_shadow(val, x);
    lemma_point_shadow(val, n);
    lemma_point_picks(infinity_spec::<T>(SpaceKind::Euclidean));
    lemma_point_places(x);
    assert(at(val, n.e1) == 0real && at(val, n.e2) == 0real && at(val, n.e3) == 0real && at(
        val,
        n.ep,
    ) == 1real && at(val, n.en) == 1real) by {
        reveal(homomorphic);
    }
    lemma_inner_coeff(val, x.into_mv_spec(), n.into_mv_spec(), 0);
    lemma_point_inner_point_s(a, b);
    lemma_zero_times(b.e1, a.e1);
    lemma_zero_times(b.e2, a.e2);
    lemma_zero_times(b.e3, a.e3);
    lemma_one_times(b.ep, a.ep);
    lemma_one_times(b.en, a.en);
}

/// The point of a vector, divided by its weight, is the negative of the point: its weight
/// being minus one.
pub proof fn lemma_normalized_values<T: Field>(val: spec_fn(T) -> real, v: Vector<T>)
    requires
        homomorphic(val),
    ensures
        ({
            let p = v.into_point_spec::<Euclidean>().normalize_spec();
            let h = at(val, half_spec::<T>());
            &&& at(val, p.e1) == -at(val, v.e1)
            &&& at(val, p.e2) == -at(val, v.e2)
            &&& at(val, p.e3) == -at(val, v.e3)
            &&& at(val, p.ep) == -(h * square(val, v) - h)
            &&& at(val, p.en) == -(h * square(val, v) + h)
        }),
{
    let x = v.into_point_spec::<Euclidean>();
    let m = x.into_mv_spec();
    let w = x.norm_spec();
    let rn = at(val, w.recip_spec());
    let d = m.div_scalar_spec(w);
    lemma_weight_of_lift(val, v);
    lemma_point_values(val, v);
    lemma_point_places(x);
    lemma_point_picks(d);
    assert(rn == -1real) by {
        reveal(homomorphic);
        lemma_inverse_of_minus_one(rn, at(val, w));
    }
    lemma_scaled_coeff(val, m, w.recip_spec(), 1);
    lemma_scaled_coeff(val, m, w.recip_spec(), 2);
    lemma_scaled_coeff(val, m, w.recip_spec(), 3);
    lemma_scaled_coeff(val, m, w.recip_spec(), 4);
    lemma_scaled_coeff(val, m, w.recip_spec(), 5);
    lemma_minus_one_times(rn, at(val, x.e1));
    lemma_minus_one_times(rn, at(val, x.e2));
    lemma_minus_one_times(rn, at(val, x.e3));
    lemma_minus_one_times(rn, at(val, x.ep));
    lemma_minus_one_times(rn, at(val, x.en));
}

/// The point of a vector, divided by its weight, is a normalized null vector.
pub proof fn lemma_normalized_lift<T: Field>(val: spec_fn(T) -> real, v: Vector<T>)
    requires
        homomorphic(val),
    ensures
        normalized(val, v.into_point_spec::<Euclidean>().normalize_spec()),
{
    let h = at(val, half_spec::<T>());
    lemma_half(val);
    lemma_normalized_values(val, v);
    lemma_sign_out(at(val, v.e1), -at(val, v.e1));
    lemma_sign_out(at(val, v.e1), at(val, v.e1));
    lemma_sign_out(at(val, v.e2), -at(val, v.e2));
    lemma_sign_out(at(val, v.e2), at(val, v.e2));
    lemma_sign_out(at(val, v.e3), -at(val, v.e3));
    lemma_sign_out(at(val, v.e3), at(val, v.e3));
    lemma_half_twice(h, square(val, v));
}

/// The centre of the sphere about a point is the point: for a normalized point `p` and any
/// radius `r`, `p.into_sphere(r).undual().center()` is `p`.
///
/// It is so wherever a field embedding `val` reads the scalars as real numbers.
pub proof fn lemma_sphere_centre<T: Field>(val: spec_fn(T) -> real, p: Point<T>, r: T)
    requires
        embeds(val),
        normalized(val, p),
    ensures
        p.into_sphere_spec(r).undual_spec().center_spec() == p,
{
    let d = p.into_sphere_spec(r);
    let s = d.undual_spec();
    let c = s.center_spec();
    let x2 = at(val, p.e2);
    lemma_embedded_units(val);
    lemma_dual_sphere_values(val, p, r);
    lemma_undual_sphere_values(val, d);
    lemma_centre_values(val, s);
    lemma_sign_out(x2, -x2);
    lemma_sign_out(x2, x2);
    assert(at(val, c.e1) == at(val, p.e1));
    assert(at(val, c.e2) == at(val, p.e2));
    assert(at(val, c.e3) == at(val, p.e3));
    assert(at(val, c.ep) == at(val, p.ep));
    assert(at(val, c.en) == at(val, p.en));
    lemma_same_value(val, c.e1, p.e1);
    lemma_same_value(val, c.e2, p.e2);
    lemma_same_value(val, c.e3, p.e3);
    lemma_same_value(val, c.ep, p.ep);
    lemma_same_value(val, c.en, p.en);
}

} // verus!
