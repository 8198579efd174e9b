//! The closed forms agree with the general path.
//!
//! Some products of compact objects are written out in a few terms instead of being taken
//! through the general multivector. Each such closed form is shown here to give what the
//! general path gives, wherever a field embedding reads the scalars as real numbers.

use vstd::prelude::*;
use crate::d3::dual::DSphere;
use crate::d3::free::Bivector;
use crate::d3::free::Trivector;
use crate::d3::free::Vector;
use crate::d3::motion::lemma_vector_shadow;
use crate::d3::transform::Rotor;
use crate::field::Field;
use crate::r410::exact::at;
use crate::r410::exact::embeds;
use crate::r410::exact::homomorphic;
use crate::r410::exact::lemma_commute;
use crate::r410::exact::lemma_inner_coeff;
use crate::r410::exact::lemma_outer_coeff;
use crate::r410::exact::lemma_product_coeff;
use crate::r410::exact::lemma_same_value;
use crate::r410::exact::lemma_shadow_coeff;
use crate::r410::exact::lemma_sign_out;
use crate::r410::exact::shadow;
use crate::r410::sparse::bivector_blade;
use crate::r410::sparse::lemma_bivector_inner_bivector_s;
use crate::r410::sparse::lemma_bivector_outer_vector_e123;
use crate::r410::sparse::lemma_bivector_trivector_e1;
use crate::r410::sparse::lemma_bivector_trivector_e2;
use crate::r410::sparse::lemma_bivector_trivector_e3;
use crate::r410::sparse::lemma_point_inner_point_s;
use crate::r410::sparse::lemma_vector_inner_vector_s;
use crate::r410::sparse::lemma_vector_outer_vector_e12;
use crate::r410::sparse::lemma_vector_outer_vector_e13;
use crate::r410::sparse::lemma_vector_outer_vector_e23;
use crate::r410::sparse::lemma_vector_vector_e12;
use crate::r410::sparse::lemma_vector_vector_e13;
use crate::r410::sparse::lemma_vector_vector_e23;
use crate::r410::sparse::lemma_vector_vector_s;
use crate::r410::sparse::point_blade;
use crate::r410::sparse::trivector_blade;
use crate::r410::sparse::zero_outside;
use crate::spaces::Space;
use crate::Multivec;

verus! {

/// The shadow of a bivector has its coefficients on `e12 e13 e23`, and nothing else.
proof fn lemma_bivector_shadow<T: Field>(val: spec_fn(T) -> real, v: Bivector<T>)
    requires
        homomorphic(val),
    ensures
        zero_outside(shadow(val, v.into_mv_spec()), |i: int| bivector_blade(i)),
        shadow(val, v.into_mv_spec()).e12 == at(val, v.e12),
        shadow(val, v.into_mv_spec()).e13 == at(val, v.e13),
        shadow(val, v.into_mv_spec()).e23 == at(val, v.e23),
{
    reveal(homomorphic);
    let m = v.into_mv_spec();
    assert forall|i: int| 0 <= i < 32 && !bivector_blade(i) implies #[trigger] shadow(
        val,
        m,
    ).coeff(i) == 0real by {
        lemma_shadow_coeff(val, m, i);
    }
    lemma_shadow_coeff(val, m, 6);
    lemma_shadow_coeff(val, m, 7);
    lemma_shadow_coeff(val, m, 10);
}

/// The shadow of a trivector has its coefficient on `e123`, and nothing else.
proof fn lemma_trivector_shadow<T: Field>(val: spec_fn(T) -> real, v: Trivector<T>)
    requires
        homomorphic(val),
    ensures
        zero_outside(shadow(val, v.into_mv_spec()), |i: int| trivector_blade(i)),
        shadow(val, v.into_mv_spec()).e123 == at(val, v.e123),
{
    reveal(homomorphic);
    let m = v.into_mv_spec();
    assert forall|i: int| 0 <= i < 32 && !trivector_blade(i) implies #[trigger] shadow(
        val,
        m,
    ).coeff(i) == 0real by {
        lemma_shadow_coeff(val, m, i);
    }
    lemma_shadow_coeff(val, m, 16);
}

/// The shadow of a dual sphere has its coefficients on the blades of a point, and nothing
/// else.
proof fn lemma_dual_sphere_shadow<T: Field, S: Space>(val: spec_fn(T) -> real, x: DSphere<T, S>)
    requires
        homomorphic(val),
    ensures
        zero_outside(shadow(val, x.into_mv_spec()), |i: int| point_blade(i)),
        shadow(val, x.into_mv_spec()).e1 == at(val, x.e1),
        shadow(val, x.into_mv_spec()).e2 == at(val, x.e2),
        shadow(val, x.into_mv_spec()).e3 == at(val, x.e3),
        shadow(val, x.into_mv_spec()).ep == at(val, x.ep),
        shadow(val, x.into_mv_spec()).en == at(val, x.en),
{
    reveal(homomorphic);
    let m = x.into_mv_spec();
    assert forall|i: int| 0 <= i < 32 && !point_blade(i) implies #[trigger] shadow(val, m).coeff(
        i,
    ) == 0real by {
        lemma_shadow_coeff(val, m, i);
    }
    lemma_shadow_coeff(val, m, 1);
    lemma_shadow_coeff(val, m, 2);
    lemma_shadow_coeff(val, m, 3);
    lemma_shadow_coeff(val, m, 4);
    lemma_shadow_coeff(val, m, 5);
}

/// The scalar product of two vectors is the scalar part of their inner product.
pub proof fn lemma_vector_dot_is_inner<T: Field>(val: spec_fn(T) -> real, a: Vector<T>, b: Vector<T>)
    requires
        embeds(val),
    ensures
        a.dot_spec(b) == a.into_mv_spec().inner_spec(b.into_mv_spec()).s,
{
    let x = shadow(val, a.into_mv_spec());
    let y = shadow(val, b.into_mv_spec());
    lemma_vector_shadow(val, a);
    lemma_vector_shadow(val, b);
    lemma_inner_coeff(val, a.into_mv_spec(), b.into_mv_spec(), 0);
    lemma_vector_inner_vector_s(x, y);
    lemma_commute(x.e1, y.e1);
    lemma_commute(x.e2, y.e2);
    lemma_commute(x.e3, y.e3);
    assert(at(val, a.dot_spec(b)) == x.e1 * y.e1 + x.e2 * y.e2 + x.e3 * y.e3) by {
        reveal(homomorphic);
    }
    lemma_same_value(val, a.dot_spec(b), a.into_mv_spec().inner_spec(b.into_mv_spec()).s);
}

/// The closed form of the outer product of two vectors gives the bivector that the outer
/// product of their multivectors gives.
pub proof fn lemma_vector_outer_is_outer<T: Field>(
    val: spec_fn(T) -> real,
    a: Vector<T>,
    b: Vector<T>,
)
    requires
        embeds(val),
    ensures
        a.outer_spec(b) == Bivector::from_mv_spec(a.into_mv_spec().outer_spec(b.into_mv_spec())),
{
    let x = shadow(val, a.into_mv_spec());
    let y = shadow(val, b.into_mv_spec());
    let f = a.outer_spec(b);
    let p = a.into_mv_spec().outer_spec(b.into_mv_spec());
    let g = Bivector::from_mv_spec(p);
    lemma_vector_shadow(val, a);
    lemma_vector_shadow(val, b);
    lemma_outer_coeff(val, a.into_mv_spec(), b.into_mv_spec(), 6);
    lemma_outer_coeff(val, a.into_mv_spec(), b.into_mv_spec(), 7);
    lemma_outer_coeff(val, a.into_mv_spec(), b.into_mv_spec(), 10);
    lemma_vector_outer_vector_e12(x, y);
    lemma_vector_outer_vector_e13(x, y);
    lemma_vector_outer_vector_e23(x, y);
    lemma_commute(x.e1, y.e2);
    lemma_commute(x.e2, y.e1);
    lemma_commute(x.e1, y.e3);
    lemma_commute(x.e3, y.e1);
    lemma_commute(x.e2, y.e3);
    lemma_commute(x.e3, y.e2);
    assert(at(val, f.e12) == x.e1 * y.e2 - x.e2 * y.e1 && at(val, f.e13) == x.e1 * y.e3 - x.e3
        * y.e1 && at(val, f.e23) == x.e2 * y.e3 - x.e3 * y.e2) by {
        reveal(homomorphic);
    }
    assert(g.e12 == p.coeff(6) && g.e13 == p.coeff(7) && g.e23 == p.coeff(10));
    lemma_same_value(val, f.e12, g.e12);
    lemma_same_value(val, f.e13, g.e13);
    lemma_same_value(val, f.e23, g.e23);
}

/// The closed form of the product of two vectors gives the rotor that the geometric product
/// of their multivectors gives.
pub proof fn lemma_vector_product_is_geometric<T: Field>(
    val: spec_fn(T) -> real,
    a: Vector<T>,
    b: Vector<T>,
)
    requires
        embeds(val),
    ensures
        a.mul_spec(b) == Rotor::from_mv_spec(a.into_mv_spec().mul_spec(b.into_mv_spec())),
{
    let x = shadow(val, a.into_mv_spec());
    let y = shadow(val, b.into_mv_spec());
    let f = a.mul_spec(b);
    let p = a.into_mv_spec().mul_spec(b.into_mv_spec());
    let g = Rotor::from_mv_spec(p);
    lemma_vector_shadow(val, a);
    lemma_vector_shadow(val, b);
    lemma_product_coeff(val, a.into_mv_spec(), b.into_mv_spec(), 0);
    lemma_product_coeff(val, a.into_mv_spec(), b.into_mv_spec(), 6);
    lemma_product_coeff(val, a.into_mv_spec(), b.into_mv_spec(), 7);
    lemma_product_coeff(val, a.into_mv_spec(), b.into_mv_spec(), 10);
    lemma_vector_vector_s(x, y);
    lemma_vector_vector_e12(x, y);
    lemma_vector_vector_e13(x, y);
    lemma_vector_vector_e23(x, y);
    lemma_commute(x.e1, y.e1);
    lemma_commute(x.e2, y.e2);
    lemma_commute(x.e3, y.e3);
    lemma_commute(x.e1, y.e2);
    lemma_commute(x.e2, y.e1);
    lemma_commute(x.e1, y.e3);
    lemma_commute(x.e3, y.e1);
    lemma_commute(x.e2, y.e3);
    lemma_commute(x.e3, y.e2);
    assert(at(val, f.s) == x.e1 * y.e1 + x.e2 * y.e2 + x.e3 * y.e3 && at(val, f.e12) == x.e1 * y.e2
        - x.e2 * y.e1 && at(val, f.e13) == x.e1 * y.e3 - x.e3 * y.e1 && at(val, f.e23) == x.e2
        * y.e3 - x.e3 * y.e2) by {
        reveal(homomorphic);
    }
    assert(g.s == p.coeff(0) && g.e12 == p.coeff(6) && g.e13 == p.coeff(7) && g.e23 == p.coeff(10));
    lemma_same_value(val, f.s, g.s);
    lemma_same_value(val, f.e12, g.e12);
    lemma_same_value(val, f.e13, g.e13);
    lemma_same_value(val, f.e23, g.e23);
}

/// The scalar product of two bivectors is the scalar part of their inner product.
pub proof fn lemma_bivector_dot_is_inner<T: Field>(
    val: spec_fn(T) -> real,
    a: Bivector<T>,
    b: Bivector<T>,
)
    requires
        embeds(val),
    ensures
        a.dot_spec(b) == a.into_mv_spec().inner_spec(b.into_mv_spec()).s,
{
    let x = shadow(val, a.into_mv_spec());
    let y = shadow(val, b.into_mv_spec());
    lemma_bivector_shadow(val, a);
    lemma_bivector_shadow(val, b);
    lemma_inner_coeff(val, a.into_mv_spec(), b.into_mv_spec(), 0);
    lemma_bivector_inner_bivector_s(x, y);
    lemma_commute(x.e12, y.e12);
    lemma_commute(x.e13, y.e13);
    lemma_commute(x.e23, y.e23);
    lemma_sign_out(x.e12, y.e12);
    assert(at(val, a.dot_spec(b)) == (-x.e12) * y.e12 - x.e13 * y.e13 - x.e23 * y.e23) by {
        reveal(homomorphic);
    }
    lemma_same_value(val, a.dot_spec(b), a.into_mv_spec().inner_spec(b.into_mv_spec()).s);
}

/// The closed form of the outer product of a bivector with a vector gives the trivector that
/// the outer product of their multivectors gives.
pub proof fn lemma_bivector_outer_is_outer<T: Field>(
    val: spec_fn(T) -> real,
    a: Bivector<T>,
    b: Vector<T>,
)
    requires
        embeds(val),
    ensures
        a.outer_spec(b) == Trivector::from_mv_spec(a.into_mv_spec().outer_spec(b.into_mv_spec())),
{
    let x = shadow(val, a.into_mv_spec());
    let y = shadow(val, b.into_mv_spec());
    let f = a.outer_spec(b);
    let p = a.into_mv_spec().outer_spec(b.into_mv_spec());
    let g = Trivector::from_mv_spec(p);
    lemma_bivector_shadow(val, a);
    lemma_vector_shadow(val, b);
    lemma_outer_coeff(val, a.into_mv_spec(), b.into_mv_spec(), 16);
    lemma_bivector_outer_vector_e123(x, y);
    lemma_commute(x.e12, y.e3);
    lemma_commute(x.e13, y.e2);
    lemma_commute(x.e23, y.e1);
    assert(at(val, f.e123) == x.e12 * y.e3 - x.e13 * y.e2 + x.e23 * y.e1) by {
        reveal(homomorphic);
    }
    assert(g.e123 == p.coeff(16));
    lemma_same_value(val, f.e123, g.e123);
}

/// The closed form of the product of a bivector with a trivector gives the vector that the
/// geometric product of their multivectors gives.
pub proof fn lemma_bivector_product_is_geometric<T: Field>(
    val: spec_fn(T) -> real,
    a: Bivector<T>,
    b: Trivector<T>,
)
    requires
        embeds(val),
    ensures
        a.mul_spec(b) == Vector::from_mv_spec(a.into_mv_spec().mul_spec(b.into_mv_spec())),
{
    let x = shadow(val, a.into_mv_spec());
    let y = shadow(val, b.into_mv_spec());
    let f = a.mul_spec(b);
    let p = a.into_mv_spec().mul_spec(b.into_mv_spec());
    let g = Vector::from_mv_spec(p);
    lemma_bivector_shadow(val, a);
    lemma_trivector_shadow(val, b);
    lemma_product_coeff(val, a.into_mv_spec(), b.into_mv_spec(), 1);
    lemma_product_coeff(val, a.into_mv_spec(), b.into_mv_spec(), 2);
    lemma_product_coeff(val, a.into_mv_spec(), b.into_mv_spec(), 3);
    lemma_bivector_trivector_e1(x, y);
    lemma_bivector_trivector_e2(x, y);
    lemma_bivector_trivector_e3(x, y);
    lemma_commute(x.e23, y.e123);
    lemma_commute(x.e13, y.e123);
    lemma_commute(x.e12, y.e123);
    lemma_sign_out(x.e23, y.e123);
    lemma_sign_out(x.e12, y.e123);
    assert(at(val, f.e1) == (-x.e23) * y.e123 && at(val, f.e2) == x.e13 * y.e123 && at(val, f.e3)
        == (-x.e12) * y.e123) by {
        reveal(homomorphic);
    }
    assert(g.e1 == p.coeff(1) && g.e2 == p.coeff(2) && g.e3 == p.coeff(3));
    lemma_same_value(val, f.e1, g.e1);
    lemma_same_value(val, f.e2, g.e2);
    lemma_same_value(val, f.e3, g.e3);
}

/// The scalar product of two dual spheres is the scalar part of their inner product.
pub proof fn lemma_dual_sphere_dot_is_inner<T: Field, S: Space>(
    val: spec_fn(T) -> real,
    a: DSphere<T, S>,
    b: DSphere<T, S>,
)
    requires
        embeds(val),
    ensures
        a.dot_spec(b) == a.into_mv_spec().inner_spec(b.into_mv_spec()).s,
{
    let x = shadow(val, a.into_mv_spec());
    let y = shadow(val, b.into_mv_spec());
    lemma_dual_sphere_shadow(val, a);
    lemma_dual_sphere_shadow(val, b);
    lemma_inner_coeff(val, a.into_mv_spec(), b.into_mv_spec(), 0);
    lemma_point_inner_point_s(x, y);
    lemma_commute(x.e1, y.e1);
    lemma_commute(x.e2, y.e2);
    lemma_commute(x.e3, y.e3);
    lemma_commute(x.ep, y.ep);
    lemma_commute(x.en, y.en);
    assert(at(val, a.dot_spec(b)) == x.e1 * y.e1 + x.e2 * y.e2 + x.e3 * y.e3 + x.ep * y.ep - x.en
        * y.en) by {
        reveal(homomorphic);
    }
    lemma_same_value(val, a.dot_spec(b), a.into_mv_spec().inner_spec(b.into_mv_spec()).s);
}

} // verus!
