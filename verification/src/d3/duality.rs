//! Duality is an involution on lines, planes and spheres: the dual form of an object, taken
//! back by `undual`, is the object.
//!
//! The lemmas ask for scalars that compute exactly with zero, one and minus one, in which
//! the dual does no more than move each coefficient to the complementary blade.

use vstd::prelude::*;
use crate::d3::dual::DLine;
use crate::d3::dual::DPlane;
use crate::d3::dual::DSphere;
use crate::d3::flat::Line;
use crate::d3::flat::Plane;
use crate::d3::round::Sphere;
use crate::field::Field;
use crate::r410::units::exact_units;
use crate::r410::units::lemma_dual_complements;
use crate::r410::units::lemma_dual_undual;
use crate::r410::R410;
use crate::spaces::DualSpace;
use crate::spaces::Space;
use crate::Multivec;

verus! {

/// The dual form of a sphere `x`, as `x.dual()` gives it.
pub open spec fn sphere_dual<T: Field, S: Space>(x: Sphere<T, S>) -> DSphere<T, S> {
    DSphere::from_mv_spec(x.into_mv_spec().dual_spec())
}

/// The dual form of a plane `x`, as `x.dual()` gives it.
pub open spec fn plane_dual<T: Field, S: DualSpace>(x: Plane<T, S>) -> DPlane<T, S::Dual> {
    DPlane::from_mv_spec(x.into_mv_spec().dual_spec())
}

/// The dual form of a line `x`, as `x.dual()` gives it.
pub open spec fn line_dual<T: Field, S: DualSpace>(x: Line<T, S>) -> DLine<T, S::Dual> {
    DLine::from_mv_spec(x.into_mv_spec().dual_spec())
}

/// The complement of the multivector of a sphere has room in a dual sphere.
proof fn lemma_sphere_complement_fits<T: Field, S: Space>(x: Sphere<T, S>, d: R410<T>)
    requires
        exact_units::<T>(),
        d == x.into_mv_spec().complement_spec(),
    ensures
        DSphere::<T, S>::from_mv_spec(d).into_mv_spec() == d,
{
}

/// `x.dual().undual()` is the sphere `x` again, coefficient for coefficient.
pub proof fn lemma_sphere_dual_undual<T: Field, S: DualSpace>(x: Sphere<T, S>)
    requires
        exact_units::<T>(),
    ensures
        sphere_dual(x).undual_spec().into_mv_spec() == x.into_mv_spec(),
        sphere_dual(x).undual_spec().e123p == x.e123p,
        sphere_dual(x).undual_spec().e123n == x.e123n,
        sphere_dual(x).undual_spec().e12pn == x.e12pn,
        sphere_dual(x).undual_spec().e13pn == x.e13pn,
        sphere_dual(x).undual_spec().e23pn == x.e23pn,
{
    let m = x.into_mv_spec();
    let d = m.dual_spec();
    lemma_dual_complements(m);
    lemma_dual_undual(m);
    lemma_sphere_complement_fits(x, d);
    assert(sphere_dual(x).into_mv_spec() == d);
    assert(sphere_dual(x).undual_spec() == Sphere::<T, S::Dual>::from_mv_spec(m));
}

/// The complement of the multivector of a plane has room in a dual plane of the dual
/// geometry.
proof fn lemma_plane_complement_fits<T: Field, S: DualSpace>(x: Plane<T, S>, d: R410<T>)
    requires
        exact_units::<T>(),
        d == x.into_mv_spec().complement_spec(),
    ensures
        DPlane::<T, S::Dual>::from_mv_spec(d).into_mv_spec() == d,
{
    S::lemma_dual_kind();
}

/// `x.dual().undual()` is the plane `x` again, coefficient for coefficient, in each of the
/// three geometries.
pub proof fn lemma_plane_dual_undual<T: Field, S: DualSpace>(x: Plane<T, S>) where
    S::Dual: DualSpace,

    requires
        exact_units::<T>(),
    ensures
        plane_dual(x).undual_spec().into_mv_spec() == x.into_mv_spec(),
        plane_dual(x).undual_spec().e123i == x.e123i,
        plane_dual(x).undual_spec().e12pn == x.e12pn,
        plane_dual(x).undual_spec().e13pn == x.e13pn,
        plane_dual(x).undual_spec().e23pn == x.e23pn,
{
    let m = x.into_mv_spec();
    let d = m.dual_spec();
    S::lemma_dual_kind();
    <S::Dual as DualSpace>::lemma_dual_kind();
    lemma_dual_complements(m);
    lemma_dual_undual(m);
    lemma_plane_complement_fits(x, d);
    assert(plane_dual(x).into_mv_spec() == d);
    assert(plane_dual(x).undual_spec() == Plane::<T, <S::Dual as DualSpace>::Dual>::from_mv_spec(
        m,
    ));
}

/// The complement of the multivector of a line has room in a dual line of the dual geometry.
proof fn lemma_line_complement_fits<T: Field, S: DualSpace>(x: Line<T, S>, d: R410<T>)
    requires
        exact_units::<T>(),
        d == x.into_mv_spec().complement_spec(),
    ensures
        DLine::<T, S::Dual>::from_mv_spec(d).into_mv_spec() == d,
{
    let m = x.into_mv_spec();
    S::lemma_dual_kind();
    assert(d.s == T::zero_spec());
    assert(d.e1 == T::zero_spec());
    assert(d.e2 == T::zero_spec());
    assert(d.e3 == T::zero_spec());
    assert(d.ep == T::zero_spec());
    assert(d.en == T::zero_spec());
    assert(d.e12 == m.e3pn.neg_spec());
    assert(d.e13 == m.e2pn);
    assert(d.e1p == m.e23n.neg_spec());
    assert(d.e1n == m.e23p.neg_spec());
    assert(d.e23 == m.e1pn.neg_spec());
    assert(d.e2p == m.e13n);
    assert(d.e2n == m.e13p);
    assert(d.e3p == m.e12n.neg_spec());
    assert(d.e3n == m.e12p.neg_spec());
    assert(d.epn == T::zero_spec());
    assert(d.e123 == T::zero_spec());
    assert(d.e12p == T::zero_spec());
    assert(d.e12n == T::zero_spec());
    assert(d.e13p == T::zero_spec());
    assert(d.e13n == T::zero_spec());
    assert(d.e1pn == T::zero_spec());
    assert(d.e23p == T::zero_spec());
    assert(d.e23n == T::zero_spec());
    assert(d.e2pn == T::zero_spec());
    assert(d.e3pn == T::zero_spec());
    assert(d.e123p == T::zero_spec());
    assert(d.e123n == T::zero_spec());
    assert(d.e12pn == T::zero_spec());
    assert(d.e13pn == T::zero_spec());
    assert(d.e23pn == T::zero_spec());
    assert(d.e123pn == T::zero_spec());
}

/// `x.dual().undual()` is the line `x` again, coefficient for coefficient, in each of the
/// three geometries.
pub proof fn lemma_line_dual_undual<T: Field, S: DualSpace>(x: Line<T, S>) where
    S::Dual: DualSpace,

    requires
        exact_units::<T>(),
    ensures
        line_dual(x).undual_spec().into_mv_spec() == x.into_mv_spec(),
        line_dual(x).undual_spec().e12i == x.e12i,
        line_dual(x).undual_spec().e13i == x.e13i,
        line_dual(x).undual_spec().e23i == x.e23i,
        line_dual(x).undual_spec().e1pn == x.e1pn,
        line_dual(x).undual_spec().e2pn == x.e2pn,
        line_dual(x).undual_spec().e3pn == x.e3pn,
{
    let m = x.into_mv_spec();
    let d = m.dual_spec();
    S::lemma_dual_kind();
    <S::Dual as DualSpace>::lemma_dual_kind();
    lemma_dual_complements(m);
    lemma_dual_undual(m);
    lemma_line_complement_fits(x, d);
    assert(line_dual(x).into_mv_spec() == d);
    assert(line_dual(x).undual_spec() == Line::<T, <S::Dual as DualSpace>::Dual>::from_mv_spec(
        m,
    ));
}

} // verus!
