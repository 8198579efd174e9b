//! What holds of the multivectors wherever the scalars compute exactly with zero, one and
//! minus one.
//!
//! In a product with a unit blade all but one term of each coefficient vanish. So the unit
//! blades multiply as the multiplication table of the blades says; and the dual, which is
//! computed as a division by the unit pseudoscalar, is seen to move each coefficient to the
//! complementary blade, with a sign, and to be undone by `undual`.

use vstd::prelude::*;
use crate::blades::blade_generators;
use crate::blades::blade_index;
use crate::blades::blade_negative;
use crate::blades::blade_times;
use crate::blades::count_spec;
use crate::blades::difference5;
use crate::blades::lemma_difference5;
use crate::blades::lemma_xor_is_symmetric_difference;
use crate::field::Field;
use crate::r410::products::keeps;
use crate::r410::products::partial_sum;
use crate::r410::products::Product;
use crate::r410::R410;

verus! {

/// Arithmetic with zero, one and negation is exact in `T`: zero annihilates, one and minus one
/// do what their names say, and nothing is lost in adding or taking away zero. It is so in
/// every ring. It is so of floating-point numbers only up to the sign of zero.
pub open spec fn exact_units<T: Field>() -> bool {
    &&& forall|a: T| #[trigger] T::zero_spec().mul_spec(a) == T::zero_spec()
    &&& forall|a: T| #[trigger] a.mul_spec(T::zero_spec()) == T::zero_spec()
    &&& forall|a: T| #[trigger] T::one_spec().mul_spec(a) == a
    &&& forall|a: T| #[trigger] a.mul_spec(T::one_spec()) == a
    &&& forall|a: T| #[trigger] T::one_spec().neg_spec().mul_spec(a) == a.neg_spec()
    &&& forall|a: T| #[trigger] a.add_spec(T::zero_spec()) == a
    &&& forall|a: T| #[trigger] T::zero_spec().add_spec(a) == a
    &&& forall|a: T| #[trigger] a.sub_spec(T::zero_spec()) == a
    &&& forall|a: T| #[trigger] T::zero_spec().sub_spec(a) == a.neg_spec()
    &&& forall|a: T| #[trigger] a.neg_spec().neg_spec() == a
    &&& T::zero_spec().neg_spec() == T::zero_spec()
    &&& T::one_spec().recip_spec() == T::one_spec()
}

/// The term that the left blade at `x` gives to the coefficient at `c` of a product of `a`
/// and `b`, before its sign.
pub open spec fn term<T: Field>(a: R410<T>, b: R410<T>, c: int, x: int) -> T {
    b.coeff(blade_times(x, c)).mul_spec(a.coeff(x))
}

/// The term `t` of the left blade at `k`, as it stands in a sum that holds nothing else.
pub open spec fn lone_term<T: Field>(kind: Product, c: int, k: int, t: T) -> T {
    if k == 0 {
        t
    } else if !keeps(kind, k, blade_times(k, c)) {
        T::zero_spec()
    } else if blade_negative(k, blade_times(k, c)) {
        t.neg_spec()
    } else {
        t
    }
}

/// A sum in which every term but that of the left blade at `k` is zero is that term, with
/// its sign.
pub proof fn lemma_partial_sum_single<T: Field>(
    kind: Product,
    a: R410<T>,
    b: R410<T>,
    c: int,
    n: int,
    k: int,
)
    requires
        exact_units::<T>(),
        0 <= n,
        0 <= k,
        forall|x: int| 0 <= x <= n && x != k ==> #[trigger] term(a, b, c, x) == T::zero_spec(),
    ensures
        partial_sum(kind, a, b, c, n) == (if n < k {
            T::zero_spec()
        } else {
            lone_term(kind, c, k, term(a, b, c, k))
        }),
    decreases n,
{
    if n > 0 {
        lemma_partial_sum_single(kind, a, b, c, n - 1, k);
        if n != k {
            assert(term(a, b, c, n) == T::zero_spec());
        }
    } else {
        if k != 0 {
            assert(term(a, b, c, 0) == T::zero_spec());
        }
    }
}

/// The place of the blade of the generators that the blade at `c` lacks.
pub open spec fn blade_complement(c: int) -> int {
    blade_index(31 - blade_generators(c))
}

/// The enumeration of the blades and the masks of their generators are each other's inverse.
pub proof fn lemma_blade_index_bijection(v: int)
    requires
        0 <= v < 32,
    ensures
        blade_index(blade_generators(v)) == v,
        blade_generators(blade_index(v)) == v,
        0 <= blade_generators(v) < 32,
        0 <= blade_index(v) < 32,
{
}

/// When the symmetric difference of two masks of five generators is empty, and when it is
/// everything.
proof fn lemma_masks_ends(a: u32, b: u32)
    by (bit_vector)
    requires
        a < 32,
        b < 32,
    ensures
        (a ^ b) == 0 <==> a == b,
        (a ^ b) == 31 <==> a + b == 31,
        (a ^ b) < 32,
        a ^ 0 == a,
        a ^ 31 == 31 - a,
{
}

/// Two blades multiply to a scalar only where they are the same blade, and to a multiple of
/// the pseudoscalar only where one is the complement of the other.
pub proof fn lemma_blade_times_ends(x: int, c: int)
    requires
        0 <= x < 32,
        0 <= c < 32,
    ensures
        blade_times(x, c) == 0 <==> x == c,
        blade_times(x, c) == 31 <==> x == blade_complement(c),
        0 <= blade_complement(c) < 32,
        blade_complement(blade_complement(c)) == c,
        blade_times(c, 0) == c,
        blade_times(c, 31) == blade_complement(c),
{
    let gx = blade_generators(x);
    let gc = blade_generators(c);
    lemma_blade_index_bijection(x);
    lemma_blade_index_bijection(c);
    lemma_blade_index_bijection(0);
    lemma_blade_index_bijection(31);
    lemma_blade_index_bijection(31 - gc);
    lemma_blade_index_bijection(gc);
    lemma_xor_is_symmetric_difference(gx as u32, gc as u32);
    lemma_difference5(gx, gc);
    lemma_masks_ends(gx as u32, gc as u32);
    lemma_blade_index_bijection(difference5(gx, gc));
    assert(blade_times(x, c) == 0 <==> x == c);
    assert(blade_times(x, c) == 31 <==> x == blade_complement(c));
    assert(blade_complement(blade_complement(c)) == c);
    assert(blade_times(c, 0) == c) by {
        lemma_xor_is_symmetric_difference(gc as u32, 0);
        lemma_difference5(gc, 0);
        lemma_masks_ends(gc as u32, 0);
    }
    assert(blade_times(c, 31) == blade_complement(c)) by {
        lemma_xor_is_symmetric_difference(gc as u32, 31);
        lemma_difference5(gc, 31);
        lemma_masks_ends(gc as u32, 31);
    }
}

/// Of a blade and its complement, exactly one gives a negative product with the
/// pseudoscalar.
pub proof fn lemma_complement_sign(c: int)
    requires
        0 <= c < 32,
    ensures
        blade_negative(c, 31) != blade_negative(blade_complement(c), 31),
{
    assert(blade_negative(0, 31) != blade_negative(blade_complement(0), 31));
    assert(blade_negative(1, 31) != blade_negative(blade_complement(1), 31));
    assert(blade_negative(2, 31) != blade_negative(blade_complement(2), 31));
    assert(blade_negative(3, 31) != blade_negative(blade_complement(3), 31));
    assert(blade_negative(4, 31) != blade_negative(blade_complement(4), 31));
    assert(blade_negative(5, 31) != blade_negative(blade_complement(5), 31));
    assert(blade_negative(6, 31) != blade_negative(blade_complement(6), 31));
    assert(blade_negative(7, 31) != blade_negative(blade_complement(7), 31));
    assert(blade_negative(8, 31) != blade_negative(blade_complement(8), 31));
    assert(blade_negative(9, 31) != blade_negative(blade_complement(9), 31));
    assert(blade_negative(10, 31) != blade_negative(blade_complement(10), 31));
    assert(blade_negative(11, 31) != blade_negative(blade_complement(11), 31));
    assert(blade_negative(12, 31) != blade_negative(blade_complement(12), 31));
    assert(blade_negative(13, 31) != blade_negative(blade_complement(13), 31));
    assert(blade_negative(14, 31) != blade_negative(blade_complement(14), 31));
    assert(blade_negative(15, 31) != blade_negative(blade_complement(15), 31));
    assert(blade_negative(16, 31) != blade_negative(blade_complement(16), 31));
    assert(blade_negative(17, 31) != blade_negative(blade_complement(17), 31));
    assert(blade_negative(18, 31) != blade_negative(blade_complement(18), 31));
    assert(blade_negative(19, 31) != blade_negative(blade_complement(19), 31));
    assert(blade_negative(20, 31) != blade_negative(blade_complement(20), 31));
    assert(blade_negative(21, 31) != blade_negative(blade_complement(21), 31));
    assert(blade_negative(22, 31) != blade_negative(blade_complement(22), 31));
    assert(blade_negative(23, 31) != blade_negative(blade_complement(23), 31));
    assert(blade_negative(24, 31) != blade_negative(blade_complement(24), 31));
    assert(blade_negative(25, 31) != blade_negative(blade_complement(25), 31));
    assert(blade_negative(26, 31) != blade_negative(blade_complement(26), 31));
    assert(blade_negative(27, 31) != blade_negative(blade_complement(27), 31));
    assert(blade_negative(28, 31) != blade_negative(blade_complement(28), 31));
    assert(blade_negative(29, 31) != blade_negative(blade_complement(29), 31));
    assert(blade_negative(30, 31) != blade_negative(blade_complement(30), 31));
    assert(blade_negative(31, 31) != blade_negative(blade_complement(31), 31));
}

impl<T: Field> R410<T> {
    /// The inverse of the unit pseudoscalar: minus the pseudoscalar.
    pub open spec fn pseudoscalar_inverse_spec() -> Self {
        Self::build(
            |i: int|
                if i == 31 {
                    T::one_spec().neg_spec()
                } else {
                    T::zero_spec()
                },
        )
    }

    /// The coefficient at `c` of the dual of `self`: that of the complementary blade, negated
    /// unless that blade times the pseudoscalar is negative.
    pub open spec fn dual_coeff(self, c: int) -> T {
        let k = blade_complement(c);
        if blade_negative(k, 31) {
            self.coeff(k)
        } else {
            self.coeff(k).neg_spec()
        }
    }

    /// The coefficient at `c` of what `self` is the dual of: that of the complementary blade,
    /// negated where that blade times the pseudoscalar is negative.
    pub open spec fn undual_coeff(self, c: int) -> T {
        let k = blade_complement(c);
        if blade_negative(k, 31) {
            self.coeff(k).neg_spec()
        } else {
            self.coeff(k)
        }
    }

    /// The dual, blade by blade.
    pub open spec fn complement_spec(self) -> Self {
        Self::build(|c: int| self.dual_coeff(c))
    }

    /// The inverse of the dual, blade by blade.
    pub open spec fn uncomplement_spec(self) -> Self {
        Self::build(|c: int| self.undual_coeff(c))
    }
}

/// The coefficient at `c` of a multivector built from `f` is `f(c)`.
pub proof fn lemma_build_coeff<T>(f: spec_fn(int) -> T, c: int)
    requires
        0 <= c < 32,
    ensures
        R410::build(f).coeff(c) == f(c),
{
}

/// Two multivectors with the same 32 coefficients are the same.
pub proof fn lemma_coeffs_determine<T>(a: R410<T>, b: R410<T>)
    requires
        forall|c: int| 0 <= c < 32 ==> #[trigger] a.coeff(c) == b.coeff(c),
    ensures
        a == b,
{
    assert(a.coeff(0) == b.coeff(0));
    assert(a.coeff(1) == b.coeff(1));
    assert(a.coeff(2) == b.coeff(2));
    assert(a.coeff(3) == b.coeff(3));
    assert(a.coeff(4) == b.coeff(4));
    assert(a.coeff(5) == b.coeff(5));
    assert(a.coeff(6) == b.coeff(6));
    assert(a.coeff(7) == b.coeff(7));
    assert(a.coeff(8) == b.coeff(8));
    assert(a.coeff(9) == b.coeff(9));
    assert(a.coeff(10) == b.coeff(10));
    assert(a.coeff(11) == b.coeff(11));
    assert(a.coeff(12) == b.coeff(12));
    assert(a.coeff(13) == b.coeff(13));
    assert(a.coeff(14) == b.coeff(14));
    assert(a.coeff(15) == b.coeff(15));
    assert(a.coeff(16) == b.coeff(16));
    assert(a.coeff(17) == b.coeff(17));
    assert(a.coeff(18) == b.coeff(18));
    assert(a.coeff(19) == b.coeff(19));
    assert(a.coeff(20) == b.coeff(20));
    assert(a.coeff(21) == b.coeff(21));
    assert(a.coeff(22) == b.coeff(22));
    assert(a.coeff(23) == b.coeff(23));
    assert(a.coeff(24) == b.coeff(24));
    assert(a.coeff(25) == b.coeff(25));
    assert(a.coeff(26) == b.coeff(26));
    assert(a.coeff(27) == b.coeff(27));
    assert(a.coeff(28) == b.coeff(28));
    assert(a.coeff(29) == b.coeff(29));
    assert(a.coeff(30) == b.coeff(30));
    assert(a.coeff(31) == b.coeff(31));
}

/// The coefficient at `c` of a multivector times the scalar one is its own.
proof fn lemma_mul_one_coeff<T: Field>(a: R410<T>, c: int)
    requires
        exact_units::<T>(),
        0 <= c < 32,
    ensures
        partial_sum(Product::Geometric, a, R410::<T>::from_scalar_spec(T::one_spec()), c, 31)
            == a.coeff(c),
{
    let b = R410::<T>::from_scalar_spec(T::one_spec());
    assert forall|x: int| 0 <= x <= 31 && x != c implies #[trigger] term(a, b, c, x)
        == T::zero_spec() by {
        lemma_blade_times_ends(x, c);
    }
    lemma_blade_times_ends(c, c);
    lemma_partial_sum_single(Product::Geometric, a, b, c, 31, c);
}

/// A multivector times the scalar one is itself.
pub proof fn lemma_mul_one<T: Field>(a: R410<T>)
    requires
        exact_units::<T>(),
    ensures
        a.mul_scalar_spec(T::one_spec()) == a,
{
    let p = a.mul_scalar_spec(T::one_spec());
    assert forall|c: int| 0 <= c < 32 implies #[trigger] p.coeff(c) == a.coeff(c) by {
        lemma_mul_one_coeff(a, c);
        lemma_build_coeff(
            |c: int|
                partial_sum(
                    Product::Geometric,
                    a,
                    R410::<T>::from_scalar_spec(T::one_spec()),
                    c,
                    31,
                ),
            c,
        );
    }
    lemma_coeffs_determine(p, a);
}

/// The inverse of the unit pseudoscalar is minus the pseudoscalar.
pub proof fn lemma_pseudoscalar_inverse<T: Field>()
    requires
        exact_units::<T>(),
    ensures
        R410::<T>::basis_spec(31).recip_spec() == R410::<T>::pseudoscalar_inverse_spec(),
{
    let i = R410::<T>::basis_spec(31);
    let m = R410::<T>::pseudoscalar_inverse_spec();
    assert(i.conjugate_spec() == m) by {
        reveal_with_fuel(count_spec, 6);
    }
    assert forall|x: int| 0 <= x <= 31 && x != 31 implies #[trigger] term(i, m, 0, x)
        == T::zero_spec() by {}
    lemma_partial_sum_single(Product::Geometric, i, m, 0, 31, 31);
    assert(blade_times(31, 0) == 31);
    assert(blade_negative(31, 31));
    assert(term(i, m, 0, 31) == T::one_spec().neg_spec());
    assert(i.norm_squared_spec() == T::one_spec());
    lemma_mul_one(m);
}

/// The coefficient at `c` of a multivector times minus the pseudoscalar.
proof fn lemma_dual_coeff<T: Field>(a: R410<T>, c: int)
    requires
        exact_units::<T>(),
        0 <= c < 32,
    ensures
        partial_sum(Product::Geometric, a, R410::<T>::pseudoscalar_inverse_spec(), c, 31)
            == a.dual_coeff(c),
{
    let b = R410::<T>::pseudoscalar_inverse_spec();
    let k = blade_complement(c);
    assert forall|x: int| 0 <= x <= 31 && x != k implies #[trigger] term(a, b, c, x)
        == T::zero_spec() by {
        lemma_blade_times_ends(x, c);
    }
    lemma_blade_times_ends(k, c);
    lemma_partial_sum_single(Product::Geometric, a, b, c, 31, k);
    assert(term(a, b, c, k) == a.coeff(k).neg_spec());
    assert(k == 0 ==> !blade_negative(k, 31));
}

/// The coefficient at `c` of a multivector times the pseudoscalar.
proof fn lemma_undual_coeff<T: Field>(a: R410<T>, c: int)
    requires
        exact_units::<T>(),
        0 <= c < 32,
    ensures
        partial_sum(Product::Geometric, a, R410::<T>::basis_spec(31), c, 31) == a.undual_coeff(c),
{
    let b = R410::<T>::basis_spec(31);
    let k = blade_complement(c);
    assert forall|x: int| 0 <= x <= 31 && x != k implies #[trigger] term(a, b, c, x)
        == T::zero_spec() by {
        lemma_blade_times_ends(x, c);
    }
    lemma_blade_times_ends(k, c);
    lemma_partial_sum_single(Product::Geometric, a, b, c, 31, k);
    assert(term(a, b, c, k) == a.coeff(k));
    assert(k == 0 ==> !blade_negative(k, 31));
}

/// Dividing by the unit pseudoscalar complements each blade's generators, with a sign: the
/// dual is what `complement_spec` writes out.
pub proof fn lemma_dual_complements<T: Field>(a: R410<T>)
    requires
        exact_units::<T>(),
    ensures
        a.dual_spec() == a.complement_spec(),
{
    lemma_pseudoscalar_inverse::<T>();
    let m = R410::<T>::pseudoscalar_inverse_spec();
    let p = a.dual_spec();
    let q = a.complement_spec();
    assert(p == a.mul_spec(m));
    assert forall|c: int| 0 <= c < 32 implies #[trigger] p.coeff(c) == q.coeff(c) by {
        lemma_dual_coeff(a, c);
        lemma_build_coeff(|c: int| partial_sum(Product::Geometric, a, m, c, 31), c);
        lemma_build_coeff(|c: int| a.dual_coeff(c), c);
    }
    lemma_coeffs_determine(p, q);
}

/// Multiplying by the unit pseudoscalar complements each blade's generators, with the
/// opposite sign.
pub proof fn lemma_undual_complements<T: Field>(a: R410<T>)
    requires
        exact_units::<T>(),
    ensures
        a.undual_spec() == a.uncomplement_spec(),
{
    let i = R410::<T>::basis_spec(31);
    let p = a.undual_spec();
    let q = a.uncomplement_spec();
    assert forall|c: int| 0 <= c < 32 implies #[trigger] p.coeff(c) == q.coeff(c) by {
        lemma_undual_coeff(a, c);
        lemma_build_coeff(|c: int| partial_sum(Product::Geometric, a, i, c, 31), c);
        lemma_build_coeff(|c: int| a.undual_coeff(c), c);
    }
    lemma_coeffs_determine(p, q);
}

/// A coefficient that went to the complementary blade and came back is itself again.
proof fn lemma_there_and_back<T: Field>(a: R410<T>, c: int)
    requires
        exact_units::<T>(),
        0 <= c < 32,
    ensures
        a.complement_spec().undual_coeff(c) == a.coeff(c),
        a.uncomplement_spec().dual_coeff(c) == a.coeff(c),
{
    let k = blade_complement(c);
    lemma_blade_times_ends(c, c);
    lemma_complement_sign(c);
    lemma_build_coeff(|c: int| a.dual_coeff(c), k);
    lemma_build_coeff(|c: int| a.undual_coeff(c), k);
}

/// Duality is an involution: `undual` undoes `dual`, and `dual` undoes `undual`.
pub proof fn lemma_dual_undual<T: Field>(a: R410<T>)
    requires
        exact_units::<T>(),
    ensures
        a.dual_spec().undual_spec() == a,
        a.undual_spec().dual_spec() == a,
{
    lemma_dual_complements(a);
    lemma_undual_complements(a);
    lemma_undual_complements(a.complement_spec());
    lemma_dual_complements(a.uncomplement_spec());
    let p = a.complement_spec().uncomplement_spec();
    let q = a.uncomplement_spec().complement_spec();
    assert forall|c: int| 0 <= c < 32 implies #[trigger] p.coeff(c) == a.coeff(c) by {
        lemma_there_and_back(a, c);
        lemma_build_coeff(|c: int| a.complement_spec().undual_coeff(c), c);
    }
    assert forall|c: int| 0 <= c < 32 implies #[trigger] q.coeff(c) == a.coeff(c) by {
        lemma_there_and_back(a, c);
        lemma_build_coeff(|c: int| a.uncomplement_spec().dual_coeff(c), c);
    }
    lemma_coeffs_determine(p, a);
    lemma_coeffs_determine(q, a);
}

/// What is left of a symmetric difference when one of the two masks is taken out again.
proof fn lemma_masks_solve(a: u32, b: u32, c: u32)
    by (bit_vector)
    requires
        a < 32,
        b < 32,
        c < 32,
    ensures
        (a ^ c) == b <==> c == (a ^ b),
{
}

/// The blade at `x` gives the blade at `y` with exactly one blade: their product.
pub proof fn lemma_blade_times_solves(x: int, y: int, c: int)
    requires
        0 <= x < 32,
        0 <= y < 32,
        0 <= c < 32,
    ensures
        blade_times(x, c) == y <==> c == blade_times(x, y),
{
    let gx = blade_generators(x);
    let gy = blade_generators(y);
    let gc = blade_generators(c);
    lemma_blade_index_bijection(x);
    lemma_blade_index_bijection(y);
    lemma_blade_index_bijection(c);
    lemma_xor_is_symmetric_difference(gx as u32, gc as u32);
    lemma_xor_is_symmetric_difference(gx as u32, gy as u32);
    lemma_difference5(gx, gc);
    lemma_difference5(gx, gy);
    lemma_masks_solve(gx as u32, gy as u32, gc as u32);
    lemma_blade_index_bijection(difference5(gx, gc));
    lemma_blade_index_bijection(difference5(gx, gy));
}

impl<T: Field> R410<T> {
    /// The unit blade at place `k`, or its negative.
    pub open spec fn signed_basis_spec(k: int, negative: bool) -> Self {
        Self::build(
            |i: int|
                if i != k {
                    T::zero_spec()
                } else if negative {
                    T::one_spec().neg_spec()
                } else {
                    T::one_spec()
                },
        )
    }
}

/// The coefficients of a unit blade.
proof fn lemma_basis_coeff<T: Field>(x: int, k: int)
    requires
        0 <= k < 32,
    ensures
        R410::<T>::basis_spec(x).coeff(k) == (if k == x {
            T::one_spec()
        } else {
            T::zero_spec()
        }),
{
    lemma_build_coeff(
        |i: int|
            if i == x {
                T::one_spec()
            } else {
                T::zero_spec()
            },
        k,
    );
}

/// The coefficients of a unit blade or its negative.
proof fn lemma_signed_basis_coeff<T: Field>(z: int, negative: bool, c: int)
    requires
        0 <= c < 32,
    ensures
        R410::<T>::signed_basis_spec(z, negative).coeff(c) == (if c != z {
            T::zero_spec()
        } else if negative {
            T::one_spec().neg_spec()
        } else {
            T::one_spec()
        }),
{
    lemma_build_coeff(
        |i: int|
            if i != z {
                T::zero_spec()
            } else if negative {
                T::one_spec().neg_spec()
            } else {
                T::one_spec()
            },
        c,
    );
}

/// The one term of the product of the unit blades at `x` and `y` that need not be zero.
proof fn lemma_unit_blades_term<T: Field>(x: int, y: int, c: int)
    requires
        exact_units::<T>(),
        0 <= x < 32,
        0 <= y < 32,
        0 <= c < 32,
    ensures
        term(R410::<T>::basis_spec(x), R410::<T>::basis_spec(y), c, x) == (if c == blade_times(
            x,
            y,
        ) {
            T::one_spec()
        } else {
            T::zero_spec()
        }),
        forall|k: int|
            0 <= k <= 31 && k != x ==> #[trigger] term(
                R410::<T>::basis_spec(x),
                R410::<T>::basis_spec(y),
                c,
                k,
            ) == T::zero_spec(),
{
    let a = R410::<T>::basis_spec(x);
    let b = R410::<T>::basis_spec(y);
    assert forall|k: int| 0 <= k <= 31 && k != x implies #[trigger] term(a, b, c, k)
        == T::zero_spec() by {
        lemma_basis_coeff::<T>(x, k);
    }
    let yy = blade_times(x, c);
    lemma_blade_index_bijection(x);
    lemma_blade_index_bijection(c);
    lemma_difference5(blade_generators(x), blade_generators(c));
    lemma_blade_index_bijection(difference5(blade_generators(x), blade_generators(c)));
    lemma_basis_coeff::<T>(x, x);
    lemma_basis_coeff::<T>(y, yy);
    lemma_blade_times_solves(x, y, c);
}

/// The coefficient at `c` of the product of the unit blades at `x` and `y`.
proof fn lemma_unit_blades_coeff<T: Field>(x: int, y: int, c: int)
    requires
        exact_units::<T>(),
        0 <= x < 32,
        0 <= y < 32,
        0 <= c < 32,
    ensures
        partial_sum(Product::Geometric, R410::<T>::basis_spec(x), R410::<T>::basis_spec(y), c, 31)
            == R410::<T>::signed_basis_spec(blade_times(x, y), blade_negative(x, y)).coeff(c),
{
    let a = R410::<T>::basis_spec(x);
    let b = R410::<T>::basis_spec(y);
    lemma_unit_blades_term::<T>(x, y, c);
    lemma_partial_sum_single(Product::Geometric, a, b, c, 31, x);
    lemma_signed_basis_coeff::<T>(blade_times(x, y), blade_negative(x, y), c);
    lemma_blade_times_solves(x, y, c);
    lemma_left_unit_sign(y);
}

/// The scalar blade times a blade keeps its sign.
proof fn lemma_left_unit_sign(y: int)
    requires
        0 <= y < 32,
    ensures
        !blade_negative(0, y),
{
}

/// The unit blades multiply as the multiplication table of the blades says: the product of
/// the unit blades at `x` and `y` is the unit blade at `blade_times(x, y)`, negated where
/// `blade_negative(x, y)`.
pub proof fn lemma_unit_blades_multiply<T: Field>(x: int, y: int)
    requires
        exact_units::<T>(),
        0 <= x < 32,
        0 <= y < 32,
    ensures
        R410::<T>::basis_spec(x).mul_spec(R410::<T>::basis_spec(y)) == R410::<T>::signed_basis_spec(
            blade_times(x, y),
            blade_negative(x, y),
        ),
{
    let a = R410::<T>::basis_spec(x);
    let b = R410::<T>::basis_spec(y);
    let p = a.mul_spec(b);
    let q = R410::<T>::signed_basis_spec(blade_times(x, y), blade_negative(x, y));
    assert forall|c: int| 0 <= c < 32 implies #[trigger] p.coeff(c) == q.coeff(c) by {
        lemma_unit_blades_coeff::<T>(x, y, c);
        lemma_build_coeff(|c: int| partial_sum(Product::Geometric, a, b, c, 31), c);
    }
    lemma_coeffs_determine(p, q);
}

/// The coefficient at `c` of a multivector times a scalar is the scalar times the
/// coefficient.
proof fn lemma_mul_scalar_coeff<T: Field>(a: R410<T>, t: T, c: int)
    requires
        exact_units::<T>(),
        0 <= c < 32,
    ensures
        partial_sum(Product::Geometric, a, R410::<T>::from_scalar_spec(t), c, 31) == t.mul_spec(
            a.coeff(c),
        ),
{
    let b = R410::<T>::from_scalar_spec(t);
    assert forall|x: int| 0 <= x <= 31 && x != c implies #[trigger] term(a, b, c, x)
        == T::zero_spec() by {
        lemma_blade_times_ends(x, c);
    }
    lemma_blade_times_ends(c, c);
    lemma_partial_sum_single(Product::Geometric, a, b, c, 31, c);
    lemma_left_unit_sign(c);
    assert(!blade_negative(c, 0)) by {
        lemma_scalar_keeps_sign(c);
    }
}

/// A blade times the scalar blade keeps its sign.
proof fn lemma_scalar_keeps_sign(c: int)
    requires
        0 <= c < 32,
    ensures
        !blade_negative(c, 0),
{
}

/// The negative of a unit blade, or of the negative of one, is the blade with the other sign.
pub proof fn lemma_signed_basis_negated<T: Field>(k: int, negative: bool)
    requires
        exact_units::<T>(),
    ensures
        R410::<T>::signed_basis_spec(k, negative).neg_spec() == R410::<T>::signed_basis_spec(
            k,
            !negative,
        ),
{
    let a = R410::<T>::signed_basis_spec(k, negative);
    let t = T::one_spec().neg_spec();
    let p = a.neg_spec();
    let q = R410::<T>::signed_basis_spec(k, !negative);
    assert forall|c: int| 0 <= c < 32 implies #[trigger] p.coeff(c) == q.coeff(c) by {
        lemma_mul_scalar_coeff(a, t, c);
        lemma_build_coeff(
            |c: int| partial_sum(Product::Geometric, a, R410::<T>::from_scalar_spec(t), c, 31),
            c,
        );
        lemma_signed_basis_coeff::<T>(k, negative, c);
        lemma_signed_basis_coeff::<T>(k, !negative, c);
    }
    lemma_coeffs_determine(p, q);
}

/// A unit blade with the sign `+` is the unit blade.
pub proof fn lemma_signed_basis_positive<T: Field>(k: int)
    ensures
        R410::<T>::signed_basis_spec(k, false) == R410::<T>::basis_spec(k),
{
    let p = R410::<T>::signed_basis_spec(k, false);
    let q = R410::<T>::basis_spec(k);
    assert forall|c: int| 0 <= c < 32 implies #[trigger] p.coeff(c) == q.coeff(c) by {
        lemma_signed_basis_coeff::<T>(k, false, c);
        lemma_basis_coeff::<T>(k, c);
    }
    lemma_coeffs_determine(p, q);
}

/// The product of two unit blades whose product in the table is a blade with the sign `+`:
/// so `e1 e2` is `e12`, and each of `e1`, `e2`, `e3` and `ep` squares to one.
pub proof fn lemma_unit_blades_positive<T: Field>(x: int, y: int, z: int)
    requires
        exact_units::<T>(),
        0 <= x < 32,
        0 <= y < 32,
        z == blade_times(x, y),
        !blade_negative(x, y),
    ensures
        R410::<T>::basis_spec(x).mul_spec(R410::<T>::basis_spec(y)) == R410::<T>::basis_spec(z),
{
    lemma_unit_blades_multiply::<T>(x, y);
    lemma_signed_basis_positive::<T>(z);
}

/// The product of two unit blades whose product in the table is a blade with the sign `-`:
/// so `e2 e1` is minus `e12`, and `en` squares to minus one.
pub proof fn lemma_unit_blades_negative<T: Field>(x: int, y: int, z: int)
    requires
        exact_units::<T>(),
        0 <= x < 32,
        0 <= y < 32,
        z == blade_times(x, y),
        blade_negative(x, y),
    ensures
        R410::<T>::basis_spec(x).mul_spec(R410::<T>::basis_spec(y)) == R410::<T>::basis_spec(
            z,
        ).neg_spec(),
        R410::<T>::basis_spec(x).mul_spec(R410::<T>::basis_spec(y)).neg_spec()
            == R410::<T>::basis_spec(z),
{
    lemma_unit_blades_multiply::<T>(x, y);
    lemma_signed_basis_positive::<T>(z);
    lemma_signed_basis_negated::<T>(z, false);
    lemma_signed_basis_negated::<T>(z, true);
}

} // verus!
