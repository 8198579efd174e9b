//! Scalars read as real numbers.
//!
//! A field embedding reads each scalar as a real number, so that sums go to sums and products
//! to products. Under it a multivector has a shadow with real coefficients, and each
//! coefficient of a product of multivectors is the same sum over the shadows. What the
//! library computes can then be compared by real arithmetic.

use vstd::prelude::*;
use crate::blades::blade_generators;
use crate::blades::blade_negative;
use crate::blades::blade_times;
use crate::blades::lemma_difference5;
use crate::field::half_spec;
use crate::field::two_spec;
use crate::field::Field;
use crate::r410::units::exact_units;
use crate::r410::units::lemma_blade_index_bijection;
use crate::r410::units::lemma_blade_times_ends;
use crate::r410::units::lemma_build_coeff;
use crate::r410::products::keeps;
use crate::r410::products::partial_sum;
use crate::r410::products::Product;
use crate::r410::R410;

verus! {

/// The real number that `val` reads the scalar `a` as.
pub open spec fn at<T>(val: spec_fn(T) -> real, a: T) -> real {
    val(a)
}

/// `val` takes zero, one, sums, differences, products, negatives and inverses of scalars to
/// those of real numbers.
#[verifier::opaque]
pub open spec fn homomorphic<T: Field>(val: spec_fn(T) -> real) -> bool {
    &&& at(val, T::zero_spec()) == 0real
    &&& at(val, T::one_spec()) == 1real
    &&& forall|a: T, b: T| #[trigger] at(val, a.add_spec(b)) == at(val, a) + at(val, b)
    &&& forall|a: T, b: T| #[trigger] at(val, a.sub_spec(b)) == at(val, a) - at(val, b)
    &&& forall|a: T, b: T| #[trigger] at(val, a.mul_spec(b)) == at(val, a) * at(val, b)
    &&& forall|a: T| #[trigger] at(val, a.neg_spec()) == -at(val, a)
    &&& forall|a: T|
        at(val, a) != 0real ==> #[trigger] at(val, a.recip_spec()) * at(val, a) == 1real
}

/// `val` reads different scalars as different real numbers.
#[verifier::opaque]
pub open spec fn injective<T>(val: spec_fn(T) -> real) -> bool {
    forall|a: T, b: T| #![trigger at(val, a), at(val, b)] at(val, a) == at(val, b) ==> a == b
}

/// `val` embeds the scalars in the real numbers: they compute exactly, as a field of real
/// numbers does.
pub open spec fn embeds<T: Field>(val: spec_fn(T) -> real) -> bool {
    homomorphic(val) && injective(val)
}

/// Scalars that are read as the same real number are the same.
pub proof fn lemma_same_value<T: Field>(val: spec_fn(T) -> real, a: T, b: T)
    requires
        embeds(val),
        at(val, a) == at(val, b),
    ensures
        a == b,
{
    reveal(injective);
}

/// Scalars that are embedded in the real numbers compute exactly with zero, one and minus
/// one.
pub proof fn lemma_embedded_units<T: Field>(val: spec_fn(T) -> real)
    requires
        embeds(val),
    ensures
        exact_units::<T>(),
{
    reveal(homomorphic);
    let zero = T::zero_spec();
    let one = T::one_spec();
    assert forall|a: T| #[trigger] zero.mul_spec(a) == zero by {
        lemma_zero_times(at(val, zero), at(val, a));
        lemma_same_value(val, zero.mul_spec(a), zero);
    }
    assert forall|a: T| #[trigger] a.mul_spec(zero) == zero by {
        lemma_zero_times(at(val, a), at(val, zero));
        lemma_same_value(val, a.mul_spec(zero), zero);
    }
    assert forall|a: T| #[trigger] one.mul_spec(a) == a by {
        lemma_one_times(at(val, one), at(val, a));
        lemma_same_value(val, one.mul_spec(a), a);
    }
    assert forall|a: T| #[trigger] a.mul_spec(one) == a by {
        lemma_one_times(at(val, one), at(val, a));
        lemma_same_value(val, a.mul_spec(one), a);
    }
    assert forall|a: T| #[trigger] one.neg_spec().mul_spec(a) == a.neg_spec() by {
        lemma_minus_one_times(at(val, one.neg_spec()), at(val, a));
        lemma_same_value(val, one.neg_spec().mul_spec(a), a.neg_spec());
    }
    assert forall|a: T| #[trigger] a.add_spec(zero) == a by {
        lemma_same_value(val, a.add_spec(zero), a);
    }
    assert forall|a: T| #[trigger] zero.add_spec(a) == a by {
        lemma_same_value(val, zero.add_spec(a), a);
    }
    assert forall|a: T| #[trigger] a.sub_spec(zero) == a by {
        lemma_same_value(val, a.sub_spec(zero), a);
    }
    assert forall|a: T| #[trigger] zero.sub_spec(a) == a.neg_spec() by {
        lemma_same_value(val, zero.sub_spec(a), a.neg_spec());
    }
    assert forall|a: T| #[trigger] a.neg_spec().neg_spec() == a by {
        lemma_same_value(val, a.neg_spec().neg_spec(), a);
    }
    assert(zero.neg_spec() == zero) by {
        lemma_same_value(val, zero.neg_spec(), zero);
    }
    assert(one.recip_spec() == one) by {
        lemma_one_times(at(val, one), at(val, one.recip_spec()));
        lemma_same_value(val, one.recip_spec(), one);
    }
}

/// One half is read as the real number whose double is one.
pub proof fn lemma_half<T: Field>(val: spec_fn(T) -> real)
    requires
        homomorphic(val),
    ensures
        at(val, two_spec::<T>()) == 2real,
        at(val, half_spec::<T>()) * 2real == 1real,
{
    reveal(homomorphic);
    assert(at(val, two_spec::<T>()) == 2real);
    assert(at(val, two_spec::<T>().recip_spec()) * at(val, two_spec::<T>()) == 1real);
}

/// The multivector with the coefficients of `a`, read as real numbers.
pub open spec fn shadow<T: Field>(val: spec_fn(T) -> real, a: R410<T>) -> R410<real> {
    R410::build(|i: int| at(val, a.coeff(i)))
}

/// The coefficient at `c` of the product `kind` of the real multivectors `a` and `b`, summed
/// over the left blades at places `0..=n`: what `partial_sum` is for scalars.
pub open spec fn real_sum(kind: Product, a: R410<real>, b: R410<real>, c: int, n: int) -> real
    decreases n,
{
    if n <= 0 {
        b.coeff(c) * a.coeff(0)
    } else {
        let sum = real_sum(kind, a, b, c, n - 1);
        let y = blade_times(n, c);
        if !keeps(kind, n, y) {
            sum
        } else if blade_negative(n, y) {
            sum - b.coeff(y) * a.coeff(n)
        } else {
            sum + b.coeff(y) * a.coeff(n)
        }
    }
}

/// The real number `t` as a multivector.
pub open spec fn real_scalar(t: real) -> R410<real> {
    R410::build(
        |c: int|
            if c == 0 {
                t
            } else {
                0real
            },
    )
}

/// A product with a factor zero is zero.
pub proof fn lemma_zero_times(b: real, a: real)
    by (nonlinear_arith)
    requires
        b == 0real || a == 0real,
    ensures
        b * a == 0real,
{
}

/// The first term of a sum of real terms.
pub proof fn lemma_step_first(kind: Product, a: R410<real>, b: R410<real>, c: int)
    ensures
        real_sum(kind, a, b, c, 0) == b.coeff(c) * a.coeff(0),
{
}

/// A term with a factor zero leaves a sum of real terms as it is.
pub proof fn lemma_step_zero(kind: Product, a: R410<real>, b: R410<real>, c: int, n: int, y: int)
    requires
        1 <= n,
        y == blade_times(n, c),
        a.coeff(n) == 0real || b.coeff(y) == 0real,
    ensures
        real_sum(kind, a, b, c, n) == real_sum(kind, a, b, c, n - 1),
{
    lemma_zero_times(b.coeff(y), a.coeff(n));
}

/// A term that the product does not keep leaves a sum of real terms as it is.
pub proof fn lemma_step_skip(kind: Product, a: R410<real>, b: R410<real>, c: int, n: int, y: int)
    requires
        1 <= n,
        y == blade_times(n, c),
        !keeps(kind, n, y),
    ensures
        real_sum(kind, a, b, c, n) == real_sum(kind, a, b, c, n - 1),
{
}

/// A term of a positive product of blades is added to a sum of real terms.
pub proof fn lemma_step_add(kind: Product, a: R410<real>, b: R410<real>, c: int, n: int, y: int)
    requires
        1 <= n,
        y == blade_times(n, c),
        keeps(kind, n, y),
        !blade_negative(n, y),
    ensures
        real_sum(kind, a, b, c, n) == real_sum(kind, a, b, c, n - 1) + b.coeff(y) * a.coeff(n),
{
}

/// A term of a negative product of blades is taken from a sum of real terms.
pub proof fn lemma_step_sub(kind: Product, a: R410<real>, b: R410<real>, c: int, n: int, y: int)
    requires
        1 <= n,
        y == blade_times(n, c),
        keeps(kind, n, y),
        blade_negative(n, y),
    ensures
        real_sum(kind, a, b, c, n) == real_sum(kind, a, b, c, n - 1) - b.coeff(y) * a.coeff(n),
{
}

/// The product of two blades of the enumeration is a blade of the enumeration.
pub proof fn lemma_blade_times_in_range(x: int, c: int)
    requires
        0 <= x < 32,
        0 <= c < 32,
    ensures
        0 <= blade_times(x, c) < 32,
{
    lemma_blade_index_bijection(x);
    lemma_blade_index_bijection(c);
    lemma_difference5(blade_generators(x), blade_generators(c));
    lemma_blade_index_bijection(crate::blades::difference5(blade_generators(x), blade_generators(c)));
}

/// A coefficient of the shadow is the coefficient, read as a real number.
pub proof fn lemma_shadow_coeff<T: Field>(val: spec_fn(T) -> real, a: R410<T>, c: int)
    requires
        0 <= c < 32,
    ensures
        shadow(val, a).coeff(c) == at(val, a.coeff(c)),
{
    lemma_build_coeff(|i: int| at(val, a.coeff(i)), c);
}

/// The sums that make up a product go to the sums of the shadows.
pub proof fn lemma_shadow_sum<T: Field>(
    val: spec_fn(T) -> real,
    kind: Product,
    a: R410<T>,
    b: R410<T>,
    c: int,
    n: int,
)
    requires
        homomorphic(val),
        0 <= c < 32,
        0 <= n < 32,
    ensures
        at(val, partial_sum(kind, a, b, c, n)) == real_sum(
            kind,
            shadow(val, a),
            shadow(val, b),
            c,
            n,
        ),
    decreases n,
{
    reveal(homomorphic);
    lemma_blade_times_in_range(n, c);
    lemma_shadow_coeff(val, a, n);
    lemma_shadow_coeff(val, b, blade_times(n, c));
    lemma_shadow_coeff(val, b, c);
    if n > 0 {
        lemma_shadow_sum(val, kind, a, b, c, n - 1);
    }
}

/// The shadow of a scalar is the real number it is read as.
pub proof fn lemma_shadow_scalar<T: Field>(val: spec_fn(T) -> real, t: T)
    requires
        homomorphic(val),
    ensures
        shadow(val, R410::from_scalar_spec(t)) == real_scalar(at(val, t)),
{
    reveal(homomorphic);
}

/// A sum of real terms of which all but that of the left blade at `k` are zero.
proof fn lemma_real_sum_single(kind: Product, a: R410<real>, b: R410<real>, c: int, n: int, k: int)
    requires
        0 <= n,
        0 <= k,
        forall|x: int|
            0 <= x <= n && x != k ==> #[trigger] b.coeff(blade_times(x, c)) == 0real
                || a.coeff(x) == 0real,
    ensures
        real_sum(kind, a, b, c, n) == (if n < k {
            0real
        } else if k == 0 {
            b.coeff(blade_times(k, c)) * a.coeff(k)
        } else if !keeps(kind, k, blade_times(k, c)) {
            0real
        } else if blade_negative(k, blade_times(k, c)) {
            -(b.coeff(blade_times(k, c)) * a.coeff(k))
        } else {
            b.coeff(blade_times(k, c)) * a.coeff(k)
        }),
    decreases n,
{
    if n > 0 {
        lemma_real_sum_single(kind, a, b, c, n - 1, k);
        if n != k {
            assert(b.coeff(blade_times(n, c)) == 0real || a.coeff(n) == 0real);
            lemma_zero_times(b.coeff(blade_times(n, c)), a.coeff(n));
        }
    } else {
        lemma_blade_times_ends(0, 0);
        if k != 0 {
            assert(b.coeff(blade_times(0, c)) == 0real || a.coeff(0) == 0real);
            lemma_zero_times(b.coeff(blade_times(0, c)), a.coeff(0));
        }
    }
}

/// A sum of real terms each of which is dropped or has a factor zero is zero.
pub proof fn lemma_real_sum_vanishes(kind: Product, a: R410<real>, b: R410<real>, c: int, n: int)
    requires
        0 <= n,
        b.coeff(c) == 0real || a.coeff(0) == 0real,
        forall|x: int|
            1 <= x <= n ==> !keeps(kind, x, #[trigger] blade_times(x, c)) || a.coeff(x) == 0real
                || b.coeff(blade_times(x, c)) == 0real,
    ensures
        real_sum(kind, a, b, c, n) == 0real,
    decreases n,
{
    if n > 0 {
        lemma_real_sum_vanishes(kind, a, b, c, n - 1);
        let y = blade_times(n, c);
        if keeps(kind, n, y) {
            lemma_zero_times(b.coeff(y), a.coeff(n));
        }
    } else {
        lemma_zero_times(b.coeff(c), a.coeff(0));
    }
}

/// The coefficient at `c` of the geometric product with a multivector that is a scalar.
pub proof fn lemma_scalar_on_the_right(a: R410<real>, b: R410<real>, c: int)
    requires
        0 <= c < 32,
        forall|i: int| 1 <= i < 32 ==> #[trigger] b.coeff(i) == 0real,
    ensures
        real_sum(Product::Geometric, a, b, c, 31) == b.s * a.coeff(c),
{
    assert forall|x: int| 0 <= x <= 31 && x != c implies #[trigger] b.coeff(blade_times(x, c))
        == 0real || a.coeff(x) == 0real by {
        lemma_blade_times_ends(x, c);
        lemma_blade_times_in_range(x, c);
    }
    lemma_blade_times_ends(c, c);
    lemma_real_sum_single(Product::Geometric, a, b, c, 31, c);
    assert(blade_times(c, c) == 0);
    assert(!blade_negative(c, 0)) by {
        lemma_right_unit_sign(c);
    }
}

/// A coefficient of a real number as a multivector.
proof fn lemma_real_scalar_coeff(t: real, y: int)
    requires
        0 <= y < 32,
    ensures
        real_scalar(t).coeff(y) == (if y == 0 {
            t
        } else {
            0real
        }),
{
}

/// The coefficient at `c` of the geometric product with a real number.
pub proof fn lemma_real_scale_coeff(a: R410<real>, t: real, c: int)
    requires
        0 <= c < 32,
    ensures
        real_sum(Product::Geometric, a, real_scalar(t), c, 31) == t * a.coeff(c),
{
    let b = real_scalar(t);
    assert forall|x: int| 0 <= x <= 31 && x != c implies #[trigger] b.coeff(blade_times(x, c))
        == 0real || a.coeff(x) == 0real by {
        lemma_blade_times_ends(x, c);
        lemma_blade_times_in_range(x, c);
        lemma_real_scalar_coeff(t, blade_times(x, c));
    }
    lemma_blade_times_ends(c, c);
    lemma_real_scalar_coeff(t, 0);
    lemma_real_sum_single(Product::Geometric, a, b, c, 31, c);
    assert(blade_times(c, c) == 0);
    assert(!blade_negative(c, 0)) by {
        lemma_right_unit_sign(c);
    }
}

/// A blade times the scalar blade keeps its sign.
proof fn lemma_right_unit_sign(c: int)
    requires
        0 <= c < 32,
    ensures
        !blade_negative(c, 0),
{
}

/// A product with a factor one is the other factor.
pub proof fn lemma_one_times(b: real, a: real)
    by (nonlinear_arith)
    requires
        b == 1real,
    ensures
        b * a == a,
        a * b == a,
{
}

/// A product with a factor minus one is the negative of the other factor.
pub proof fn lemma_minus_one_times(b: real, a: real)
    by (nonlinear_arith)
    requires
        b == -1real,
    ensures
        b * a == -a,
        a * b == -a,
{
}

/// A coefficient of a geometric product, read as a real number, is the sum over the shadows.
pub proof fn lemma_product_coeff<T: Field>(val: spec_fn(T) -> real, a: R410<T>, b: R410<T>, c: int)
    requires
        homomorphic(val),
        0 <= c < 32,
    ensures
        at(val, a.mul_spec(b).coeff(c)) == real_sum(
            Product::Geometric,
            shadow(val, a),
            shadow(val, b),
            c,
            31,
        ),
{
    reveal(homomorphic);
    lemma_shadow_sum(val, Product::Geometric, a, b, c, 31);
    lemma_build_coeff(|c: int| partial_sum(Product::Geometric, a, b, c, 31), c);
}

/// A coefficient of an inner product, read as a real number, is the sum over the shadows.
pub proof fn lemma_inner_coeff<T: Field>(val: spec_fn(T) -> real, a: R410<T>, b: R410<T>, c: int)
    requires
        homomorphic(val),
        0 <= c < 32,
    ensures
        at(val, a.inner_spec(b).coeff(c)) == real_sum(
            Product::Inner,
            shadow(val, a),
            shadow(val, b),
            c,
            31,
        ),
{
    lemma_shadow_sum(val, Product::Inner, a, b, c, 31);
    lemma_build_coeff(|c: int| partial_sum(Product::Inner, a, b, c, 31), c);
}

/// A coefficient of an outer product, read as a real number, is the sum over the shadows.
pub proof fn lemma_outer_coeff<T: Field>(val: spec_fn(T) -> real, a: R410<T>, b: R410<T>, c: int)
    requires
        homomorphic(val),
        0 <= c < 32,
    ensures
        at(val, a.outer_spec(b).coeff(c)) == real_sum(
            Product::Outer,
            shadow(val, a),
            shadow(val, b),
            c,
            31,
        ),
{
    lemma_shadow_sum(val, Product::Outer, a, b, c, 31);
    lemma_build_coeff(|c: int| partial_sum(Product::Outer, a, b, c, 31), c);
}

/// A coefficient of a multivector times a scalar is the product of the two, as real numbers.
pub proof fn lemma_scaled_coeff<T: Field>(val: spec_fn(T) -> real, a: R410<T>, t: T, c: int)
    requires
        homomorphic(val),
        0 <= c < 32,
    ensures
        at(val, a.mul_scalar_spec(t).coeff(c)) == at(val, t) * at(val, a.coeff(c)),
{
    reveal(homomorphic);
    lemma_product_coeff(val, a, R410::from_scalar_spec(t), c);
    lemma_shadow_scalar(val, t);
    lemma_real_scale_coeff(shadow(val, a), at(val, t), c);
    lemma_shadow_coeff(val, a, c);
}

/// A coefficient of the negative of a multivector is the negative of the coefficient, as
/// real numbers.
pub proof fn lemma_negated_coeff<T: Field>(val: spec_fn(T) -> real, a: R410<T>, c: int)
    requires
        homomorphic(val),
        0 <= c < 32,
    ensures
        at(val, a.neg_spec().coeff(c)) == -at(val, a.coeff(c)),
{
    reveal(homomorphic);
    lemma_scaled_coeff(val, a, T::one_spec().neg_spec(), c);
    lemma_minus_one_times(at(val, T::one_spec().neg_spec()), at(val, a.coeff(c)));
}

/// A coefficient of a sum of multivectors is the sum of the coefficients, as real numbers.
pub proof fn lemma_sum_coeff<T: Field>(val: spec_fn(T) -> real, a: R410<T>, b: R410<T>, c: int)
    requires
        homomorphic(val),
        0 <= c < 32,
    ensures
        at(val, a.add_spec(b).coeff(c)) == at(val, a.coeff(c)) + at(val, b.coeff(c)),
{
    reveal(homomorphic);
    lemma_build_coeff(|i: int| a.coeff(i).add_spec(b.coeff(i)), c);
}

/// A coefficient of a multivector with a scalar added, as real numbers.
pub proof fn lemma_scalar_added_coeff<T: Field>(val: spec_fn(T) -> real, a: R410<T>, t: T, c: int)
    requires
        homomorphic(val),
        0 <= c < 32,
    ensures
        at(val, a.add_scalar_spec(t).coeff(c)) == at(val, a.coeff(c)) + (if c == 0 {
            at(val, t)
        } else {
            0real
        }),
{
    reveal(homomorphic);
    lemma_sum_coeff(val, a, R410::from_scalar_spec(t), c);
    lemma_build_coeff(
        |i: int|
            if i == 0 {
                t
            } else {
                T::zero_spec()
            },
        c,
    );
}

/// Multiplication distributes over a sum of two real numbers.
pub proof fn lemma_distribute(a: real, b: real, c: real)
    by (nonlinear_arith)
    ensures
        a * (b + c) == a * b + a * c,
        a * (b - c) == a * b - a * c,
        (b + c) * a == b * a + c * a,
        (b - c) * a == b * a - c * a,
{
}

/// The order of two real factors does not matter.
pub proof fn lemma_commute(a: real, b: real)
    by (nonlinear_arith)
    ensures
        a * b == b * a,
{
}

/// A sign can be taken out of a product of real numbers.
pub proof fn lemma_sign_out(a: real, b: real)
    by (nonlinear_arith)
    ensures
        (-a) * b == -(a * b),
        a * (-b) == -(a * b),
{
}

/// A factor two can be taken out of a product of real numbers.
pub proof fn lemma_two_out(a: real, b: real)
    by (nonlinear_arith)
    ensures
        (2real * a) * b == 2real * (a * b),
        a * (2real * b) == 2real * (a * b),
{
}

/// Half of half of a real number, four times over, is the number.
pub proof fn lemma_quarter(h: real, d: real)
    by (nonlinear_arith)
    requires
        h * 2real == 1real,
    ensures
        4real * (h * (h * d)) == d,
{
}

/// A real factor can change places with a half.
pub proof fn lemma_half_through(h: real, p: real, d: real)
    by (nonlinear_arith)
    ensures
        p * (h * d) == h * (p * d),
        (h * d) * p == h * (p * d),
{
}

/// The square of a sum of two real numbers.
pub proof fn lemma_square_of_sum(p: real, d: real)
    by (nonlinear_arith)
    ensures
        (p + d) * (p + d) == p * p + 2real * (p * d) + d * d,
{
}

/// Twice the half of a real number is the number.
pub proof fn lemma_half_twice(h: real, x: real)
    by (nonlinear_arith)
    requires
        h * 2real == 1real,
    ensures
        2real * (h * x) == x,
{
}

/// A product with a factor two is twice the other factor.
pub proof fn lemma_two_times(b: real, a: real)
    by (nonlinear_arith)
    requires
        b == 2real,
    ensures
        b * a == 2real * a,
{
}

/// Minus two times minus two is four.
pub proof fn lemma_minus_two_squared(b: real, a: real)
    by (nonlinear_arith)
    requires
        b == -2real,
        a == -2real,
    ensures
        b * a == 4real,
{
}

/// The inverse of four is a quarter.
pub proof fn lemma_inverse_of_four(r: real, n: real)
    by (nonlinear_arith)
    requires
        r * n == 1real,
        n == 4real,
    ensures
        4real * r == 1real,
{
}

/// A quarter of minus two is minus a half.
pub proof fn lemma_quarter_of_minus_two(r: real, b: real)
    by (nonlinear_arith)
    requires
        4real * r == 1real,
        b == -2real,
    ensures
        2real * (r * b) == -1real,
{
}

/// Minus a half of minus twice a number is the number.
pub proof fn lemma_minus_half_of_minus_twice(t: real, b: real, x: real)
    by (nonlinear_arith)
    requires
        2real * t == -1real,
        b == -(2real * x),
    ensures
        t * b == x,
{
}

/// Minus a half of a number, twice over, is minus the number.
pub proof fn lemma_minus_half_times(t: real, y: real)
    by (nonlinear_arith)
    requires
        2real * t == -1real,
    ensures
        2real * (t * y) == -y,
{
}

/// The inverse of minus one is minus one.
pub proof fn lemma_inverse_of_minus_one(r: real, n: real)
    by (nonlinear_arith)
    requires
        r * n == 1real,
        n == -1real,
    ensures
        r == -1real,
{
}

} // verus!
