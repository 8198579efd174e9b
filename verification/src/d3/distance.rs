//! The scalar product of two points measures their distance: it is minus half the square of
//! the distance of the two.
//!
//! The law is stated of scalars that a field embedding reads as real numbers.

use vstd::prelude::*;
use crate::d3::centre::lemma_normalized_values;
use crate::d3::free::Vector;
use crate::d3::motion::lemma_distribute3;
use crate::d3::motion::lemma_point_shadow;
use crate::d3::motion::lemma_point_values;
use crate::d3::motion::square;
use crate::d3::round::Point;
use crate::field::half_spec;
use crate::field::two_spec;
use crate::field::Field;
use crate::r410::exact::at;
use crate::r410::exact::homomorphic;
use crate::r410::exact::lemma_commute;
use crate::r410::exact::lemma_distribute;
use crate::r410::exact::lemma_half;
use crate::r410::exact::lemma_half_twice;
use crate::r410::exact::lemma_inner_coeff;
use crate::r410::exact::lemma_sign_out;
use crate::r410::exact::lemma_square_of_sum;
use crate::r410::exact::lemma_two_out;
use crate::r410::exact::shadow;
use crate::r410::roots::is_root;
use crate::r410::roots::rooted;
use crate::r410::sparse::lemma_point_inner_point_s;
use crate::spaces::Euclidean;
use crate::Multivec;

verus! {

/// The square of the distance of the vectors `a` and `b`, read as a real number.
pub open spec fn squared_distance<T: Field>(val: spec_fn(T) -> real, a: Vector<T>, b: Vector<T>) -> real {
    (at(val, a.e1) - at(val, b.e1)) * (at(val, a.e1) - at(val, b.e1)) + (at(val, a.e2) - at(
        val,
        b.e2,
    )) * (at(val, a.e2) - at(val, b.e2)) + (at(val, a.e3) - at(val, b.e3)) * (at(val, a.e3) - at(
        val,
        b.e3,
    ))
}

/// Half the square of a difference, for a half `h`.
proof fn lemma_half_square_of_difference(h: real, a: real, b: real)
    requires
        h * 2real == 1real,
    ensures
        h * ((a - b) * (a - b)) == h * (a * a) - b * a + h * (b * b),
{
    let n = -b;
    lemma_square_of_sum(a, n);
    lemma_sign_out(a, b);
    lemma_sign_out(b, n);
    lemma_sign_out(b, b);
    assert(n * n == b * b);
    assert((a - b) * (a - b) == a * a - 2real * (a * b) + b * b);
    lemma_distribute(h, a * a - 2real * (a * b), b * b);
    lemma_distribute(h, a * a, 2real * (a * b));
    lemma_two_out(h, a * b);
    lemma_half_twice(h, a * b);
    lemma_commute(a, b);
}

/// What the null pair gives to the scalar product of two points, for a half `h` and half
/// squares `m` and `n`.
proof fn lemma_null_parts(h: real, m: real, n: real)
    requires
        h * 2real == 1real,
    ensures
        (n - h) * (m - h) - (n + h) * (m + h) == -m - n,
{
    lemma_distribute(m - h, n, h);
    lemma_distribute(m + h, n, h);
    lemma_distribute(n, m, h);
    lemma_distribute(h, m, h);
    assert((n - h) * (m - h) - (n + h) * (m + h) == -(2real * (n * h)) - 2real * (h * m));
    lemma_commute(n, h);
    lemma_half_twice(h, n);
    lemma_half_twice(h, m);
}

/// The scalar product of the points of two vectors is minus half the square of the distance
/// of the vectors.
///
/// It is so wherever `val` reads the scalars as real numbers, sums as sums and products as
/// products.
pub proof fn lemma_point_dot_is_distance<T: Field>(
    val: spec_fn(T) -> real,
    a: Vector<T>,
    b: Vector<T>,
)
    requires
        homomorphic(val),
    ensures
        at(val, a.into_point_spec::<Euclidean>().dot_spec(b.into_point_spec::<Euclidean>())) == -(
        at(val, half_spec::<T>()) * squared_distance(val, a, b)),
{
    let x: Point<T> = a.into_point_spec::<Euclidean>();
    let y: Point<T> = b.into_point_spec::<Euclidean>();
    let h = at(val, half_spec::<T>());
    let a1 = at(val, a.e1);
    let a2 = at(val, a.e2);
    let a3 = at(val, a.e3);
    let b1 = at(val, b.e1);
    let b2 = at(val, b.e2);
    let b3 = at(val, b.e3);
    let m = h * square(val, a);
    let n = h * square(val, b);
    lemma_half(val);
    lemma_point_values(val, a);
    lemma_point_values(val, b);
    lemma_point_shadow(val, x);
    lemma_point_shadow(val, y);
    let sx = shadow(val, x.into_mv_spec());
    let sy = shadow(val, y.into_mv_spec());
    lemma_inner_coeff(val, x.into_mv_spec(), y.into_mv_spec(), 0);
    lemma_point_inner_point_s(sx, sy);
    assert(at(val, x.dot_spec(y)) == b1 * a1 + b2 * a2 + b3 * a3 + (n - h) * (m - h) - (n + h) * (m
        + h));
    lemma_null_parts(h, m, n);
    lemma_half_square_of_difference(h, a1, b1);
    lemma_half_square_of_difference(h, a2, b2);
    lemma_half_square_of_difference(h, a3, b3);
    lemma_distribute3(h, a1 * a1, a2 * a2, a3 * a3);
    lemma_distribute3(h, b1 * b1, b2 * b2, b3 * b3);
    lemma_distribute3(
        h,
        (a1 - b1) * (a1 - b1),
        (a2 - b2) * (a2 - b2),
        (a3 - b3) * (a3 - b3),
    );
}

/// The distance of the points of two vectors is the square root of the square of the
/// distance of the vectors: what `distance` takes the root of is that square.
///
/// It is so wherever `val` reads the scalars as real numbers, sums as sums and products as
/// products.
pub proof fn lemma_distance_is_a_root<T: Field>(val: spec_fn(T) -> real, a: Vector<T>, b: Vector<T>)
    requires
        homomorphic(val),
    ensures
        ({
            let x = a.into_point_spec::<Euclidean>();
            let y = b.into_point_spec::<Euclidean>();
            let t = x.normalize_spec().dot_spec(y.normalize_spec()).mul_spec(
                two_spec::<T>().neg_spec(),
            );
            &&& x.distance_spec(y) == t.sqrt_spec()
            &&& at(val, t) == squared_distance(val, a, b)
        }),
{
    let x: Point<T> = a.into_point_spec::<Euclidean>().normalize_spec();
    let y: Point<T> = b.into_point_spec::<Euclidean>().normalize_spec();
    let h = at(val, half_spec::<T>());
    let a1 = at(val, a.e1);
    let a2 = at(val, a.e2);
    let a3 = at(val, a.e3);
    let b1 = at(val, b.e1);
    let b2 = at(val, b.e2);
    let b3 = at(val, b.e3);
    let m = h * square(val, a);
    let n = h * square(val, b);
    let dot = at(val, x.dot_spec(y));
    lemma_half(val);
    lemma_normalized_values(val, a);
    lemma_normalized_values(val, b);
    lemma_point_shadow(val, x);
    lemma_point_shadow(val, y);
    let sx = shadow(val, x.into_mv_spec());
    let sy = shadow(val, y.into_mv_spec());
    lemma_inner_coeff(val, x.into_mv_spec(), y.into_mv_spec(), 0);
    lemma_point_inner_point_s(sx, sy);
    lemma_sign_out(b1, -a1);
    lemma_sign_out(b1, a1);
    lemma_sign_out(b2, -a2);
    lemma_sign_out(b2, a2);
    lemma_sign_out(b3, -a3);
    lemma_sign_out(b3, a3);
    lemma_sign_out(n - h, -(m - h));
    lemma_sign_out(n - h, m - h);
    lemma_sign_out(n + h, -(m + h));
    lemma_sign_out(n + h, m + h);
    assert(dot == b1 * a1 + b2 * a2 + b3 * a3 + (n - h) * (m - h) - (n + h) * (m + h));
    lemma_null_parts(h, m, n);
    lemma_half_square_of_difference(h, a1, b1);
    lemma_half_square_of_difference(h, a2, b2);
    lemma_half_square_of_difference(h, a3, b3);
    lemma_distribute3(h, a1 * a1, a2 * a2, a3 * a3);
    lemma_distribute3(h, b1 * b1, b2 * b2, b3 * b3);
    lemma_distribute3(
        h,
        (a1 - b1) * (a1 - b1),
        (a2 - b2) * (a2 - b2),
        (a3 - b3) * (a3 - b3),
    );
    assert(dot == -(h * squared_distance(val, a, b)));
    assert(at(val, two_spec::<T>().neg_spec()) == -2real) by {
        reveal(homomorphic);
    }
    assert(at(val, x.dot_spec(y).mul_spec(two_spec::<T>().neg_spec())) == dot * at(
        val,
        two_spec::<T>().neg_spec(),
    )) by {
        reveal(homomorphic);
    }
    lemma_minus_two_of_minus_half(dot, at(val, two_spec::<T>().neg_spec()), h, squared_distance(
        val,
        a,
        b,
    ));
}

/// The distance of the points of two vectors is the distance of the vectors: the root of the
/// square of their distance, so the root of 45 for `(1, 0, 0)` and `(3, 4, 5)`.
///
/// It is so wherever `val` reads the scalars as real numbers, sums as sums and products as
/// products, and the roots as the real numbers have them.
pub proof fn lemma_distance_value<T: Field>(
    val: spec_fn(T) -> real,
    a: Vector<T>,
    b: Vector<T>,
    r: real,
)
    requires
        homomorphic(val),
        rooted(val),
        is_root(r, squared_distance(val, a, b)),
    ensures
        at(val, a.into_point_spec::<Euclidean>().distance_spec(b.into_point_spec::<Euclidean>()))
            == r,
{
    let x = a.into_point_spec::<Euclidean>();
    let y = b.into_point_spec::<Euclidean>();
    let t = x.normalize_spec().dot_spec(y.normalize_spec()).mul_spec(two_spec::<T>().neg_spec());
    lemma_distance_is_a_root(val, a, b);
    assert(is_root(r, at(val, t)));
    reveal(rooted);
}

/// Minus two times minus a half of a number is the number.
proof fn lemma_minus_two_of_minus_half(d: real, t: real, h: real, x: real)
    by (nonlinear_arith)
    requires
        d == -(h * x),
        t == -2real,
        h * 2real == 1real,
    ensures
        d * t == x,
{
}

} // verus!
