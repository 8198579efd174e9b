//! A pair of points comes apart into its two points.
//!
//! The join of two normalized points, different in their coordinates, is decomposed into the
//! two points, in their order; a join with the point at infinity is not decomposed. The laws
//! are stated of scalars that a field embedding reads as real numbers, and whose tests for
//! zero and for a root, and whose roots, are those of the real numbers.

use vstd::prelude::*;
use crate::d3::centre::normalized;
use crate::d3::motion::lemma_infinity_shadow;
use crate::d3::motion::lemma_point_picks;
use crate::d3::motion::lemma_point_shadow;
use crate::d3::round::Pair;
use crate::d3::round::Point;
use crate::field::Field;
use crate::r410::exact::at;
use crate::r410::exact::embeds;
use crate::r410::exact::homomorphic;
use crate::r410::exact::lemma_commute;
use crate::r410::exact::lemma_distribute;
use crate::r410::exact::lemma_inner_coeff;
use crate::r410::exact::lemma_negated_coeff;
use crate::r410::exact::lemma_one_times;
use crate::r410::exact::lemma_outer_coeff;
use crate::r410::exact::lemma_same_value;
use crate::r410::exact::lemma_scalar_added_coeff;
use crate::r410::exact::lemma_scaled_coeff;
use crate::r410::exact::lemma_shadow_coeff;
use crate::r410::exact::lemma_sign_out;
use crate::r410::exact::lemma_square_of_sum;
use crate::r410::exact::lemma_two_out;
use crate::r410::exact::lemma_zero_times;
use crate::r410::exact::shadow;
use crate::r410::roots::is_root;
use crate::r410::roots::rooted;
use crate::r410::sparse::lemma_any_inner_point_e1;
use crate::r410::sparse::lemma_any_inner_point_e2;
use crate::r410::sparse::lemma_any_inner_point_e3;
use crate::r410::sparse::lemma_any_inner_point_en;
use crate::r410::sparse::lemma_any_inner_point_ep;
use crate::r410::sparse::lemma_infinity_inner_pair_e1;
use crate::r410::sparse::lemma_infinity_inner_pair_e2;
use crate::r410::sparse::lemma_infinity_inner_pair_e3;
use crate::r410::sparse::lemma_infinity_inner_pair_elsewhere;
use crate::r410::sparse::lemma_infinity_inner_pair_en;
use crate::r410::sparse::lemma_infinity_inner_pair_ep;
use crate::r410::sparse::lemma_pair_inner_pair_s;
use crate::r410::sparse::lemma_point_inner_point_s;
use crate::r410::sparse::lemma_point_outer_point_e12;
use crate::r410::sparse::lemma_point_outer_point_e13;
use crate::r410::sparse::lemma_point_outer_point_e1n;
use crate::r410::sparse::lemma_point_outer_point_e1p;
use crate::r410::sparse::lemma_point_outer_point_e23;
use crate::r410::sparse::lemma_point_outer_point_e2n;
use crate::r410::sparse::lemma_point_outer_point_e2p;
use crate::r410::sparse::lemma_point_outer_point_e3n;
use crate::r410::sparse::lemma_point_outer_point_e3p;
use crate::r410::sparse::lemma_point_outer_point_epn;
use crate::r410::sparse::pair_blade;
use crate::r410::sparse::point_blade;
use crate::r410::sparse::zero_outside;
use crate::r410::R410;
use crate::spaces::infinity_spec;
use crate::spaces::Euclidean;
use crate::spaces::SpaceKind;
use crate::Multivec;

verus! {

/// The factors of a product of two products can change places.
proof fn lemma_regroup(a: real, b: real, c: real, d: real)
    by (nonlinear_arith)
    ensures
        (a * b) * (c * d) == (b * d) * (a * c),
        (a * b) * (c * d) == (c * b) * (a * d),
{
}

/// The factors of a product of three can change places.
proof fn lemma_regroup3(a: real, b: real, c: real)
    by (nonlinear_arith)
    ensures
        a * (b * c) == c * (a * b),
        a * (b * c) == b * (a * c),
        a * (b * c) == c * (b * a),
{
}

/// A square is not negative, and is zero only for zero.
proof fn lemma_square_positive(x: real)
    by (nonlinear_arith)
    ensures
        x * x >= 0real,
        x != 0real ==> x * x > 0real,
{
}

/// The square of a coefficient of the join of two vectors, in squares and products of their
/// coordinates.
proof fn lemma_joined_square(pi: real, qi: real, pj: real, qj: real)
    ensures
        (qj * pi - qi * pj) * (qj * pi - qi * pj) == (pi * pi) * (qj * qj) + (pj * pj) * (qi * qi)
            - 2real * ((qi * pi) * (qj * pj)),
{
    let x = qj * pi;
    let y = qi * pj;
    lemma_square_of_sum(x, -y);
    lemma_sign_out(x, y);
    lemma_sign_out(y, -y);
    lemma_sign_out(y, y);
    assert((x - y) * (x - y) == x * x - 2real * (x * y) + y * y);
    lemma_regroup(qj, pi, qj, pi);
    lemma_regroup(qi, pj, qi, pj);
    lemma_regroup(qj, pi, qi, pj);
}

/// The square of a sum of five terms, the last of them taken negative.
proof fn lemma_square_of_five(a: real, b: real, c: real, d: real, e: real)
    ensures
        (a + b + c + d - e) * (a + b + c + d - e) == a * a + b * b + c * c + d * d + e * e + 2real
            * (a * b) + 2real * (a * c) + 2real * (a * d) - 2real * (a * e) + 2real * (b * c)
            + 2real * (b * d) - 2real * (b * e) + 2real * (c * d) - 2real * (c * e) - 2real * (d
            * e),
{
    let n = -e;
    lemma_square_of_sum(a, b);
    lemma_square_of_sum(a + b, c);
    lemma_square_of_sum(a + b + c, d);
    lemma_square_of_sum(a + b + c + d, n);
    lemma_distribute(c, a, b);
    lemma_distribute(d, a + b, c);
    lemma_distribute(d, a, b);
    lemma_distribute(n, a + b + c, d);
    lemma_distribute(n, a + b, c);
    lemma_distribute(n, a, b);
    lemma_sign_out(a, e);
    lemma_sign_out(b, e);
    lemma_sign_out(c, e);
    lemma_sign_out(d, e);
    lemma_sign_out(e, n);
    lemma_sign_out(e, e);
}

/// A multiple of a sum that is zero, term by term.
proof fn lemma_multiple_of_nothing(k: real, a: real, b: real, c: real, d: real, e: real)
    requires
        a + b + c + d - e == 0real,
    ensures
        a * k + b * k + c * k + d * k - e * k == 0real,
        k * a + k * b + k * c + k * d - k * e == 0real,
{
    lemma_zero_times(k, a + b + c + d - e);
    lemma_distribute(k, a + b + c + d, e);
    lemma_distribute(k, a + b + c, d);
    lemma_distribute(k, a + b, c);
    lemma_distribute(k, a, b);
    lemma_zero_times(a + b + c + d - e, k);
}

/// The square of the join of two null vectors is the square of their scalar product.
proof fn lemma_square_of_join(
    p1: real,
    p2: real,
    p3: real,
    p4: real,
    p5: real,
    q1: real,
    q2: real,
    q3: real,
    q4: real,
    q5: real,
)
    requires
        p1 * p1 + p2 * p2 + p3 * p3 + p4 * p4 - p5 * p5 == 0real,
        q1 * q1 + q2 * q2 + q3 * q3 + q4 * q4 - q5 * q5 == 0real,
    ensures
        ({
            let b12 = q2 * p1 - q1 * p2;
            let b13 = q3 * p1 - q1 * p3;
            let b14 = q4 * p1 - q1 * p4;
            let b15 = q5 * p1 - q1 * p5;
            let b23 = q3 * p2 - q2 * p3;
            let b24 = q4 * p2 - q2 * p4;
            let b25 = q5 * p2 - q2 * p5;
            let b34 = q4 * p3 - q3 * p4;
            let b35 = q5 * p3 - q3 * p5;
            let b45 = q5 * p4 - q4 * p5;
            let dot = q1 * p1 + q2 * p2 + q3 * p3 + q4 * p4 - q5 * p5;
            -(b12 * b12) - b13 * b13 - b14 * b14 + b15 * b15 - b23 * b23 - b24 * b24 + b25 * b25
                - b34 * b34 + b35 * b35 + b45 * b45 == dot * dot
        }),
{
    let u1 = q1 * p1;
    let u2 = q2 * p2;
    let u3 = q3 * p3;
    let u4 = q4 * p4;
    let u5 = q5 * p5;
    lemma_joined_square(p1, q1, p2, q2);
    lemma_joined_square(p1, q1, p3, q3);
    lemma_joined_square(p1, q1, p4, q4);
    lemma_joined_square(p1, q1, p5, q5);
    lemma_joined_square(p2, q2, p3, q3);
    lemma_joined_square(p2, q2, p4, q4);
    lemma_joined_square(p2, q2, p5, q5);
    lemma_joined_square(p3, q3, p4, q4);
    lemma_joined_square(p3, q3, p5, q5);
    lemma_joined_square(p4, q4, p5, q5);
    lemma_regroup(q1, p1, q1, p1);
    lemma_regroup(q2, p2, q2, p2);
    lemma_regroup(q3, p3, q3, p3);
    lemma_regroup(q4, p4, q4, p4);
    lemma_regroup(q5, p5, q5, p5);
    lemma_square_of_five(u1, u2, u3, u4, u5);
    lemma_multiple_of_nothing(q1 * q1, p1 * p1, p2 * p2, p3 * p3, p4 * p4, p5 * p5);
    lemma_multiple_of_nothing(q2 * q2, p1 * p1, p2 * p2, p3 * p3, p4 * p4, p5 * p5);
    lemma_multiple_of_nothing(q3 * q3, p1 * p1, p2 * p2, p3 * p3, p4 * p4, p5 * p5);
    lemma_multiple_of_nothing(q4 * q4, p1 * p1, p2 * p2, p3 * p3, p4 * p4, p5 * p5);
    lemma_multiple_of_nothing(q5 * q5, p1 * p1, p2 * p2, p3 * p3, p4 * p4, p5 * p5);
}

/// A multiple of a sum of five terms, the last of them taken negative, term by term.
proof fn lemma_spread(k: real, a: real, b: real, c: real, d: real, e: real)
    ensures
        k * (a + b + c + d - e) == k * a + k * b + k * c + k * d - k * e,
{
    lemma_distribute(k, a + b + c + d, e);
    lemma_distribute(k, a + b + c, d);
    lemma_distribute(k, a + b, c);
    lemma_distribute(k, a, b);
}

/// The square of a difference.
proof fn lemma_square_of_difference(a: real, b: real)
    ensures
        (a - b) * (a - b) == a * a - 2real * (b * a) + b * b,
{
    let n = -b;
    lemma_square_of_sum(a, n);
    lemma_sign_out(a, b);
    lemma_sign_out(b, n);
    lemma_sign_out(b, b);
    lemma_commute(a, b);
}

/// One term of a join of two vectors contracted against their difference.
proof fn lemma_contracted_term(pi: real, qi: real, pj: real, qj: real)
    ensures
        (qj - pj) * (qj * pi - qi * pj) == pi * (qj * qj) - (qi + pi) * (qj * pj) + qi * (pj * pj),
{
    let x = qj * pi - qi * pj;
    lemma_distribute(x, qj, pj);
    lemma_distribute(qj, qj * pi, qi * pj);
    lemma_distribute(pj, qj * pi, qi * pj);
    lemma_regroup3(qj, qj, pi);
    lemma_regroup3(qj, qi, pj);
    lemma_regroup3(pj, qj, pi);
    lemma_regroup3(pj, qi, pj);
    lemma_distribute(qj * pj, qi, pi);
}

/// A multiple of a number, divided by the multiplier, is the number.
proof fn lemma_unscaled(r: real, w: real, x: real)
    requires
        r * w == 1real,
    ensures
        r * (x * w) == x,
{
    lemma_regroup3(r, x, w);
    lemma_one_times(r * w, x);
}

/// A normalized null vector is null.
proof fn lemma_normalized_is_null(p1: real, p2: real, p3: real, p4: real, p5: real)
    requires
        p4 - p5 == 1real,
        p4 + p5 == -(p1 * p1 + p2 * p2 + p3 * p3),
    ensures
        p1 * p1 + p2 * p2 + p3 * p3 + p4 * p4 - p5 * p5 == 0real,
{
    lemma_distribute(p4 - p5, p4, p5);
    lemma_distribute(p4, p4, p5);
    lemma_distribute(p5, p4, p5);
    lemma_commute(p4, p5);
    lemma_one_times(p4 - p5, p4 + p5);
}

/// The square of the distance of two points with the coordinates given.
pub open spec fn apart(p1: real, p2: real, p3: real, q1: real, q2: real, q3: real) -> real {
    (p1 - q1) * (p1 - q1) + (p2 - q2) * (p2 - q2) + (p3 - q3) * (p3 - q3)
}

/// Twice the scalar product of two normalized null vectors is minus the square of their
/// distance.
proof fn lemma_dot_of_normalized(
    p1: real,
    p2: real,
    p3: real,
    p4: real,
    p5: real,
    q1: real,
    q2: real,
    q3: real,
    q4: real,
    q5: real,
)
    requires
        p4 - p5 == 1real,
        p4 + p5 == -(p1 * p1 + p2 * p2 + p3 * p3),
        q4 - q5 == 1real,
        q4 + q5 == -(q1 * q1 + q2 * q2 + q3 * q3),
    ensures
        2real * (q1 * p1 + q2 * p2 + q3 * p3 + q4 * p4 - q5 * p5) == -apart(p1, p2, p3, q1, q2, q3),
{
    lemma_distribute(q4 - q5, p4, p5);
    lemma_distribute(p4, q4, q5);
    lemma_distribute(p5, q4, q5);
    lemma_distribute(q4 + q5, p4, p5);
    lemma_one_times(q4 - q5, p4 + p5);
    lemma_one_times(p4 - p5, q4 + q5);
    assert(2real * (q4 * p4 - q5 * p5) == (q4 - q5) * (p4 + p5) + (q4 + q5) * (p4 - p5));
    lemma_square_of_difference(p1, q1);
    lemma_square_of_difference(p2, q2);
    lemma_square_of_difference(p3, q3);
}

/// Two points with different coordinates are apart.
proof fn lemma_apart(p1: real, p2: real, p3: real, q1: real, q2: real, q3: real)
    requires
        p1 != q1 || p2 != q2 || p3 != q3,
    ensures
        apart(p1, p2, p3, q1, q2, q3) > 0real,
{
    lemma_square_positive(p1 - q1);
    lemma_square_positive(p2 - q2);
    lemma_square_positive(p3 - q3);
}

/// The coefficient on a coordinate of the join of two normalized null vectors, contracted
/// against infinity.
proof fn lemma_carried(pi: real, p4: real, p5: real, qi: real, q4: real, q5: real)
    requires
        p4 - p5 == 1real,
        q4 - q5 == 1real,
    ensures
        -(q4 * pi - qi * p4) + (q5 * pi - qi * p5) == qi - pi,
{
    lemma_distribute(pi, q4, q5);
    lemma_distribute(qi, p4, p5);
    lemma_one_times(q4 - q5, pi);
    lemma_one_times(p4 - p5, qi);
    lemma_commute(pi, q4);
    lemma_commute(pi, q5);
}

/// The coefficient on the null pair of the join of two normalized null vectors, contracted
/// against infinity.
proof fn lemma_carried_null(p4: real, p5: real, q4: real, q5: real)
    requires
        p4 - p5 == 1real,
        q4 - q5 == 1real,
    ensures
        q5 * p4 - q4 * p5 == q4 - p4,
        q5 * p4 - q4 * p5 == q5 - p5,
{
    lemma_distribute(q5, p4, p5);
    lemma_distribute(p5, q4, q5);
    lemma_one_times(p4 - p5, q5);
    lemma_one_times(q4 - q5, p5);
    lemma_commute(q5, p5);
}

/// The coefficient on `e1` of the join of two null vectors, negated or not, with the root of
/// its square added, contracted against the difference of the two.
proof fn lemma_contracted_e1(
    p1: real,
    p2: real,
    p3: real,
    p4: real,
    p5: real,
    q1: real,
    q2: real,
    q3: real,
    q4: real,
    q5: real,
    s: real,
)
    requires
        p1 * p1 + p2 * p2 + p3 * p3 + p4 * p4 - p5 * p5 == 0real,
        q1 * q1 + q2 * q2 + q3 * q3 + q4 * q4 - q5 * q5 == 0real,
        s == -(q1 * p1 + q2 * p2 + q3 * p3 + q4 * p4 - q5 * p5),
    ensures
        (q1 - p1) * s + (q2 - p2) * (-(q2 * p1 - q1 * p2)) + (q3 - p3) * (-(q3 * p1 - q1 * p3)) + (q4 - p4) * (-(q4 * p1 - q1 * p4)) - (q5 - p5) * (-(q5 * p1 - q1 * p5)) == 2real * (p1 * (q1 * p1 + q2 * p2 + q3 * p3 + q4 * p4 - q5 * p5)),
        (q1 - p1) * s + (q2 - p2) * (q2 * p1 - q1 * p2) + (q3 - p3) * (q3 * p1 - q1 * p3) + (q4 - p4) * (q4 * p1 - q1 * p4) - (q5 - p5) * (q5 * p1 - q1 * p5) == -(2real * (q1 * (q1 * p1 + q2 * p2 + q3 * p3 + q4 * p4 - q5 * p5))),
{
    let dot = q1 * p1 + q2 * p2 + q3 * p3 + q4 * p4 - q5 * p5;
    let x2 = q2 * p1 - q1 * p2;
    lemma_sign_out(q2 - p2, q2 * p1 - q1 * p2);
    lemma_contracted_term(p1, q1, p2, q2);
    let x3 = q3 * p1 - q1 * p3;
    lemma_sign_out(q3 - p3, q3 * p1 - q1 * p3);
    lemma_contracted_term(p1, q1, p3, q3);
    let x4 = q4 * p1 - q1 * p4;
    lemma_sign_out(q4 - p4, q4 * p1 - q1 * p4);
    lemma_contracted_term(p1, q1, p4, q4);
    let x5 = q5 * p1 - q1 * p5;
    lemma_sign_out(q5 - p5, q5 * p1 - q1 * p5);
    lemma_contracted_term(p1, q1, p5, q5);
    lemma_multiple_of_nothing(p1, q1 * q1, q2 * q2, q3 * q3, q4 * q4, q5 * q5);
    lemma_multiple_of_nothing(q1, p1 * p1, p2 * p2, p3 * p3, p4 * p4, p5 * p5);
    lemma_spread(q1 + p1, q1 * p1, q2 * p2, q3 * p3, q4 * p4, q5 * p5);
    lemma_distribute(q1 * p1, q1, p1);
    lemma_regroup3(q1, q1, p1);
    lemma_regroup3(p1, q1, p1);
    lemma_sign_out(q1 - p1, dot);
    lemma_distribute(dot, q1, p1);
}

/// The coefficient on `e2` of the join of two null vectors, negated or not, with the root of
/// its square added, contracted against the difference of the two.
proof fn lemma_contracted_e2(
    p1: real,
    p2: real,
    p3: real,
    p4: real,
    p5: real,
    q1: real,
    q2: real,
    q3: real,
    q4: real,
    q5: real,
    s: real,
)
    requires
        p1 * p1 + p2 * p2 + p3 * p3 + p4 * p4 - p5 * p5 == 0real,
        q1 * q1 + q2 * q2 + q3 * q3 + q4 * q4 - q5 * q5 == 0real,
        s == -(q1 * p1 + q2 * p2 + q3 * p3 + q4 * p4 - q5 * p5),
    ensures
        (q2 - p2) * s - (q1 - p1) * (-(q2 * p1 - q1 * p2)) + (q3 - p3) * (-(q3 * p2 - q2 * p3)) + (q4 - p4) * (-(q4 * p2 - q2 * p4)) - (q5 - p5) * (-(q5 * p2 - q2 * p5)) == 2real * (p2 * (q1 * p1 + q2 * p2 + q3 * p3 + q4 * p4 - q5 * p5)),
        (q2 - p2) * s - (q1 - p1) * (q2 * p1 - q1 * p2) + (q3 - p3) * (q3 * p2 - q2 * p3) + (q4 - p4) * (q4 * p2 - q2 * p4) - (q5 - p5) * (q5 * p2 - q2 * p5) == -(2real * (q2 * (q1 * p1 + q2 * p2 + q3 * p3 + q4 * p4 - q5 * p5))),
{
    let dot = q1 * p1 + q2 * p2 + q3 * p3 + q4 * p4 - q5 * p5;
    let x1 = q1 * p2 - q2 * p1;
    lemma_sign_out(q1 - p1, q2 * p1 - q1 * p2);
    lemma_sign_out(q1 - p1, x1);
    assert(q2 * p1 - q1 * p2 == -x1);
    lemma_contracted_term(p2, q2, p1, q1);
    let x3 = q3 * p2 - q2 * p3;
    lemma_sign_out(q3 - p3, q3 * p2 - q2 * p3);
    lemma_contracted_term(p2, q2, p3, q3);
    let x4 = q4 * p2 - q2 * p4;
    lemma_sign_out(q4 - p4, q4 * p2 - q2 * p4);
    lemma_contracted_term(p2, q2, p4, q4);
    let x5 = q5 * p2 - q2 * p5;
    lemma_sign_out(q5 - p5, q5 * p2 - q2 * p5);
    lemma_contracted_term(p2, q2, p5, q5);
    lemma_multiple_of_nothing(p2, q1 * q1, q2 * q2, q3 * q3, q4 * q4, q5 * q5);
    lemma_multiple_of_nothing(q2, p1 * p1, p2 * p2, p3 * p3, p4 * p4, p5 * p5);
    lemma_spread(q2 + p2, q1 * p1, q2 * p2, q3 * p3, q4 * p4, q5 * p5);
    lemma_distribute(q2 * p2, q2, p2);
    lemma_regroup3(q2, q2, p2);
    lemma_regroup3(p2, q2, p2);
    lemma_sign_out(q2 - p2, dot);
    lemma_distribute(dot, q2, p2);
}

/// The coefficient on `e3` of the join of two null vectors, negated or not, with the root of
/// its square added, contracted against the difference of the two.
proof fn lemma_contracted_e3(
    p1: real,
    p2: real,
    p3: real,
    p4: real,
    p5: real,
    q1: real,
    q2: real,
    q3: real,
    q4: real,
    q5: real,
    s: real,
)
    requires
        p1 * p1 + p2 * p2 + p3 * p3 + p4 * p4 - p5 * p5 == 0real,
        q1 * q1 + q2 * q2 + q3 * q3 + q4 * q4 - q5 * q5 == 0real,
        s == -(q1 * p1 + q2 * p2 + q3 * p3 + q4 * p4 - q5 * p5),
    ensures
        (q3 - p3) * s - (q1 - p1) * (-(q3 * p1 - q1 * p3)) - (q2 - p2) * (-(q3 * p2 - q2 * p3)) + (q4 - p4) * (-(q4 * p3 - q3 * p4)) - (q5 - p5) * (-(q5 * p3 - q3 * p5)) == 2real * (p3 * (q1 * p1 + q2 * p2 + q3 * p3 + q4 * p4 - q5 * p5)),
        (q3 - p3) * s - (q1 - p1) * (q3 * p1 - q1 * p3) - (q2 - p2) * (q3 * p2 - q2 * p3) + (q4 - p4) * (q4 * p3 - q3 * p4) - (q5 - p5) * (q5 * p3 - q3 * p5) == -(2real * (q3 * (q1 * p1 + q2 * p2 + q3 * p3 + q4 * p4 - q5 * p5))),
{
    let dot = q1 * p1 + q2 * p2 + q3 * p3 + q4 * p4 - q5 * p5;
    let x1 = q1 * p3 - q3 * p1;
    lemma_sign_out(q1 - p1, q3 * p1 - q1 * p3);
    lemma_sign_out(q1 - p1, x1);
    assert(q3 * p1 - q1 * p3 == -x1);
    lemma_contracted_term(p3, q3, p1, q1);
    let x2 = q2 * p3 - q3 * p2;
    lemma_sign_out(q2 - p2, q3 * p2 - q2 * p3);
    lemma_sign_out(q2 - p2, x2);
    assert(q3 * p2 - q2 * p3 == -x2);
    lemma_contracted_term(p3, q3, p2, q2);
    let x4 = q4 * p3 - q3 * p4;
    lemma_sign_out(q4 - p4, q4 * p3 - q3 * p4);
    lemma_contracted_term(p3, q3, p4, q4);
    let x5 = q5 * p3 - q3 * p5;
    lemma_sign_out(q5 - p5, q5 * p3 - q3 * p5);
    lemma_contracted_term(p3, q3, p5, q5);
    lemma_multiple_of_nothing(p3, q1 * q1, q2 * q2, q3 * q3, q4 * q4, q5 * q5);
    lemma_multiple_of_nothing(q3, p1 * p1, p2 * p2, p3 * p3, p4 * p4, p5 * p5);
    lemma_spread(q3 + p3, q1 * p1, q2 * p2, q3 * p3, q4 * p4, q5 * p5);
    lemma_distribute(q3 * p3, q3, p3);
    lemma_regroup3(q3, q3, p3);
    lemma_regroup3(p3, q3, p3);
    lemma_sign_out(q3 - p3, dot);
    lemma_distribute(dot, q3, p3);
}

/// The coefficient on `ep` of the join of two null vectors, negated or not, with the root of
/// its square added, contracted against the difference of the two.
proof fn lemma_contracted_ep(
    p1: real,
    p2: real,
    p3: real,
    p4: real,
    p5: real,
    q1: real,
    q2: real,
    q3: real,
    q4: real,
    q5: real,
    s: real,
)
    requires
        p1 * p1 + p2 * p2 + p3 * p3 + p4 * p4 - p5 * p5 == 0real,
        q1 * q1 + q2 * q2 + q3 * q3 + q4 * q4 - q5 * q5 == 0real,
        s == -(q1 * p1 + q2 * p2 + q3 * p3 + q4 * p4 - q5 * p5),
    ensures
        (q4 - p4) * s - (q1 - p1) * (-(q4 * p1 - q1 * p4)) - (q2 - p2) * (-(q4 * p2 - q2 * p4)) - (q3 - p3) * (-(q4 * p3 - q3 * p4)) - (q5 - p5) * (-(q5 * p4 - q4 * p5)) == 2real * (p4 * (q1 * p1 + q2 * p2 + q3 * p3 + q4 * p4 - q5 * p5)),
        (q4 - p4) * s - (q1 - p1) * (q4 * p1 - q1 * p4) - (q2 - p2) * (q4 * p2 - q2 * p4) - (q3 - p3) * (q4 * p3 - q3 * p4) - (q5 - p5) * (q5 * p4 - q4 * p5) == -(2real * (q4 * (q1 * p1 + q2 * p2 + q3 * p3 + q4 * p4 - q5 * p5))),
{
    let dot = q1 * p1 + q2 * p2 + q3 * p3 + q4 * p4 - q5 * p5;
    let x1 = q1 * p4 - q4 * p1;
    lemma_sign_out(q1 - p1, q4 * p1 - q1 * p4);
    lemma_sign_out(q1 - p1, x1);
    assert(q4 * p1 - q1 * p4 == -x1);
    lemma_contracted_term(p4, q4, p1, q1);
    let x2 = q2 * p4 - q4 * p2;
    lemma_sign_out(q2 - p2, q4 * p2 - q2 * p4);
    lemma_sign_out(q2 - p2, x2);
    assert(q4 * p2 - q2 * p4 == -x2);
    lemma_contracted_term(p4, q4, p2, q2);
    let x3 = q3 * p4 - q4 * p3;
    lemma_sign_out(q3 - p3, q4 * p3 - q3 * p4);
    lemma_sign_out(q3 - p3, x3);
    assert(q4 * p3 - q3 * p4 == -x3);
    lemma_contracted_term(p4, q4, p3, q3);
    let x5 = q5 * p4 - q4 * p5;
    lemma_sign_out(q5 - p5, q5 * p4 - q4 * p5);
    lemma_contracted_term(p4, q4, p5, q5);
    lemma_multiple_of_nothing(p4, q1 * q1, q2 * q2, q3 * q3, q4 * q4, q5 * q5);
    lemma_multiple_of_nothing(q4, p1 * p1, p2 * p2, p3 * p3, p4 * p4, p5 * p5);
    lemma_spread(q4 + p4, q1 * p1, q2 * p2, q3 * p3, q4 * p4, q5 * p5);
    lemma_distribute(q4 * p4, q4, p4);
    lemma_regroup3(q4, q4, p4);
    lemma_regroup3(p4, q4, p4);
    lemma_sign_out(q4 - p4, dot);
    lemma_distribute(dot, q4, p4);
}

/// The coefficient on `en` of the join of two null vectors, negated or not, with the root of
/// its square added, contracted against the difference of the two.
proof fn lemma_contracted_en(
    p1: real,
    p2: real,
    p3: real,
    p4: real,
    p5: real,
    q1: real,
    q2: real,
    q3: real,
    q4: real,
    q5: real,
    s: real,
)
    requires
        p1 * p1 + p2 * p2 + p3 * p3 + p4 * p4 - p5 * p5 == 0real,
        q1 * q1 + q2 * q2 + q3 * q3 + q4 * q4 - q5 * q5 == 0real,
        s == -(q1 * p1 + q2 * p2 + q3 * p3 + q4 * p4 - q5 * p5),
    ensures
        (q5 - p5) * s - (q1 - p1) * (-(q5 * p1 - q1 * p5)) - (q2 - p2) * (-(q5 * p2 - q2 * p5)) - (q3 - p3) * (-(q5 * p3 - q3 * p5)) - (q4 - p4) * (-(q5 * p4 - q4 * p5)) == 2real * (p5 * (q1 * p1 + q2 * p2 + q3 * p3 + q4 * p4 - q5 * p5)),
        (q5 - p5) * s - (q1 - p1) * (q5 * p1 - q1 * p5) - (q2 - p2) * (q5 * p2 - q2 * p5) - (q3 - p3) * (q5 * p3 - q3 * p5) - (q4 - p4) * (q5 * p4 - q4 * p5) == -(2real * (q5 * (q1 * p1 + q2 * p2 + q3 * p3 + q4 * p4 - q5 * p5))),
{
    let dot = q1 * p1 + q2 * p2 + q3 * p3 + q4 * p4 - q5 * p5;
    let x1 = q1 * p5 - q5 * p1;
    lemma_sign_out(q1 - p1, q5 * p1 - q1 * p5);
    lemma_sign_out(q1 - p1, x1);
    assert(q5 * p1 - q1 * p5 == -x1);
    lemma_contracted_term(p5, q5, p1, q1);
    let x2 = q2 * p5 - q5 * p2;
    lemma_sign_out(q2 - p2, q5 * p2 - q2 * p5);
    lemma_sign_out(q2 - p2, x2);
    assert(q5 * p2 - q2 * p5 == -x2);
    lemma_contracted_term(p5, q5, p2, q2);
    let x3 = q3 * p5 - q5 * p3;
    lemma_sign_out(q3 - p3, q5 * p3 - q3 * p5);
    lemma_sign_out(q3 - p3, x3);
    assert(q5 * p3 - q3 * p5 == -x3);
    lemma_contracted_term(p5, q5, p3, q3);
    let x4 = q4 * p5 - q5 * p4;
    lemma_sign_out(q4 - p4, q5 * p4 - q4 * p5);
    lemma_sign_out(q4 - p4, x4);
    assert(q5 * p4 - q4 * p5 == -x4);
    lemma_contracted_term(p5, q5, p4, q4);
    lemma_multiple_of_nothing(p5, q1 * q1, q2 * q2, q3 * q3, q4 * q4, q5 * q5);
    lemma_multiple_of_nothing(q5, p1 * p1, p2 * p2, p3 * p3, p4 * p4, p5 * p5);
    lemma_spread(q5 + p5, q1 * p1, q2 * p2, q3 * p3, q4 * p4, q5 * p5);
    lemma_distribute(q5 * p5, q5, p5);
    lemma_regroup3(q5, q5, p5);
    lemma_regroup3(p5, q5, p5);
    lemma_sign_out(q5 - p5, dot);
    lemma_distribute(dot, q5, p5);
}

/// The scalar product of two points, read in real numbers.
pub open spec fn real_dot<T: Field>(val: spec_fn(T) -> real, p: Point<T>, q: Point<T>) -> real {
    at(val, q.e1) * at(val, p.e1) + at(val, q.e2) * at(val, p.e2) + at(val, q.e3) * at(val, p.e3)
        + at(val, q.ep) * at(val, p.ep) - at(val, q.en) * at(val, p.en)
}

/// Where a pair takes its coefficients from a multivector.
proof fn lemma_pair_picks<T: Field>(x: R410<T>)
    ensures
        Pair::<T, Euclidean>::from_mv_spec(x).e12 == x.coeff(6),
        Pair::<T, Euclidean>::from_mv_spec(x).e13 == x.coeff(7),
        Pair::<T, Euclidean>::from_mv_spec(x).e1p == x.coeff(8),
        Pair::<T, Euclidean>::from_mv_spec(x).e1n == x.coeff(9),
        Pair::<T, Euclidean>::from_mv_spec(x).e23 == x.coeff(10),
        Pair::<T, Euclidean>::from_mv_spec(x).e2p == x.coeff(11),
        Pair::<T, Euclidean>::from_mv_spec(x).e2n == x.coeff(12),
        Pair::<T, Euclidean>::from_mv_spec(x).e3p == x.coeff(13),
        Pair::<T, Euclidean>::from_mv_spec(x).e3n == x.coeff(14),
        Pair::<T, Euclidean>::from_mv_spec(x).epn == x.coeff(15),
{
}

/// Where the coefficients of a point stand in its multivector.
proof fn lemma_point_places<T: Field>(p: Point<T>)
    ensures
        p.into_mv_spec().coeff(1) == p.e1,
        p.into_mv_spec().coeff(2) == p.e2,
        p.into_mv_spec().coeff(3) == p.e3,
        p.into_mv_spec().coeff(4) == p.ep,
        p.into_mv_spec().coeff(5) == p.en,
{
}

/// The shadow of a pair has the coefficients of the pair on the ten blades of grade two, and
/// nothing else.
proof fn lemma_pair_shadow<T: Field>(val: spec_fn(T) -> real, b: Pair<T>)
    requires
        homomorphic(val),
    ensures
        zero_outside(shadow(val, b.into_mv_spec()), |i: int| pair_blade(i)),
        shadow(val, b.into_mv_spec()).e12 == at(val, b.e12),
        shadow(val, b.into_mv_spec()).e13 == at(val, b.e13),
        shadow(val, b.into_mv_spec()).e1p == at(val, b.e1p),
        shadow(val, b.into_mv_spec()).e1n == at(val, b.e1n),
        shadow(val, b.into_mv_spec()).e23 == at(val, b.e23),
        shadow(val, b.into_mv_spec()).e2p == at(val, b.e2p),
        shadow(val, b.into_mv_spec()).e2n == at(val, b.e2n),
        shadow(val, b.into_mv_spec()).e3p == at(val, b.e3p),
        shadow(val, b.into_mv_spec()).e3n == at(val, b.e3n),
        shadow(val, b.into_mv_spec()).epn == at(val, b.epn),
{
    reveal(homomorphic);
    let m = b.into_mv_spec();
    assert forall|i: int| 0 <= i < 32 && !pair_blade(i) implies #[trigger] shadow(val, m).coeff(
        i,
    ) == 0real by {
        lemma_shadow_coeff(val, m, i);
    }
    lemma_shadow_coeff(val, m, 6);
    lemma_shadow_coeff(val, m, 7);
    lemma_shadow_coeff(val, m, 8);
    lemma_shadow_coeff(val, m, 9);
    lemma_shadow_coeff(val, m, 10);
    lemma_shadow_coeff(val, m, 11);
    lemma_shadow_coeff(val, m, 12);
    lemma_shadow_coeff(val, m, 13);
    lemma_shadow_coeff(val, m, 14);
    lemma_shadow_coeff(val, m, 15);
}

/// The coefficients of the join of two points, in the coefficients of the two.
pub proof fn lemma_join_values<T: Field>(val: spec_fn(T) -> real, p: Point<T>, q: Point<T>)
    requires
        homomorphic(val),
    ensures
        ({
            let b = p.outer_spec(q);
            let p1 = at(val, p.e1);
            let p2 = at(val, p.e2);
            let p3 = at(val, p.e3);
            let p4 = at(val, p.ep);
            let p5 = at(val, p.en);
            let q1 = at(val, q.e1);
            let q2 = at(val, q.e2);
            let q3 = at(val, q.e3);
            let q4 = at(val, q.ep);
            let q5 = at(val, q.en);
            &&& at(val, b.e12) == q2 * p1 - q1 * p2
            &&& at(val, b.e13) == q3 * p1 - q1 * p3
            &&& at(val, b.e1p) == q4 * p1 - q1 * p4
            &&& at(val, b.e1n) == q5 * p1 - q1 * p5
            &&& at(val, b.e23) == q3 * p2 - q2 * p3
            &&& at(val, b.e2p) == q4 * p2 - q2 * p4
            &&& at(val, b.e2n) == q5 * p2 - q2 * p5
            &&& at(val, b.e3p) == q4 * p3 - q3 * p4
            &&& at(val, b.e3n) == q5 * p3 - q3 * p5
            &&& at(val, b.epn) == q5 * p4 - q4 * p5
        }),
{
    let pm = p.into_mv_spec();
    let qm = q.into_mv_spec();
    let a = shadow(val, pm);
    let b = shadow(val, qm);
    lemma_point_shadow(val, p);
    lemma_point_shadow(val, q);
    lemma_pair_picks(pm.outer_spec(qm));
    lemma_outer_coeff(val, pm, qm, 6);
    lemma_point_outer_point_e12(a, b);
    lemma_outer_coeff(val, pm, qm, 7);
    lemma_point_outer_point_e13(a, b);
    lemma_outer_coeff(val, pm, qm, 8);
    lemma_point_outer_point_e1p(a, b);
    lemma_outer_coeff(val, pm, qm, 9);
    lemma_point_outer_point_e1n(a, b);
    lemma_outer_coeff(val, pm, qm, 10);
    lemma_point_outer_point_e23(a, b);
    lemma_outer_coeff(val, pm, qm, 11);
    lemma_point_outer_point_e2p(a, b);
    lemma_outer_coeff(val, pm, qm, 12);
    lemma_point_outer_point_e2n(a, b);
    lemma_outer_coeff(val, pm, qm, 13);
    lemma_point_outer_point_e3p(a, b);
    lemma_outer_coeff(val, pm, qm, 14);
    lemma_point_outer_point_e3n(a, b);
    lemma_outer_coeff(val, pm, qm, 15);
    lemma_point_outer_point_epn(a, b);
}

/// The square of the join of two normalized points is the square of their scalar product.
pub proof fn lemma_square_of_pair<T: Field>(val: spec_fn(T) -> real, p: Point<T>, q: Point<T>)
    requires
        homomorphic(val),
        normalized(val, p),
        normalized(val, q),
    ensures
        at(val, p.outer_spec(q).radicand_spec()) == real_dot(val, p, q) * real_dot(val, p, q),
{
    let b = p.outer_spec(q);
    let m = b.into_mv_spec();
    let x = shadow(val, m);
    let p1 = at(val, p.e1);
    let p2 = at(val, p.e2);
    let p3 = at(val, p.e3);
    let p4 = at(val, p.ep);
    let p5 = at(val, p.en);
    let q1 = at(val, q.e1);
    let q2 = at(val, q.e2);
    let q3 = at(val, q.e3);
    let q4 = at(val, q.ep);
    let q5 = at(val, q.en);
    lemma_join_values(val, p, q);
    lemma_pair_shadow(val, b);
    lemma_inner_coeff(val, m, m, 0);
    lemma_pair_inner_pair_s(x, x);
    lemma_normalized_is_null(p1, p2, p3, p4, p5);
    lemma_normalized_is_null(q1, q2, q3, q4, q5);
    lemma_square_of_join(p1, p2, p3, p4, p5, q1, q2, q3, q4, q5);
}

/// A pair contracted against infinity: the coefficients of its shadow.
proof fn lemma_carrier_sums<T: Field>(val: spec_fn(T) -> real, b: Pair<T>)
    requires
        homomorphic(val),
    ensures
        ({
            let c = shadow(val, b.carrier_spec());
            &&& zero_outside(c, |i: int| point_blade(i))
            &&& c.e1 == -at(val, b.e1p) + at(val, b.e1n)
            &&& c.e2 == -at(val, b.e2p) + at(val, b.e2n)
            &&& c.e3 == -at(val, b.e3p) + at(val, b.e3n)
            &&& c.ep == at(val, b.epn)
            &&& c.en == at(val, b.epn)
        }),
{
    let m = b.into_mv_spec();
    let ni = infinity_spec::<T>(SpaceKind::Euclidean);
    let car = ni.inner_spec(m);
    let x = shadow(val, m);
    let n = shadow(val, ni);
    let c = shadow(val, car);
    lemma_pair_shadow(val, b);
    lemma_infinity_shadow::<T>(val);
    lemma_one_times(n.ep, x.e1p);
    lemma_one_times(n.ep, x.e2p);
    lemma_one_times(n.ep, x.e3p);
    lemma_one_times(n.ep, x.epn);
    lemma_one_times(n.en, x.e1n);
    lemma_one_times(n.en, x.e2n);
    lemma_one_times(n.en, x.e3n);
    lemma_one_times(n.en, x.epn);
    assert(c.e1 == -x.e1p + x.e1n) by {
        lemma_shadow_coeff(val, car, 1);
        lemma_inner_coeff(val, ni, m, 1);
        lemma_infinity_inner_pair_e1(n, x);
    }
    assert(c.e2 == -x.e2p + x.e2n) by {
        lemma_shadow_coeff(val, car, 2);
        lemma_inner_coeff(val, ni, m, 2);
        lemma_infinity_inner_pair_e2(n, x);
    }
    assert(c.e3 == -x.e3p + x.e3n) by {
        lemma_shadow_coeff(val, car, 3);
        lemma_inner_coeff(val, ni, m, 3);
        lemma_infinity_inner_pair_e3(n, x);
    }
    assert(c.ep == x.epn) by {
        lemma_shadow_coeff(val, car, 4);
        lemma_inner_coeff(val, ni, m, 4);
        lemma_infinity_inner_pair_ep(n, x);
    }
    assert(c.en == x.epn) by {
        lemma_shadow_coeff(val, car, 5);
        lemma_inner_coeff(val, ni, m, 5);
        lemma_infinity_inner_pair_en(n, x);
    }
    assert forall|i: int| 0 <= i < 32 && !point_blade(i) implies #[trigger] c.coeff(i) == 0real by {
        lemma_shadow_coeff(val, car, i);
        lemma_inner_coeff(val, ni, m, i);
        lemma_infinity_inner_pair_elsewhere(n, x, i);
    }
}

/// The join of two normalized points contracted against infinity is the difference of the
/// two.
pub proof fn lemma_carrier_values<T: Field>(val: spec_fn(T) -> real, p: Point<T>, q: Point<T>)
    requires
        homomorphic(val),
        normalized(val, p),
        normalized(val, q),
    ensures
        ({
            let c = shadow(val, p.outer_spec(q).carrier_spec());
            &&& zero_outside(c, |i: int| point_blade(i))
            &&& c.e1 == at(val, q.e1) - at(val, p.e1)
            &&& c.e2 == at(val, q.e2) - at(val, p.e2)
            &&& c.e3 == at(val, q.e3) - at(val, p.e3)
            &&& c.ep == at(val, q.ep) - at(val, p.ep)
            &&& c.en == at(val, q.en) - at(val, p.en)
        }),
{
    let p4 = at(val, p.ep);
    let p5 = at(val, p.en);
    let q4 = at(val, q.ep);
    let q5 = at(val, q.en);
    lemma_join_values(val, p, q);
    lemma_carrier_sums(val, p.outer_spec(q));
    lemma_carried(at(val, p.e1), p4, p5, at(val, q.e1), q4, q5);
    lemma_carried(at(val, p.e2), p4, p5, at(val, q.e2), q4, q5);
    lemma_carried(at(val, p.e3), p4, p5, at(val, q.e3), q4, q5);
    lemma_carried_null(p4, p5, q4, q5);
}

/// A coefficient of the negative of a multivector with a scalar added, as real numbers.
proof fn lemma_shifted_coeff<T: Field>(val: spec_fn(T) -> real, m: R410<T>, s: T, c: int)
    requires
        homomorphic(val),
        0 <= c < 32,
    ensures
        at(val, m.neg_spec().add_scalar_spec(s).coeff(c)) == -at(val, m.coeff(c)) + (if c == 0 {
            at(val, s)
        } else {
            0real
        }),
{
    lemma_scalar_added_coeff(val, m.neg_spec(), s, c);
    lemma_negated_coeff(val, m, c);
}

/// Where the coefficients of a pair stand in its multivector.
proof fn lemma_pair_places<T: Field>(b: Pair<T>)
    ensures
        b.into_mv_spec().coeff(0) == T::zero_spec(),
        b.into_mv_spec().coeff(6) == b.e12,
        b.into_mv_spec().coeff(7) == b.e13,
        b.into_mv_spec().coeff(8) == b.e1p,
        b.into_mv_spec().coeff(9) == b.e1n,
        b.into_mv_spec().coeff(10) == b.e23,
        b.into_mv_spec().coeff(11) == b.e2p,
        b.into_mv_spec().coeff(12) == b.e2n,
        b.into_mv_spec().coeff(13) == b.e3p,
        b.into_mv_spec().coeff(14) == b.e3n,
        b.into_mv_spec().coeff(15) == b.epn,
{
}

/// Where the coefficients of a multivector of real numbers stand, as far as grade two.
proof fn lemma_real_places(a: R410<real>)
    ensures
        a.coeff(0) == a.s,
        a.coeff(6) == a.e12,
        a.coeff(7) == a.e13,
        a.coeff(8) == a.e1p,
        a.coeff(9) == a.e1n,
        a.coeff(10) == a.e23,
        a.coeff(11) == a.e2p,
        a.coeff(12) == a.e2n,
        a.coeff(13) == a.e3p,
        a.coeff(14) == a.e3n,
        a.coeff(15) == a.epn,
{
}

/// The pair of two points, negated, with a scalar added: the coefficients of its shadow.
proof fn lemma_back_parts<T: Field>(val: spec_fn(T) -> real, p: Point<T>, q: Point<T>, s: T)
    requires
        homomorphic(val),
    ensures
        ({
            let l = shadow(val, p.outer_spec(q).into_mv_spec().neg_spec().add_scalar_spec(s));
            let p1 = at(val, p.e1);
            let p2 = at(val, p.e2);
            let p3 = at(val, p.e3);
            let p4 = at(val, p.ep);
            let p5 = at(val, p.en);
            let q1 = at(val, q.e1);
            let q2 = at(val, q.e2);
            let q3 = at(val, q.e3);
            let q4 = at(val, q.ep);
            let q5 = at(val, q.en);
            &&& l.s == at(val, s)
            &&& l.e12 == -(q2 * p1 - q1 * p2)
            &&& l.e13 == -(q3 * p1 - q1 * p3)
            &&& l.e1p == -(q4 * p1 - q1 * p4)
            &&& l.e1n == -(q5 * p1 - q1 * p5)
            &&& l.e23 == -(q3 * p2 - q2 * p3)
            &&& l.e2p == -(q4 * p2 - q2 * p4)
            &&& l.e2n == -(q5 * p2 - q2 * p5)
            &&& l.e3p == -(q4 * p3 - q3 * p4)
            &&& l.e3n == -(q5 * p3 - q3 * p5)
            &&& l.epn == -(q5 * p4 - q4 * p5)
        }),
{
    let b = p.outer_spec(q);
    let m = b.into_mv_spec();
    let lm = m.neg_spec().add_scalar_spec(s);
    let l = shadow(val, lm);
    lemma_join_values(val, p, q);
    lemma_pair_places(b);
    lemma_real_places(l);
    assert(at(val, T::zero_spec()) == 0real) by {
        reveal(homomorphic);
    }
    lemma_shadow_coeff(val, lm, 0);
    lemma_shifted_coeff(val, m, s, 0);
    lemma_shadow_coeff(val, lm, 6);
    lemma_shifted_coeff(val, m, s, 6);
    lemma_shadow_coeff(val, lm, 7);
    lemma_shifted_coeff(val, m, s, 7);
    lemma_shadow_coeff(val, lm, 8);
    lemma_shifted_coeff(val, m, s, 8);
    lemma_shadow_coeff(val, lm, 9);
    lemma_shifted_coeff(val, m, s, 9);
    lemma_shadow_coeff(val, lm, 10);
    lemma_shifted_coeff(val, m, s, 10);
    lemma_shadow_coeff(val, lm, 11);
    lemma_shifted_coeff(val, m, s, 11);
    lemma_shadow_coeff(val, lm, 12);
    lemma_shifted_coeff(val, m, s, 12);
    lemma_shadow_coeff(val, lm, 13);
    lemma_shifted_coeff(val, m, s, 13);
    lemma_shadow_coeff(val, lm, 14);
    lemma_shifted_coeff(val, m, s, 14);
    lemma_shadow_coeff(val, lm, 15);
    lemma_shifted_coeff(val, m, s, 15);
}

/// The pair of two points with a scalar added: the coefficients of its shadow.
proof fn lemma_forth_parts<T: Field>(val: spec_fn(T) -> real, p: Point<T>, q: Point<T>, s: T)
    requires
        homomorphic(val),
    ensures
        ({
            let l = shadow(val, p.outer_spec(q).into_mv_spec().add_scalar_spec(s));
            let p1 = at(val, p.e1);
            let p2 = at(val, p.e2);
            let p3 = at(val, p.e3);
            let p4 = at(val, p.ep);
            let p5 = at(val, p.en);
            let q1 = at(val, q.e1);
            let q2 = at(val, q.e2);
            let q3 = at(val, q.e3);
            let q4 = at(val, q.ep);
            let q5 = at(val, q.en);
            &&& l.s == at(val, s)
            &&& l.e12 == q2 * p1 - q1 * p2
            &&& l.e13 == q3 * p1 - q1 * p3
            &&& l.e1p == q4 * p1 - q1 * p4
            &&& l.e1n == q5 * p1 - q1 * p5
            &&& l.e23 == q3 * p2 - q2 * p3
            &&& l.e2p == q4 * p2 - q2 * p4
            &&& l.e2n == q5 * p2 - q2 * p5
            &&& l.e3p == q4 * p3 - q3 * p4
            &&& l.e3n == q5 * p3 - q3 * p5
            &&& l.epn == q5 * p4 - q4 * p5
        }),
{
    let b = p.outer_spec(q);
    let m = b.into_mv_spec();
    let lm = m.add_scalar_spec(s);
    let l = shadow(val, lm);
    lemma_join_values(val, p, q);
    lemma_pair_places(b);
    lemma_real_places(l);
    assert(at(val, T::zero_spec()) == 0real) by {
        reveal(homomorphic);
    }
    lemma_shadow_coeff(val, lm, 0);
    lemma_scalar_added_coeff(val, m, s, 0);
    lemma_shadow_coeff(val, lm, 6);
    lemma_scalar_added_coeff(val, m, s, 6);
    lemma_shadow_coeff(val, lm, 7);
    lemma_scalar_added_coeff(val, m, s, 7);
    lemma_shadow_coeff(val, lm, 8);
    lemma_scalar_added_coeff(val, m, s, 8);
    lemma_shadow_coeff(val, lm, 9);
    lemma_scalar_added_coeff(val, m, s, 9);
    lemma_shadow_coeff(val, lm, 10);
    lemma_scalar_added_coeff(val, m, s, 10);
    lemma_shadow_coeff(val, lm, 11);
    lemma_scalar_added_coeff(val, m, s, 11);
    lemma_shadow_coeff(val, lm, 12);
    lemma_scalar_added_coeff(val, m, s, 12);
    lemma_shadow_coeff(val, lm, 13);
    lemma_scalar_added_coeff(val, m, s, 13);
    lemma_shadow_coeff(val, lm, 14);
    lemma_scalar_added_coeff(val, m, s, 14);
    lemma_shadow_coeff(val, lm, 15);
    lemma_scalar_added_coeff(val, m, s, 15);
}

/// The coefficient on `e1` of the first point of a pair, in the parts that it is summed from.
proof fn lemma_first_sum_e1(
    p1: real,
    p2: real,
    p3: real,
    p4: real,
    p5: real,
    q1: real,
    q2: real,
    q3: real,
    q4: real,
    q5: real,
    s: real,
    c1: real,
    c2: real,
    c3: real,
    c4: real,
    c5: real,
    l0: real,
    l12: real,
    l13: real,
    l1p: real,
    l1n: real,
)
    requires
        p1 * p1 + p2 * p2 + p3 * p3 + p4 * p4 - p5 * p5 == 0real,
        q1 * q1 + q2 * q2 + q3 * q3 + q4 * q4 - q5 * q5 == 0real,
        s == -(q1 * p1 + q2 * p2 + q3 * p3 + q4 * p4 - q5 * p5),
        c1 == q1 - p1,
        c2 == q2 - p2,
        c3 == q3 - p3,
        c4 == q4 - p4,
        c5 == q5 - p5,
        l0 == s,
        l12 == -(q2 * p1 - q1 * p2),
        l13 == -(q3 * p1 - q1 * p3),
        l1p == -(q4 * p1 - q1 * p4),
        l1n == -(q5 * p1 - q1 * p5),
    ensures
        c1 * l0 + c2 * l12 + c3 * l13 + c4 * l1p - c5 * l1n == 2real * (p1 * (q1 * p1 + q2 * p2 + q3 * p3 + q4 * p4 - q5 * p5)),
{
    assert(c1 * l0 == (q1 - p1) * s);
    assert(c2 * l12 == (q2 - p2) * (-(q2 * p1 - q1 * p2)));
    assert(c3 * l13 == (q3 - p3) * (-(q3 * p1 - q1 * p3)));
    assert(c4 * l1p == (q4 - p4) * (-(q4 * p1 - q1 * p4)));
    assert(c5 * l1n == (q5 - p5) * (-(q5 * p1 - q1 * p5)));
    lemma_contracted_e1(p1, p2, p3, p4, p5, q1, q2, q3, q4, q5, s);
}

/// The coefficient on `e1` of the first point of the pair of two normalized points, before it is
/// normalized, for the root that is minus their scalar product.
proof fn lemma_first_e1<T: Field>(val: spec_fn(T) -> real, p: Point<T>, q: Point<T>, s: T)
    requires
        homomorphic(val),
        normalized(val, p),
        normalized(val, q),
        at(val, s) == -real_dot(val, p, q),
    ensures
        at(val, p.outer_spec(q).first_spec(s).e1) == 2real * (at(val, p.e1) * real_dot(val, p, q)),
{
    let b = p.outer_spec(q);
    let m = b.into_mv_spec();
    let lm = m.neg_spec().add_scalar_spec(s);
    let car = b.carrier_spec();
    let l = shadow(val, lm);
    let c = shadow(val, car);
    let p1 = at(val, p.e1);
    let p2 = at(val, p.e2);
    let p3 = at(val, p.e3);
    let p4 = at(val, p.ep);
    let p5 = at(val, p.en);
    let q1 = at(val, q.e1);
    let q2 = at(val, q.e2);
    let q3 = at(val, q.e3);
    let q4 = at(val, q.ep);
    let q5 = at(val, q.en);
    lemma_join_values(val, p, q);
    lemma_carrier_values(val, p, q);
    lemma_point_picks(lm.inner_spec(car));
    lemma_inner_coeff(val, lm, car, 1);
    lemma_any_inner_point_e1(l, c);
    lemma_back_parts(val, p, q, s);
    lemma_normalized_is_null(p1, p2, p3, p4, p5);
    lemma_normalized_is_null(q1, q2, q3, q4, q5);
    lemma_first_sum_e1(
        p1,
        p2,
        p3,
        p4,
        p5,
        q1,
        q2,
        q3,
        q4,
        q5,
        at(val, s),
        c.e1, c.e2, c.e3, c.ep, c.en, l.s, l.e12, l.e13, l.e1p, l.e1n,
    );
}

/// The coefficient on `e2` of the first point of a pair, in the parts that it is summed from.
proof fn lemma_first_sum_e2(
    p1: real,
    p2: real,
    p3: real,
    p4: real,
    p5: real,
    q1: real,
    q2: real,
    q3: real,
    q4: real,
    q5: real,
    s: real,
    c2: real,
    c1: real,
    c3: real,
    c4: real,
    c5: real,
    l0: real,
    l12: real,
    l23: real,
    l2p: real,
    l2n: real,
)
    requires
        p1 * p1 + p2 * p2 + p3 * p3 + p4 * p4 - p5 * p5 == 0real,
        q1 * q1 + q2 * q2 + q3 * q3 + q4 * q4 - q5 * q5 == 0real,
        s == -(q1 * p1 + q2 * p2 + q3 * p3 + q4 * p4 - q5 * p5),
        c2 == q2 - p2,
        c1 == q1 - p1,
        c3 == q3 - p3,
        c4 == q4 - p4,
        c5 == q5 - p5,
        l0 == s,
        l12 == -(q2 * p1 - q1 * p2),
        l23 == -(q3 * p2 - q2 * p3),
        l2p == -(q4 * p2 - q2 * p4),
        l2n == -(q5 * p2 - q2 * p5),
    ensures
        c2 * l0 - c1 * l12 + c3 * l23 + c4 * l2p - c5 * l2n == 2real * (p2 * (q1 * p1 + q2 * p2 + q3 * p3 + q4 * p4 - q5 * p5)),
{
    assert(c2 * l0 == (q2 - p2) * s);
    assert(c1 * l12 == (q1 - p1) * (-(q2 * p1 - q1 * p2)));
    assert(c3 * l23 == (q3 - p3) * (-(q3 * p2 - q2 * p3)));
    assert(c4 * l2p == (q4 - p4) * (-(q4 * p2 - q2 * p4)));
    assert(c5 * l2n == (q5 - p5) * (-(q5 * p2 - q2 * p5)));
    lemma_contracted_e2(p1, p2, p3, p4, p5, q1, q2, q3, q4, q5, s);
}

/// The coefficient on `e2` of the first point of the pair of two normalized points, before it is
/// normalized, for the root that is minus their scalar product.
proof fn lemma_first_e2<T: Field>(val: spec_fn(T) -> real, p: Point<T>, q: Point<T>, s: T)
    requires
        homomorphic(val),
        normalized(val, p),
        normalized(val, q),
        at(val, s) == -real_dot(val, p, q),
    ensures
        at(val, p.outer_spec(q).first_spec(s).e2) == 2real * (at(val, p.e2) * real_dot(val, p, q)),
{
    let b = p.outer_spec(q);
    let m = b.into_mv_spec();
    let lm = m.neg_spec().add_scalar_spec(s);
    let car = b.carrier_spec();
    let l = shadow(val, lm);
    let c = shadow(val, car);
    let p1 = at(val, p.e1);
    let p2 = at(val, p.e2);
    let p3 = at(val, p.e3);
    let p4 = at(val, p.ep);
    let p5 = at(val, p.en);
    let q1 = at(val, q.e1);
    let q2 = at(val, q.e2);
    let q3 = at(val, q.e3);
    let q4 = at(val, q.ep);
    let q5 = at(val, q.en);
    lemma_join_values(val, p, q);
    lemma_carrier_values(val, p, q);
    lemma_point_picks(lm.inner_spec(car));
    lemma_inner_coeff(val, lm, car, 2);
    lemma_any_inner_point_e2(l, c);
    lemma_back_parts(val, p, q, s);
    lemma_normalized_is_null(p1, p2, p3, p4, p5);
    lemma_normalized_is_null(q1, q2, q3, q4, q5);
    lemma_first_sum_e2(
        p1,
        p2,
        p3,
        p4,
        p5,
        q1,
        q2,
        q3,
        q4,
        q5,
        at(val, s),
        c.e2, c.e1, c.e3, c.ep, c.en, l.s, l.e12, l.e23, l.e2p, l.e2n,
    );
}

/// The coefficient on `e3` of the first point of a pair, in the parts that it is summed from.
proof fn lemma_first_sum_e3(
    p1: real,
    p2: real,
    p3: real,
    p4: real,
    p5: real,
    q1: real,
    q2: real,
    q3: real,
    q4: real,
    q5: real,
    s: real,
    c3: real,
    c1: real,
    c2: real,
    c4: real,
    c5: real,
    l0: real,
    l13: real,
    l23: real,
    l3p: real,
    l3n: real,
)
    requires
        p1 * p1 + p2 * p2 + p3 * p3 + p4 * p4 - p5 * p5 == 0real,
        q1 * q1 + q2 * q2 + q3 * q3 + q4 * q4 - q5 * q5 == 0real,
        s == -(q1 * p1 + q2 * p2 + q3 * p3 + q4 * p4 - q5 * p5),
        c3 == q3 - p3,
        c1 == q1 - p1,
        c2 == q2 - p2,
        c4 == q4 - p4,
        c5 == q5 - p5,
        l0 == s,
        l13 == -(q3 * p1 - q1 * p3),
        l23 == -(q3 * p2 - q2 * p3),
        l3p == -(q4 * p3 - q3 * p4),
        l3n == -(q5 * p3 - q3 * p5),
    ensures
        c3 * l0 - c1 * l13 - c2 * l23 + c4 * l3p - c5 * l3n == 2real * (p3 * (q1 * p1 + q2 * p2 + q3 * p3 + q4 * p4 - q5 * p5)),
{
    assert(c3 * l0 == (q3 - p3) * s);
    assert(c1 * l13 == (q1 - p1) * (-(q3 * p1 - q1 * p3)));
    assert(c2 * l23 == (q2 - p2) * (-(q3 * p2 - q2 * p3)));
    assert(c4 * l3p == (q4 - p4) * (-(q4 * p3 - q3 * p4)));
    assert(c5 * l3n == (q5 - p5) * (-(q5 * p3 - q3 * p5)));
    lemma_contracted_e3(p1, p2, p3, p4, p5, q1, q2, q3, q4, q5, s);
}

/// The coefficient on `e3` of the first point of the pair of two normalized points, before it is
/// normalized, for the root that is minus their scalar product.
proof fn lemma_first_e3<T: Field>(val: spec_fn(T) -> real, p: Point<T>, q: Point<T>, s: T)
    requires
        homomorphic(val),
        normalized(val, p),
        normalized(val, q),
        at(val, s) == -real_dot(val, p, q),
    ensures
        at(val, p.outer_spec(q).first_spec(s).e3) == 2real * (at(val, p.e3) * real_dot(val, p, q)),
{
    let b = p.outer_spec(q);
    let m = b.into_mv_spec();
    let lm = m.neg_spec().add_scalar_spec(s);
    let car = b.carrier_spec();
    let l = shadow(val, lm);
    let c = shadow(val, car);
    let p1 = at(val, p.e1);
    let p2 = at(val, p.e2);
    let p3 = at(val, p.e3);
    let p4 = at(val, p.ep);
    let p5 = at(val, p.en);
    let q1 = at(val, q.e1);
    let q2 = at(val, q.e2);
    let q3 = at(val, q.e3);
    let q4 = at(val, q.ep);
    let q5 = at(val, q.en);
    lemma_join_values(val, p, q);
    lemma_carrier_values(val, p, q);
    lemma_point_picks(lm.inner_spec(car));
    lemma_inner_coeff(val, lm, car, 3);
    lemma_any_inner_point_e3(l, c);
    lemma_back_parts(val, p, q, s);
    lemma_normalized_is_null(p1, p2, p3, p4, p5);
    lemma_normalized_is_null(q1, q2, q3, q4, q5);
    lemma_first_sum_e3(
        p1,
        p2,
        p3,
        p4,
        p5,
        q1,
        q2,
        q3,
        q4,
        q5,
        at(val, s),
        c.e3, c.e1, c.e2, c.ep, c.en, l.s, l.e13, l.e23, l.e3p, l.e3n,
    );
}

/// The coefficient on `ep` of the first point of a pair, in the parts that it is summed from.
proof fn lemma_first_sum_ep(
    p1: real,
    p2: real,
    p3: real,
    p4: real,
    p5: real,
    q1: real,
    q2: real,
    q3: real,
    q4: real,
    q5: real,
    s: real,
    c4: real,
    c1: real,
    c2: real,
    c3: real,
    c5: real,
    l0: real,
    l1p: real,
    l2p: real,
    l3p: real,
    lpn: real,
)
    requires
        p1 * p1 + p2 * p2 + p3 * p3 + p4 * p4 - p5 * p5 == 0real,
        q1 * q1 + q2 * q2 + q3 * q3 + q4 * q4 - q5 * q5 == 0real,
        s == -(q1 * p1 + q2 * p2 + q3 * p3 + q4 * p4 - q5 * p5),
        c4 == q4 - p4,
        c1 == q1 - p1,
        c2 == q2 - p2,
        c3 == q3 - p3,
        c5 == q5 - p5,
        l0 == s,
        l1p == -(q4 * p1 - q1 * p4),
        l2p == -(q4 * p2 - q2 * p4),
        l3p == -(q4 * p3 - q3 * p4),
        lpn == -(q5 * p4 - q4 * p5),
    ensures
        c4 * l0 - c1 * l1p - c2 * l2p - c3 * l3p - c5 * lpn == 2real * (p4 * (q1 * p1 + q2 * p2 + q3 * p3 + q4 * p4 - q5 * p5)),
{
    assert(c4 * l0 == (q4 - p4) * s);
    assert(c1 * l1p == (q1 - p1) * (-(q4 * p1 - q1 * p4)));
    assert(c2 * l2p == (q2 - p2) * (-(q4 * p2 - q2 * p4)));
    assert(c3 * l3p == (q3 - p3) * (-(q4 * p3 - q3 * p4)));
    assert(c5 * lpn == (q5 - p5) * (-(q5 * p4 - q4 * p5)));
    lemma_contracted_ep(p1, p2, p3, p4, p5, q1, q2, q3, q4, q5, s);
}

/// The coefficient on `ep` of the first point of the pair of two normalized points, before it is
/// normalized, for the root that is minus their scalar product.
proof fn lemma_first_ep<T: Field>(val: spec_fn(T) -> real, p: Point<T>, q: Point<T>, s: T)
    requires
        homomorphic(val),
        normalized(val, p),
        normalized(val, q),
        at(val, s) == -real_dot(val, p, q),
    ensures
        at(val, p.outer_spec(q).first_spec(s).ep) == 2real * (at(val, p.ep) * real_dot(val, p, q)),
{
    let b = p.outer_spec(q);
    let m = b.into_mv_spec();
    let lm = m.neg_spec().add_scalar_spec(s);
    let car = b.carrier_spec();
    let l = shadow(val, lm);
    let c = shadow(val, car);
    let p1 = at(val, p.e1);
    let p2 = at(val, p.e2);
    let p3 = at(val, p.e3);
    let p4 = at(val, p.ep);
    let p5 = at(val, p.en);
    let q1 = at(val, q.e1);
    let q2 = at(val, q.e2);
    let q3 = at(val, q.e3);
    let q4 = at(val, q.ep);
    let q5 = at(val, q.en);
    lemma_join_values(val, p, q);
    lemma_carrier_values(val, p, q);
    lemma_point_picks(lm.inner_spec(car));
    lemma_inner_coeff(val, lm, car, 4);
    lemma_any_inner_point_ep(l, c);
    lemma_back_parts(val, p, q, s);
    lemma_normalized_is_null(p1, p2, p3, p4, p5);
    lemma_normalized_is_null(q1, q2, q3, q4, q5);
    lemma_first_sum_ep(
        p1,
        p2,
        p3,
        p4,
        p5,
        q1,
        q2,
        q3,
        q4,
        q5,
        at(val, s),
        c.ep, c.e1, c.e2, c.e3, c.en, l.s, l.e1p, l.e2p, l.e3p, l.epn,
    );
}

/// The coefficient on `en` of the first point of a pair, in the parts that it is summed from.
proof fn lemma_first_sum_en(
    p1: real,
    p2: real,
    p3: real,
    p4: real,
    p5: real,
    q1: real,
    q2: real,
    q3: real,
    q4: real,
    q5: real,
    s: real,
    c5: real,
    c1: real,
    c2: real,
    c3: real,
    c4: real,
    l0: real,
    l1n: real,
    l2n: real,
    l3n: real,
    lpn: real,
)
    requires
        p1 * p1 + p2 * p2 + p3 * p3 + p4 * p4 - p5 * p5 == 0real,
        q1 * q1 + q2 * q2 + q3 * q3 + q4 * q4 - q5 * q5 == 0real,
        s == -(q1 * p1 + q2 * p2 + q3 * p3 + q4 * p4 - q5 * p5),
        c5 == q5 - p5,
        c1 == q1 - p1,
        c2 == q2 - p2,
        c3 == q3 - p3,
        c4 == q4 - p4,
        l0 == s,
        l1n == -(q5 * p1 - q1 * p5),
        l2n == -(q5 * p2 - q2 * p5),
        l3n == -(q5 * p3 - q3 * p5),
        lpn == -(q5 * p4 - q4 * p5),
    ensures
        c5 * l0 - c1 * l1n - c2 * l2n - c3 * l3n - c4 * lpn == 2real * (p5 * (q1 * p1 + q2 * p2 + q3 * p3 + q4 * p4 - q5 * p5)),
{
    assert(c5 * l0 == (q5 - p5) * s);
    assert(c1 * l1n == (q1 - p1) * (-(q5 * p1 - q1 * p5)));
    assert(c2 * l2n == (q2 - p2) * (-(q5 * p2 - q2 * p5)));
    assert(c3 * l3n == (q3 - p3) * (-(q5 * p3 - q3 * p5)));
    assert(c4 * lpn == (q4 - p4) * (-(q5 * p4 - q4 * p5)));
    lemma_contracted_en(p1, p2, p3, p4, p5, q1, q2, q3, q4, q5, s);
}

/// The coefficient on `en` of the first point of the pair of two normalized points, before it is
/// normalized, for the root that is minus their scalar product.
proof fn lemma_first_en<T: Field>(val: spec_fn(T) -> real, p: Point<T>, q: Point<T>, s: T)
    requires
        homomorphic(val),
        normalized(val, p),
        normalized(val, q),
        at(val, s) == -real_dot(val, p, q),
    ensures
        at(val, p.outer_spec(q).first_spec(s).en) == 2real * (at(val, p.en) * real_dot(val, p, q)),
{
    let b = p.outer_spec(q);
    let m = b.into_mv_spec();
    let lm = m.neg_spec().add_scalar_spec(s);
    let car = b.carrier_spec();
    let l = shadow(val, lm);
    let c = shadow(val, car);
    let p1 = at(val, p.e1);
    let p2 = at(val, p.e2);
    let p3 = at(val, p.e3);
    let p4 = at(val, p.ep);
    let p5 = at(val, p.en);
    let q1 = at(val, q.e1);
    let q2 = at(val, q.e2);
    let q3 = at(val, q.e3);
    let q4 = at(val, q.ep);
    let q5 = at(val, q.en);
    lemma_join_values(val, p, q);
    lemma_carrier_values(val, p, q);
    lemma_point_picks(lm.inner_spec(car));
    lemma_inner_coeff(val, lm, car, 5);
    lemma_any_inner_point_en(l, c);
    lemma_back_parts(val, p, q, s);
    lemma_normalized_is_null(p1, p2, p3, p4, p5);
    lemma_normalized_is_null(q1, q2, q3, q4, q5);
    lemma_first_sum_en(
        p1,
        p2,
        p3,
        p4,
        p5,
        q1,
        q2,
        q3,
        q4,
        q5,
        at(val, s),
        c.en, c.e1, c.e2, c.e3, c.ep, l.s, l.e1n, l.e2n, l.e3n, l.epn,
    );
}

/// The coefficient on `e1` of the second point of a pair, in the parts that it is summed from.
proof fn lemma_second_sum_e1(
    p1: real,
    p2: real,
    p3: real,
    p4: real,
    p5: real,
    q1: real,
    q2: real,
    q3: real,
    q4: real,
    q5: real,
    s: real,
    c1: real,
    c2: real,
    c3: real,
    c4: real,
    c5: real,
    l0: real,
    l12: real,
    l13: real,
    l1p: real,
    l1n: real,
)
    requires
        p1 * p1 + p2 * p2 + p3 * p3 + p4 * p4 - p5 * p5 == 0real,
        q1 * q1 + q2 * q2 + q3 * q3 + q4 * q4 - q5 * q5 == 0real,
        s == -(q1 * p1 + q2 * p2 + q3 * p3 + q4 * p4 - q5 * p5),
        c1 == q1 - p1,
        c2 == q2 - p2,
        c3 == q3 - p3,
        c4 == q4 - p4,
        c5 == q5 - p5,
        l0 == s,
        l12 == q2 * p1 - q1 * p2,
        l13 == q3 * p1 - q1 * p3,
        l1p == q4 * p1 - q1 * p4,
        l1n == q5 * p1 - q1 * p5,
    ensures
        c1 * l0 + c2 * l12 + c3 * l13 + c4 * l1p - c5 * l1n == -(2real * (q1 * (q1 * p1 + q2 * p2 + q3 * p3 + q4 * p4 - q5 * p5))),
{
    assert(c1 * l0 == (q1 - p1) * s);
    assert(c2 * l12 == (q2 - p2) * (q2 * p1 - q1 * p2));
    assert(c3 * l13 == (q3 - p3) * (q3 * p1 - q1 * p3));
    assert(c4 * l1p == (q4 - p4) * (q4 * p1 - q1 * p4));
    assert(c5 * l1n == (q5 - p5) * (q5 * p1 - q1 * p5));
    lemma_contracted_e1(p1, p2, p3, p4, p5, q1, q2, q3, q4, q5, s);
}

/// The coefficient on `e1` of the second point of the pair of two normalized points, before it is
/// normalized, for the root that is minus their scalar product.
proof fn lemma_second_e1<T: Field>(val: spec_fn(T) -> real, p: Point<T>, q: Point<T>, s: T)
    requires
        homomorphic(val),
        normalized(val, p),
        normalized(val, q),
        at(val, s) == -real_dot(val, p, q),
    ensures
        at(val, p.outer_spec(q).second_spec(s).e1) == -(2real * (at(val, q.e1) * real_dot(val, p, q))),
{
    let b = p.outer_spec(q);
    let m = b.into_mv_spec();
    let lm = m.add_scalar_spec(s);
    let car = b.carrier_spec();
    let l = shadow(val, lm);
    let c = shadow(val, car);
    let p1 = at(val, p.e1);
    let p2 = at(val, p.e2);
    let p3 = at(val, p.e3);
    let p4 = at(val, p.ep);
    let p5 = at(val, p.en);
    let q1 = at(val, q.e1);
    let q2 = at(val, q.e2);
    let q3 = at(val, q.e3);
    let q4 = at(val, q.ep);
    let q5 = at(val, q.en);
    lemma_join_values(val, p, q);
    lemma_carrier_values(val, p, q);
    lemma_point_picks(lm.inner_spec(car));
    lemma_inner_coeff(val, lm, car, 1);
    lemma_any_inner_point_e1(l, c);
    lemma_forth_parts(val, p, q, s);
    lemma_normalized_is_null(p1, p2, p3, p4, p5);
    lemma_normalized_is_null(q1, q2, q3, q4, q5);
    lemma_second_sum_e1(
        p1,
        p2,
        p3,
        p4,
        p5,
        q1,
        q2,
        q3,
        q4,
        q5,
        at(val, s),
        c.e1, c.e2, c.e3, c.ep, c.en, l.s, l.e12, l.e13, l.e1p, l.e1n,
    );
}

/// The coefficient on `e2` of the second point of a pair, in the parts that it is summed from.
proof fn lemma_second_sum_e2(
    p1: real,
    p2: real,
    p3: real,
    p4: real,
    p5: real,
    q1: real,
    q2: real,
    q3: real,
    q4: real,
    q5: real,
    s: real,
    c2: real,
    c1: real,
    c3: real,
    c4: real,
    c5: real,
    l0: real,
    l12: real,
    l23: real,
    l2p: real,
    l2n: real,
)
    requires
        p1 * p1 + p2 * p2 + p3 * p3 + p4 * p4 - p5 * p5 == 0real,
        q1 * q1 + q2 * q2 + q3 * q3 + q4 * q4 - q5 * q5 == 0real,
        s == -(q1 * p1 + q2 * p2 + q3 * p3 + q4 * p4 - q5 * p5),
        c2 == q2 - p2,
        c1 == q1 - p1,
        c3 == q3 - p3,
        c4 == q4 - p4,
        c5 == q5 - p5,
        l0 == s,
        l12 == q2 * p1 - q1 * p2,
        l23 == q3 * p2 - q2 * p3,
        l2p == q4 * p2 - q2 * p4,
        l2n == q5 * p2 - q2 * p5,
    ensures
        c2 * l0 - c1 * l12 + c3 * l23 + c4 * l2p - c5 * l2n == -(2real * (q2 * (q1 * p1 + q2 * p2 + q3 * p3 + q4 * p4 - q5 * p5))),
{
    assert(c2 * l0 == (q2 - p2) * s);
    assert(c1 * l12 == (q1 - p1) * (q2 * p1 - q1 * p2));
    assert(c3 * l23 == (q3 - p3) * (q3 * p2 - q2 * p3));
    assert(c4 * l2p == (q4 - p4) * (q4 * p2 - q2 * p4));
    assert(c5 * l2n == (q5 - p5) * (q5 * p2 - q2 * p5));
    lemma_contracted_e2(p1, p2, p3, p4, p5, q1, q2, q3, q4, q5, s);
}

/// The coefficient on `e2` of the second point of the pair of two normalized points, before it is
/// normalized, for the root that is minus their scalar product.
proof fn lemma_second_e2<T: Field>(val: spec_fn(T) -> real, p: Point<T>, q: Point<T>, s: T)
    requires
        homomorphic(val),
        normalized(val, p),
        normalized(val, q),
        at(val, s) == -real_dot(val, p, q),
    ensures
        at(val, p.outer_spec(q).second_spec(s).e2) == -(2real * (at(val, q.e2) * real_dot(val, p, q))),
{
    let b = p.outer_spec(q);
    let m = b.into_mv_spec();
    let lm = m.add_scalar_spec(s);
    let car = b.carrier_spec();
    let l = shadow(val, lm);
    let c = shadow(val, car);
    let p1 = at(val, p.e1);
    let p2 = at(val, p.e2);
    let p3 = at(val, p.e3);
    let p4 = at(val, p.ep);
    let p5 = at(val, p.en);
    let q1 = at(val, q.e1);
    let q2 = at(val, q.e2);
    let q3 = at(val, q.e3);
    let q4 = at(val, q.ep);
    let q5 = at(val, q.en);
    lemma_join_values(val, p, q);
    lemma_carrier_values(val, p, q);
    lemma_point_picks(lm.inner_spec(car));
    lemma_inner_coeff(val, lm, car, 2);
    lemma_any_inner_point_e2(l, c);
    lemma_forth_parts(val, p, q, s);
    lemma_normalized_is_null(p1, p2, p3, p4, p5);
    lemma_normalized_is_null(q1, q2, q3, q4, q5);
    lemma_second_sum_e2(
        p1,
        p2,
        p3,
        p4,
        p5,
        q1,
        q2,
        q3,
        q4,
        q5,
        at(val, s),
        c.e2, c.e1, c.e3, c.ep, c.en, l.s, l.e12, l.e23, l.e2p, l.e2n,
    );
}

/// The coefficient on `e3` of the second point of a pair, in the parts that it is summed from.
proof fn lemma_second_sum_e3(
    p1: real,
    p2: real,
    p3: real,
    p4: real,
    p5: real,
    q1: real,
    q2: real,
    q3: real,
    q4: real,
    q5: real,
    s: real,
    c3: real,
    c1: real,
    c2: real,
    c4: real,
    c5: real,
    l0: real,
    l13: real,
    l23: real,
    l3p: real,
    l3n: real,
)
    requires
        p1 * p1 + p2 * p2 + p3 * p3 + p4 * p4 - p5 * p5 == 0real,
        q1 * q1 + q2 * q2 + q3 * q3 + q4 * q4 - q5 * q5 == 0real,
        s == -(q1 * p1 + q2 * p2 + q3 * p3 + q4 * p4 - q5 * p5),
        c3 == q3 - p3,
        c1 == q1 - p1,
        c2 == q2 - p2,
        c4 == q4 - p4,
        c5 == q5 - p5,
        l0 == s,
        l13 == q3 * p1 - q1 * p3,
        l23 == q3 * p2 - q2 * p3,
        l3p == q4 * p3 - q3 * p4,
        l3n == q5 * p3 - q3 * p5,
    ensures
        c3 * l0 - c1 * l13 - c2 * l23 + c4 * l3p - c5 * l3n == -(2real * (q3 * (q1 * p1 + q2 * p2 + q3 * p3 + q4 * p4 - q5 * p5))),
{
    assert(c3 * l0 == (q3 - p3) * s);
    assert(c1 * l13 == (q1 - p1) * (q3 * p1 - q1 * p3));
    assert(c2 * l23 == (q2 - p2) * (q3 * p2 - q2 * p3));
    assert(c4 * l3p == (q4 - p4) * (q4 * p3 - q3 * p4));
    assert(c5 * l3n == (q5 - p5) * (q5 * p3 - q3 * p5));
    lemma_contracted_e3(p1, p2, p3, p4, p5, q1, q2, q3, q4, q5, s);
}

/// The coefficient on `e3` of the second point of the pair of two normalized points, before it is
/// normalized, for the root that is minus their scalar product.
proof fn lemma_second_e3<T: Field>(val: spec_fn(T) -> real, p: Point<T>, q: Point<T>, s: T)
    requires
        homomorphic(val),
        normalized(val, p),
        normalized(val, q),
        at(val, s) == -real_dot(val, p, q),
    ensures
        at(val, p.outer_spec(q).second_spec(s).e3) == -(2real * (at(val, q.e3) * real_dot(val, p, q))),
{
    let b = p.outer_spec(q);
    let m = b.into_mv_spec();
    let lm = m.add_scalar_spec(s);
    let car = b.carrier_spec();
    let l = shadow(val, lm);
    let c = shadow(val, car);
    let p1 = at(val, p.e1);
    let p2 = at(val, p.e2);
    let p3 = at(val, p.e3);
    let p4 = at(val, p.ep);
    let p5 = at(val, p.en);
    let q1 = at(val, q.e1);
    let q2 = at(val, q.e2);
    let q3 = at(val, q.e3);
    let q4 = at(val, q.ep);
    let q5 = at(val, q.en);
    lemma_join_values(val, p, q);
    lemma_carrier_values(val, p, q);
    lemma_point_picks(lm.inner_spec(car));
    lemma_inner_coeff(val, lm, car, 3);
    lemma_any_inner_point_e3(l, c);
    lemma_forth_parts(val, p, q, s);
    lemma_normalized_is_null(p1, p2, p3, p4, p5);
    lemma_normalized_is_null(q1, q2, q3, q4, q5);
    lemma_second_sum_e3(
        p1,
        p2,
        p3,
        p4,
        p5,
        q1,
        q2,
        q3,
        q4,
        q5,
        at(val, s),
        c.e3, c.e1, c.e2, c.ep, c.en, l.s, l.e13, l.e23, l.e3p, l.e3n,
    );
}

/// The coefficient on `ep` of the second point of a pair, in the parts that it is summed from.
proof fn lemma_second_sum_ep(
    p1: real,
    p2: real,
    p3: real,
    p4: real,
    p5: real,
    q1: real,
    q2: real,
    q3: real,
    q4: real,
    q5: real,
    s: real,
    c4: real,
    c1: real,
    c2: real,
    c3: real,
    c5: real,
    l0: real,
    l1p: real,
    l2p: real,
    l3p: real,
    lpn: real,
)
    requires
        p1 * p1 + p2 * p2 + p3 * p3 + p4 * p4 - p5 * p5 == 0real,
        q1 * q1 + q2 * q2 + q3 * q3 + q4 * q4 - q5 * q5 == 0real,
        s == -(q1 * p1 + q2 * p2 + q3 * p3 + q4 * p4 - q5 * p5),
        c4 == q4 - p4,
        c1 == q1 - p1,
        c2 == q2 - p2,
        c3 == q3 - p3,
        c5 == q5 - p5,
        l0 == s,
        l1p == q4 * p1 - q1 * p4,
        l2p == q4 * p2 - q2 * p4,
        l3p == q4 * p3 - q3 * p4,
        lpn == q5 * p4 - q4 * p5,
    ensures
        c4 * l0 - c1 * l1p - c2 * l2p - c3 * l3p - c5 * lpn == -(2real * (q4 * (q1 * p1 + q2 * p2 + q3 * p3 + q4 * p4 - q5 * p5))),
{
    assert(c4 * l0 == (q4 - p4) * s);
    assert(c1 * l1p == (q1 - p1) * (q4 * p1 - q1 * p4));
    assert(c2 * l2p == (q2 - p2) * (q4 * p2 - q2 * p4));
    assert(c3 * l3p == (q3 - p3) * (q4 * p3 - q3 * p4));
    assert(c5 * lpn == (q5 - p5) * (q5 * p4 - q4 * p5));
    lemma_contracted_ep(p1, p2, p3, p4, p5, q1, q2, q3, q4, q5, s);
}

/// The coefficient on `ep` of the second point of the pair of two normalized points, before it is
/// normalized, for the root that is minus their scalar product.
proof fn lemma_second_ep<T: Field>(val: spec_fn(T) -> real, p: Point<T>, q: Point<T>, s: T)
    requires
        homomorphic(val),
        normalized(val, p),
        normalized(val, q),
        at(val, s) == -real_dot(val, p, q),
    ensures
        at(val, p.outer_spec(q).second_spec(s).ep) == -(2real * (at(val, q.ep) * real_dot(val, p, q))),
{
    let b = p.outer_spec(q);
    let m = b.into_mv_spec();
    let lm = m.add_scalar_spec(s);
    let car = b.carrier_spec();
    let l = shadow(val, lm);
    let c = shadow(val, car);
    let p1 = at(val, p.e1);
    let p2 = at(val, p.e2);
    let p3 = at(val, p.e3);
    let p4 = at(val, p.ep);
    let p5 = at(val, p.en);
    let q1 = at(val, q.e1);
    let q2 = at(val, q.e2);
    let q3 = at(val, q.e3);
    let q4 = at(val, q.ep);
    let q5 = at(val, q.en);
    lemma_join_values(val, p, q);
    lemma_carrier_values(val, p, q);
    lemma_point_picks(lm.inner_spec(car));
    lemma_inner_coeff(val, lm, car, 4);
    lemma_any_inner_point_ep(l, c);
    lemma_forth_parts(val, p, q, s);
    lemma_normalized_is_null(p1, p2, p3, p4, p5);
    lemma_normalized_is_null(q1, q2, q3, q4, q5);
    lemma_second_sum_ep(
        p1,
        p2,
        p3,
        p4,
        p5,
        q1,
        q2,
        q3,
        q4,
        q5,
        at(val, s),
        c.ep, c.e1, c.e2, c.e3, c.en, l.s, l.e1p, l.e2p, l.e3p, l.epn,
    );
}

/// The coefficient on `en` of the second point of a pair, in the parts that it is summed from.
proof fn lemma_second_sum_en(
    p1: real,
    p2: real,
    p3: real,
    p4: real,
    p5: real,
    q1: real,
    q2: real,
    q3: real,
    q4: real,
    q5: real,
    s: real,
    c5: real,
    c1: real,
    c2: real,
    c3: real,
    c4: real,
    l0: real,
    l1n: real,
    l2n: real,
    l3n: real,
    lpn: real,
)
    requires
        p1 * p1 + p2 * p2 + p3 * p3 + p4 * p4 - p5 * p5 == 0real,
        q1 * q1 + q2 * q2 + q3 * q3 + q4 * q4 - q5 * q5 == 0real,
        s == -(q1 * p1 + q2 * p2 + q3 * p3 + q4 * p4 - q5 * p5),
        c5 == q5 - p5,
        c1 == q1 - p1,
        c2 == q2 - p2,
        c3 == q3 - p3,
        c4 == q4 - p4,
        l0 == s,
        l1n == q5 * p1 - q1 * p5,
        l2n == q5 * p2 - q2 * p5,
        l3n == q5 * p3 - q3 * p5,
        lpn == q5 * p4 - q4 * p5,
    ensures
        c5 * l0 - c1 * l1n - c2 * l2n - c3 * l3n - c4 * lpn == -(2real * (q5 * (q1 * p1 + q2 * p2 + q3 * p3 + q4 * p4 - q5 * p5))),
{
    assert(c5 * l0 == (q5 - p5) * s);
    assert(c1 * l1n == (q1 - p1) * (q5 * p1 - q1 * p5));
    assert(c2 * l2n == (q2 - p2) * (q5 * p2 - q2 * p5));
    assert(c3 * l3n == (q3 - p3) * (q5 * p3 - q3 * p5));
    assert(c4 * lpn == (q4 - p4) * (q5 * p4 - q4 * p5));
    lemma_contracted_en(p1, p2, p3, p4, p5, q1, q2, q3, q4, q5, s);
}

/// The coefficient on `en` of the second point of the pair of two normalized points, before it is
/// normalized, for the root that is minus their scalar product.
proof fn lemma_second_en<T: Field>(val: spec_fn(T) -> real, p: Point<T>, q: Point<T>, s: T)
    requires
        homomorphic(val),
        normalized(val, p),
        normalized(val, q),
        at(val, s) == -real_dot(val, p, q),
    ensures
        at(val, p.outer_spec(q).second_spec(s).en) == -(2real * (at(val, q.en) * real_dot(val, p, q))),
{
    let b = p.outer_spec(q);
    let m = b.into_mv_spec();
    let lm = m.add_scalar_spec(s);
    let car = b.carrier_spec();
    let l = shadow(val, lm);
    let c = shadow(val, car);
    let p1 = at(val, p.e1);
    let p2 = at(val, p.e2);
    let p3 = at(val, p.e3);
    let p4 = at(val, p.ep);
    let p5 = at(val, p.en);
    let q1 = at(val, q.e1);
    let q2 = at(val, q.e2);
    let q3 = at(val, q.e3);
    let q4 = at(val, q.ep);
    let q5 = at(val, q.en);
    lemma_join_values(val, p, q);
    lemma_carrier_values(val, p, q);
    lemma_point_picks(lm.inner_spec(car));
    lemma_inner_coeff(val, lm, car, 5);
    lemma_any_inner_point_en(l, c);
    lemma_forth_parts(val, p, q, s);
    lemma_normalized_is_null(p1, p2, p3, p4, p5);
    lemma_normalized_is_null(q1, q2, q3, q4, q5);
    lemma_second_sum_en(
        p1,
        p2,
        p3,
        p4,
        p5,
        q1,
        q2,
        q3,
        q4,
        q5,
        at(val, s),
        c.en, c.e1, c.e2, c.e3, c.ep, l.s, l.e1n, l.e2n, l.e3n, l.epn,
    );
}

/// The weight of a point is the difference of its coefficients on the null pair.
pub proof fn lemma_weight<T: Field>(val: spec_fn(T) -> real, x: Point<T>)
    requires
        homomorphic(val),
    ensures
        at(val, x.norm_spec()) == at(val, x.ep) - at(val, x.en),
{
    let n = Point::<T, Euclidean>::ni_spec();
    let a = shadow(val, x.into_mv_spec());
    let b = shadow(val, n.into_mv_spec());
    lemma_point_shadow(val, x);
    lemma_point_shadow(val, n);
    lemma_point_picks(infinity_spec::<T>(SpaceKind::Euclidean));
    assert(at(val, n.e1) == 0real && at(val, n.e2) == 0real && at(val, n.e3) == 0real && at(
        val,
        n.ep,
    ) == 1real && at(val, n.en) == 1real) by {
        reveal(homomorphic);
    }
    lemma_inner_coeff(val, x.into_mv_spec(), n.into_mv_spec(), 0);
    lemma_point_inner_point_s(a, b);
    lemma_zero_times(b.e1, a.e1);
    lemma_zero_times(b.e2, a.e2);
    lemma_zero_times(b.e3, a.e3);
    lemma_one_times(b.ep, a.ep);
    lemma_one_times(b.en, a.en);
}

/// A multiple of a normalized point has the multiplier for its weight, and divided by its
/// weight it is the point, as real numbers.
proof fn lemma_normalize_multiple<T: Field>(
    val: spec_fn(T) -> real,
    x: Point<T>,
    y: Point<T>,
    w: real,
)
    requires
        homomorphic(val),
        w != 0real,
        at(val, x.e1) == at(val, y.e1) * w,
        at(val, x.e2) == at(val, y.e2) * w,
        at(val, x.e3) == at(val, y.e3) * w,
        at(val, x.ep) == at(val, y.ep) * w,
        at(val, x.en) == at(val, y.en) * w,
        at(val, y.ep) - at(val, y.en) == 1real,
    ensures
        at(val, x.norm_spec()) == w,
        at(val, x.normalize_spec().e1) == at(val, y.e1),
        at(val, x.normalize_spec().e2) == at(val, y.e2),
        at(val, x.normalize_spec().e3) == at(val, y.e3),
        at(val, x.normalize_spec().ep) == at(val, y.ep),
        at(val, x.normalize_spec().en) == at(val, y.en),
{
    let m = x.into_mv_spec();
    let t = x.norm_spec();
    let r = at(val, t.recip_spec());
    let d = m.div_scalar_spec(t);
    lemma_weight(val, x);
    lemma_distribute(w, at(val, y.ep), at(val, y.en));
    lemma_one_times(at(val, y.ep) - at(val, y.en), w);
    assert(at(val, t) == w);
    assert(r * w == 1real) by {
        reveal(homomorphic);
    }
    lemma_point_places(x);
    lemma_point_picks(d);
    lemma_scaled_coeff(val, m, t.recip_spec(), 1);
    lemma_scaled_coeff(val, m, t.recip_spec(), 2);
    lemma_scaled_coeff(val, m, t.recip_spec(), 3);
    lemma_scaled_coeff(val, m, t.recip_spec(), 4);
    lemma_scaled_coeff(val, m, t.recip_spec(), 5);
    lemma_unscaled(r, w, at(val, y.e1));
    lemma_unscaled(r, w, at(val, y.e2));
    lemma_unscaled(r, w, at(val, y.e3));
    lemma_unscaled(r, w, at(val, y.ep));
    lemma_unscaled(r, w, at(val, y.en));
}

/// The square of the join of two normalized points, different in their coordinates, has a
/// root: minus the scalar product of the two, which is not zero.
proof fn lemma_root_of_pair<T: Field>(val: spec_fn(T) -> real, p: Point<T>, q: Point<T>)
    requires
        homomorphic(val),
        rooted(val),
        normalized(val, p),
        normalized(val, q),
        at(val, p.e1) != at(val, q.e1) || at(val, p.e2) != at(val, q.e2) || at(val, p.e3) != at(
            val,
            q.e3,
        ),
    ensures
        real_dot(val, p, q) < 0real,
        p.outer_spec(q).radicand_spec().has_sqrt_spec(),
        at(val, p.outer_spec(q).radicand_spec().sqrt_spec()) == -real_dot(val, p, q),
{
    let dot = real_dot(val, p, q);
    let rad = p.outer_spec(q).radicand_spec();
    lemma_square_of_pair(val, p, q);
    lemma_dot_of_normalized(
        at(val, p.e1),
        at(val, p.e2),
        at(val, p.e3),
        at(val, p.ep),
        at(val, p.en),
        at(val, q.e1),
        at(val, q.e2),
        at(val, q.e3),
        at(val, q.ep),
        at(val, q.en),
    );
    lemma_apart(
        at(val, p.e1),
        at(val, p.e2),
        at(val, p.e3),
        at(val, q.e1),
        at(val, q.e2),
        at(val, q.e3),
    );
    assert(dot < 0real);
    lemma_sign_out(dot, -dot);
    lemma_sign_out(dot, dot);
    assert(is_root(-dot, at(val, rad)));
    reveal(rooted);
}

/// The first point of the pair of two normalized points, different in their coordinates, is
/// the first of the two.
proof fn lemma_first_point<T: Field>(val: spec_fn(T) -> real, p: Point<T>, q: Point<T>, s: T)
    requires
        embeds(val),
        normalized(val, p),
        normalized(val, q),
        at(val, s) == -real_dot(val, p, q),
        real_dot(val, p, q) != 0real,
    ensures
        at(val, p.outer_spec(q).first_spec(s).norm_spec()) != 0real,
        p.outer_spec(q).first_spec(s).normalize_spec() == p,
{
    let dot = real_dot(val, p, q);
    let f = p.outer_spec(q).first_spec(s);
    let g = f.normalize_spec();
    lemma_first_e1(val, p, q, s);
    lemma_first_e2(val, p, q, s);
    lemma_first_e3(val, p, q, s);
    lemma_first_ep(val, p, q, s);
    lemma_first_en(val, p, q, s);
    lemma_two_out(at(val, p.e1), dot);
    lemma_two_out(at(val, p.e2), dot);
    lemma_two_out(at(val, p.e3), dot);
    lemma_two_out(at(val, p.ep), dot);
    lemma_two_out(at(val, p.en), dot);
    lemma_normalize_multiple(val, f, p, 2real * dot);
    lemma_same_value(val, g.e1, p.e1);
    lemma_same_value(val, g.e2, p.e2);
    lemma_same_value(val, g.e3, p.e3);
    lemma_same_value(val, g.ep, p.ep);
    lemma_same_value(val, g.en, p.en);
}

/// The second point of the pair of two normalized points, different in their coordinates, is
/// the second of the two.
proof fn lemma_second_point<T: Field>(val: spec_fn(T) -> real, p: Point<T>, q: Point<T>, s: T)
    requires
        embeds(val),
        normalized(val, p),
        normalized(val, q),
        at(val, s) == -real_dot(val, p, q),
        real_dot(val, p, q) != 0real,
    ensures
        at(val, p.outer_spec(q).second_spec(s).norm_spec()) != 0real,
        p.outer_spec(q).second_spec(s).normalize_spec() == q,
{
    let dot = real_dot(val, p, q);
    let w = -(2real * dot);
    let f = p.outer_spec(q).second_spec(s);
    let g = f.normalize_spec();
    lemma_second_e1(val, p, q, s);
    lemma_second_e2(val, p, q, s);
    lemma_second_e3(val, p, q, s);
    lemma_second_ep(val, p, q, s);
    lemma_second_en(val, p, q, s);
    lemma_two_out(at(val, q.e1), dot);
    lemma_two_out(at(val, q.e2), dot);
    lemma_two_out(at(val, q.e3), dot);
    lemma_two_out(at(val, q.ep), dot);
    lemma_two_out(at(val, q.en), dot);
    lemma_sign_out(at(val, q.e1), 2real * dot);
    lemma_sign_out(at(val, q.e2), 2real * dot);
    lemma_sign_out(at(val, q.e3), 2real * dot);
    lemma_sign_out(at(val, q.ep), 2real * dot);
    lemma_sign_out(at(val, q.en), 2real * dot);
    lemma_normalize_multiple(val, f, q, w);
    lemma_same_value(val, g.e1, q.e1);
    lemma_same_value(val, g.e2, q.e2);
    lemma_same_value(val, g.e3, q.e3);
    lemma_same_value(val, g.ep, q.ep);
    lemma_same_value(val, g.en, q.en);
}

/// A pair of points comes apart into its points: for normalized points `p` and `q` that
/// differ in a coordinate, `p.outer(q).decompose()` is the two, in their order.
///
/// It is so wherever a field embedding `val` reads the scalars as real numbers, and the tests
/// for zero and for a root, and the roots, as the real numbers have them.
pub proof fn lemma_pair_comes_apart<T: Field>(val: spec_fn(T) -> real, p: Point<T>, q: Point<T>)
    requires
        embeds(val),
        rooted(val),
        normalized(val, p),
        normalized(val, q),
        at(val, p.e1) != at(val, q.e1) || at(val, p.e2) != at(val, q.e2) || at(val, p.e3) != at(
            val,
            q.e3,
        ),
    ensures
        p.outer_spec(q).decompose_spec() == Some((p, q)),
{
    let b = p.outer_spec(q);
    let s = b.radicand_spec().sqrt_spec();
    let car = b.carrier_spec();
    lemma_root_of_pair(val, p, q);
    lemma_carrier_values(val, p, q);
    lemma_shadow_coeff(val, car, 1);
    lemma_shadow_coeff(val, car, 2);
    lemma_shadow_coeff(val, car, 3);
    lemma_first_point(val, p, q, s);
    lemma_second_point(val, p, q, s);
    assert(!(car.e1.is_zero_spec() && car.e2.is_zero_spec() && car.e3.is_zero_spec())) by {
        reveal(rooted);
    }
    assert(!b.first_spec(s).norm_spec().is_zero_spec() && !b.second_spec(
        s,
    ).norm_spec().is_zero_spec()) by {
        reveal(rooted);
    }
}

/// A pair that holds the point at infinity has no direction to come apart along.
proof fn lemma_no_carrier<T: Field>(val: spec_fn(T) -> real, p: Point<T>, q: Point<T>)
    requires
        homomorphic(val),
        rooted(val),
        p == Point::<T, Euclidean>::ni_spec() || q == Point::<T, Euclidean>::ni_spec(),
    ensures
        p.outer_spec(q).decompose_spec().is_none(),
{
    let b = p.outer_spec(q);
    let car = b.carrier_spec();
    let n = Point::<T, Euclidean>::ni_spec();
    lemma_point_picks(infinity_spec::<T>(SpaceKind::Euclidean));
    assert(at(val, n.e1) == 0real && at(val, n.e2) == 0real && at(val, n.e3) == 0real && at(
        val,
        n.ep,
    ) == 1real && at(val, n.en) == 1real) by {
        reveal(homomorphic);
    }
    lemma_join_values(val, p, q);
    lemma_carrier_sums(val, b);
    lemma_shadow_coeff(val, car, 1);
    lemma_shadow_coeff(val, car, 2);
    lemma_shadow_coeff(val, car, 3);
    if q == n {
        lemma_one_times(at(val, q.ep), at(val, p.e1));
        lemma_one_times(at(val, q.ep), at(val, p.e2));
        lemma_one_times(at(val, q.ep), at(val, p.e3));
        lemma_one_times(at(val, q.en), at(val, p.e1));
        lemma_one_times(at(val, q.en), at(val, p.e2));
        lemma_one_times(at(val, q.en), at(val, p.e3));
        lemma_zero_times(at(val, q.e1), at(val, p.ep));
        lemma_zero_times(at(val, q.e2), at(val, p.ep));
        lemma_zero_times(at(val, q.e3), at(val, p.ep));
        lemma_zero_times(at(val, q.e1), at(val, p.en));
        lemma_zero_times(at(val, q.e2), at(val, p.en));
        lemma_zero_times(at(val, q.e3), at(val, p.en));
    } else {
        lemma_one_times(at(val, p.ep), at(val, q.e1));
        lemma_one_times(at(val, p.ep), at(val, q.e2));
        lemma_one_times(at(val, p.ep), at(val, q.e3));
        lemma_one_times(at(val, p.en), at(val, q.e1));
        lemma_one_times(at(val, p.en), at(val, q.e2));
        lemma_one_times(at(val, p.en), at(val, q.e3));
        lemma_zero_times(at(val, q.ep), at(val, p.e1));
        lemma_zero_times(at(val, q.ep), at(val, p.e2));
        lemma_zero_times(at(val, q.ep), at(val, p.e3));
        lemma_zero_times(at(val, q.en), at(val, p.e1));
        lemma_zero_times(at(val, q.en), at(val, p.e2));
        lemma_zero_times(at(val, q.en), at(val, p.e3));
    }
    assert(at(val, car.e1) == 0real);
    assert(at(val, car.e2) == 0real);
    assert(at(val, car.e3) == 0real);
    assert(car.e1.is_zero_spec() && car.e2.is_zero_spec() && car.e3.is_zero_spec()) by {
        reveal(rooted);
    }
}

/// A pair with the point at infinity does not come apart: for any point `p`, the join of `p`
/// with the point at infinity, in either order, is decomposed into nothing.
///
/// It is so wherever `val` reads the scalars as real numbers, sums as sums and products as
/// products, and the test for zero as the real numbers have it.
pub proof fn lemma_pair_with_infinity<T: Field>(val: spec_fn(T) -> real, p: Point<T>)
    requires
        homomorphic(val),
        rooted(val),
    ensures
        p.outer_spec(Point::<T, Euclidean>::ni_spec()).decompose_spec().is_none(),
        Point::<T, Euclidean>::ni_spec().outer_spec(p).decompose_spec().is_none(),
{
    lemma_no_carrier(val, p, Point::<T, Euclidean>::ni_spec());
    lemma_no_carrier(val, Point::<T, Euclidean>::ni_spec(), p);
}

} // verus!
