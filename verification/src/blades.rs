//! Basis blades: which generators each one holds, and how two of them multiply.
//!
//! A blade is a set of generators, written as a bit mask. A generator squares to `+1`, to `-1`
//! or to `0`; a blade is therefore given by three masks, one for each kind, and in canonical
//! order its positive generators come first, then the negative ones, then the null ones, each
//! group by rising bit.
//!
//! The algebra of this crate has the five generators `e1 e2 e3 ep en`. The first four are
//! positive and `en` is negative. Its 32 blades are enumerated by grade, and within a grade in
//! the order of their names: `1, e1, e2, e3, ep, en, e12, e13, ... , e123pn`.

use vstd::prelude::*;
use vstd::arithmetic::power2::pow2;
use vstd::arithmetic::power2::lemma_pow2_unfold;
use vstd::arithmetic::power2::lemma2_to64;
use crate::field::Field;

verus! {

/// The number of basis blades of the five generators.
pub const BLADES: usize = 32;

/// How many generators the mask `x` holds.
pub open spec fn count_spec(x: int) -> int
    decreases x,
{
    if x <= 0 {
        0
    } else {
        x % 2 + count_spec(x / 2)
    }
}

/// How many pairs of a generator of `a` and a lower generator of `b` there are: the number of
/// neighbours to swap to bring `b`'s generators, written behind `a`'s, into their places.
pub open spec fn inversions(a: int, b: int) -> int
    decreases b,
{
    if a <= 0 || b <= 0 {
        0
    } else {
        (if b % 2 == 1 {
            count_spec(a / 2)
        } else {
            0
        }) + inversions(a / 2, b / 2)
    }
}

/// How many generators `a` and `b` have in common.
pub open spec fn shared(a: int, b: int) -> int
    decreases a,
{
    if a <= 0 || b <= 0 {
        0
    } else {
        (if a % 2 == 1 && b % 2 == 1 {
            1int
        } else {
            0int
        }) + shared(a / 2, b / 2)
    }
}

/// The generators that are in exactly one of `a` and `b`.
pub open spec fn symmetric_difference(a: int, b: int) -> int
    decreases a + b,
{
    if a <= 0 && b <= 0 {
        0
    } else if a < 0 || b < 0 {
        0
    } else {
        (a % 2 + b % 2) % 2 + 2 * symmetric_difference(a / 2, b / 2)
    }
}

/// How many pairs of a generator of `a` and a generator of `b` there are: the number of
/// neighbours to swap to bring the whole of `a` past the whole of `b`.
pub open spec fn crossings(a: int, b: int) -> int
    decreases a,
{
    if a <= 0 {
        0
    } else {
        (if a % 2 == 1 {
            count_spec(b)
        } else {
            0
        }) + crossings(a / 2, b)
    }
}

/// The sign changes in the product of two blades, the left one given by the masks `p1 n1 z1`
/// of its positive, negative and null generators and the right one by `p2 n2 z2`: one for each
/// swap of neighbours that brings the generators of the right blade to their places among
/// those of the left one, and one more for each negative generator that both hold.
///
/// The positive generators of the right blade pass all negative and null ones of the left
/// blade, and those positive ones that stand above them; likewise the negative and the null
/// ones.
pub open spec fn flips_spec(p1: int, n1: int, z1: int, p2: int, n2: int, z2: int) -> int {
    crossings(p2, z1) + crossings(p2, n1) + inversions(p1, p2) + crossings(n2, z1) + inversions(
        n1,
        n2,
    ) + inversions(z1, z2) + shared(n1, n2)
}

/// All of `a` passes all of `b` in as many swaps as the product of their sizes.
pub proof fn lemma_crossings_is_product(a: int, b: int)
    ensures
        crossings(a, b) == count_spec(a) * count_spec(b),
    decreases a,
{
    if a <= 0 {
        assert(0 * count_spec(b) == 0) by (nonlinear_arith);
    } else {
        lemma_crossings_is_product(a / 2, b);
        let h = count_spec(a / 2);
        let c = count_spec(b);
        assert((a % 2 + h) * c == (a % 2) * c + h * c) by (nonlinear_arith);
        if a % 2 == 1 {
            assert((a % 2) * c == c) by (nonlinear_arith)
                requires
                    a % 2 == 1,
            ;
        } else {
            assert((a % 2) * c == 0) by (nonlinear_arith)
                requires
                    a % 2 == 0,
            ;
        }
    }
}

/// A mask below `2^k` holds at most `k` generators.
pub proof fn lemma_count_bounded(x: int, k: nat)
    requires
        0 <= x < pow2(k),
    ensures
        0 <= count_spec(x) <= k,
    decreases k,
{
    if k == 0 {
        lemma2_to64();
    } else if x > 0 {
        lemma_pow2_unfold(k);
        lemma_count_bounded(x / 2, (k - 1) as nat);
    }
}

/// Two masks below `2^k` have at most `k * k` inversions between them.
pub proof fn lemma_inversions_bounded(a: int, b: int, k: nat)
    requires
        0 <= a < pow2(k),
        0 <= b < pow2(k),
    ensures
        0 <= inversions(a, b) <= k * k,
    decreases k,
{
    if k == 0 {
        lemma2_to64();
    } else if a > 0 && b > 0 {
        lemma_pow2_unfold(k);
        lemma_count_bounded(a / 2, (k - 1) as nat);
        lemma_inversions_bounded(a / 2, b / 2, (k - 1) as nat);
        assert((k - 1) + (k - 1) * (k - 1) <= k * k) by (nonlinear_arith)
            requires
                k >= 1,
        ;
    } else {
        assert(0 <= k * k) by (nonlinear_arith);
    }
}

/// Two masks below `2^k` share at most `k` generators.
pub proof fn lemma_shared_bounded(a: int, b: int, k: nat)
    requires
        0 <= a < pow2(k),
        0 <= b,
    ensures
        0 <= shared(a, b) <= k,
    decreases k,
{
    if k == 0 {
        lemma2_to64();
    } else if a > 0 && b > 0 {
        lemma_pow2_unfold(k);
        lemma_shared_bounded(a / 2, b / 2, (k - 1) as nat);
    }
}

/// How many generators the mask `x` holds.
pub fn count(x: u32) -> (r: u32)
    ensures
        r == count_spec(x as int),
        r <= 32,
{
    let mut rest: u32 = x;
    let mut r: u32 = 0;
    proof {
        lemma2_to64();
        lemma_count_bounded(x as int, 32);
    }
    while rest != 0
        invariant
            r + count_spec(rest as int) == count_spec(x as int),
            0 <= count_spec(rest as int),
            count_spec(x as int) <= 32,
        decreases rest,
    {
        proof {
            lemma2_to64();
            lemma_count_bounded((rest / 2) as int, 32);
        }
        if rest % 2 == 1 {
            r = r + 1;
        }
        rest = rest / 2;
    }
    r
}

/// How many generators the masks `a` and `b` have in common.
pub fn count_shared(a: u32, b: u32) -> (r: u32)
    ensures
        r == shared(a as int, b as int),
        r <= 32,
{
    let mut x: u32 = a;
    let mut y: u32 = b;
    let mut r: u32 = 0;
    proof {
        lemma2_to64();
        lemma_shared_bounded(a as int, b as int, 32);
    }
    while x != 0 && y != 0
        invariant
            r + shared(x as int, y as int) == shared(a as int, b as int),
            0 <= shared(x as int, y as int),
            shared(a as int, b as int) <= 32,
        decreases x,
    {
        proof {
            lemma2_to64();
            lemma_shared_bounded((x / 2) as int, (y / 2) as int, 32);
        }
        if x % 2 == 1 && y % 2 == 1 {
            r = r + 1;
        }
        x = x / 2;
        y = y / 2;
    }
    r
}

/// The swaps between two groups of generators of one kind: for each generator of `x2`, the
/// generators of `x1` above it.
fn two_flips(x1: u32, x2: u32) -> (r: u32)
    ensures
        r == inversions(x1 as int, x2 as int),
        r <= 1024,
{
    let mut above: u32 = x1;
    let mut rest: u32 = x2;
    let mut r: u32 = 0;
    proof {
        lemma2_to64();
        lemma_inversions_bounded(x1 as int, x2 as int, 32);
    }
    while above != 0 && rest != 0
        invariant
            r + inversions(above as int, rest as int) == inversions(x1 as int, x2 as int),
            0 <= inversions(above as int, rest as int),
            inversions(x1 as int, x2 as int) <= 1024,
        decreases rest,
    {
        proof {
            lemma2_to64();
            lemma_inversions_bounded((above / 2) as int, (rest / 2) as int, 32);
            lemma_count_bounded((above / 2) as int, 32);
        }
        above = above / 2;
        if rest % 2 == 1 {
            r = r + count(above);
        }
        rest = rest / 2;
    }
    r
}

/// The sign changes in the product of the blade `p1 n1 z1` with the blade `p2 n2 z2`; the
/// product is negative where the count is odd.
pub fn flips(p1: u32, n1: u32, z1: u32, p2: u32, n2: u32, z2: u32) -> (r: u32)
    ensures
        r == flips_spec(p1 as int, n1 as int, z1 as int, p2 as int, n2 as int, z2 as int),
{
    let cp2 = count(p2);
    let cn1 = count(n1);
    let cn2 = count(n2);
    let cz1 = count(z1);
    assert(cp2 * cz1 <= 1024 && cp2 * cn1 <= 1024 && cn2 * cz1 <= 1024) by (nonlinear_arith)
        requires
            cp2 <= 32,
            cn1 <= 32,
            cn2 <= 32,
            cz1 <= 32,
    ;
    proof {
        lemma_crossings_is_product(p2 as int, z1 as int);
        lemma_crossings_is_product(p2 as int, n1 as int);
        lemma_crossings_is_product(n2 as int, z1 as int);
    }
    let mut flips: u32 = 0;
    // p1 n1 z1 p2 n2 z2
    flips = flips + cp2 * cz1;
    // p1 n1 p2 z1 n2 z2
    flips = flips + cp2 * cn1;
    // p1 p2 n1 z1 n2 z2
    flips = flips + two_flips(p1, p2);
    // p n1 z1 n2 z2
    flips = flips + cn2 * cz1;
    // p n1 n2 z1 z2
    flips = flips + two_flips(n1, n2);
    // p n z1 z2
    flips = flips + two_flips(z1, z2);
    // a negative generator met twice leaves its square, -1
    flips = flips + count_shared(n1, n2);
    flips
}

/// A multiple of a blade, for an algebra with any choice of up to 32 positive, negative and
/// null generators: the blade by its three masks, and the coefficient.
#[derive(Clone, Copy, Debug, PartialEq)]
pub struct KBlade<T> {
    /// The generators that square to `+1`.
    pub positive: u32,
    /// The generators that square to `-1`.
    pub negative: u32,
    /// The generators that square to `0`.
    pub null: u32,
    pub value: T,
}

impl<T: Field> KBlade<T> {
    /// Whether `self` and `rhs` are multiples of one blade.
    pub open spec fn same_blade(self, rhs: Self) -> bool {
        self.positive == rhs.positive && self.negative == rhs.negative && self.null == rhs.null
    }

    /// The product: a multiple of the blade of the generators that exactly one factor holds.
    /// It is zero where the factors share a null generator; else the product of the
    /// coefficients, the left one negated where the sign changes are odd in number.
    pub open spec fn mul_spec(self, rhs: Self) -> Self {
        KBlade {
            positive: self.positive ^ rhs.positive,
            negative: self.negative ^ rhs.negative,
            null: self.null ^ rhs.null,
            value: if shared(self.null as int, rhs.null as int) != 0 {
                T::zero_spec()
            } else if flips_spec(
                self.positive as int,
                self.negative as int,
                self.null as int,
                rhs.positive as int,
                rhs.negative as int,
                rhs.null as int,
            ) % 2 != 0 {
                self.value.neg_spec().mul_spec(rhs.value)
            } else {
                self.value.mul_spec(rhs.value)
            },
        }
    }

    /// The sum of two multiples of one blade; absent where the blades differ.
    pub open spec fn add_spec(self, rhs: Self) -> Option<Self> {
        if self.same_blade(rhs) {
            Some(
                KBlade {
                    positive: self.positive,
                    negative: self.negative,
                    null: self.null,
                    value: self.value.add_spec(rhs.value),
                },
            )
        } else {
            None
        }
    }

    /// The product of two multiples of blades.
    pub fn mul(self, rhs: Self) -> (r: Self)
        ensures
            r == self.mul_spec(rhs),
    {
        let value = if count_shared(self.null, rhs.null) != 0 {
            T::zero()
        } else if flips(self.positive, self.negative, self.null, rhs.positive, rhs.negative, rhs.null)
            % 2 != 0 {
            self.value.neg().mul(rhs.value)
        } else {
            self.value.mul(rhs.value)
        };
        KBlade {
            positive: self.positive ^ rhs.positive,
            negative: self.negative ^ rhs.negative,
            null: self.null ^ rhs.null,
            value,
        }
    }

    /// The sum of two multiples of one blade; absent where the blades differ.
    pub fn add(self, rhs: Self) -> (r: Option<Self>)
        ensures
            r == self.add_spec(rhs),
    {
        if self.positive == rhs.positive && self.negative == rhs.negative && self.null
            == rhs.null {
            Some(
                KBlade {
                    positive: self.positive,
                    negative: self.negative,
                    null: self.null,
                    value: self.value.add(rhs.value),
                },
            )
        } else {
            None
        }
    }
}

/// A vector of three positive generators, each coordinate a multiple of its blade.
#[derive(Clone, Copy, Debug, PartialEq)]
pub struct Vector3<T> {
    pub x: KBlade<T>,
    pub y: KBlade<T>,
    pub z: KBlade<T>,
}

/// The product of two such vectors: a scalar and a multiple of each of the three bivectors.
#[derive(Clone, Copy, Debug, PartialEq)]
pub struct Rotor3<T> {
    pub s: KBlade<T>,
    pub xy: KBlade<T>,
    pub xz: KBlade<T>,
    pub yz: KBlade<T>,
}

/// The multiple `value` of the blade of the positive generators `positive`.
pub open spec fn positive_blade<T>(positive: u32, value: T) -> KBlade<T> {
    KBlade { positive, negative: 0, null: 0, value }
}

impl<T: Field> Vector3<T> {
    /// Whether the coordinates stand on the blades `e1`, `e2` and `e3`.
    pub open spec fn well_formed(self) -> bool {
        &&& self.x == positive_blade(1, self.x.value)
        &&& self.y == positive_blade(2, self.y.value)
        &&& self.z == positive_blade(4, self.z.value)
    }

    /// The geometric product of two vectors: the scalar product on the scalar blade, and on
    /// each bivector the difference of the two products of coordinates that give it.
    pub open spec fn mul_spec(self, rhs: Self) -> Rotor3<T> {
        let (a, b, c) = (self.x.value, self.y.value, self.z.value);
        let (d, e, f) = (rhs.x.value, rhs.y.value, rhs.z.value);
        Rotor3 {
            s: positive_blade(0, a.mul_spec(d).add_spec(b.mul_spec(e)).add_spec(c.mul_spec(f))),
            xy: positive_blade(3, a.mul_spec(e).add_spec(b.neg_spec().mul_spec(d))),
            xz: positive_blade(5, a.mul_spec(f).add_spec(c.neg_spec().mul_spec(d))),
            yz: positive_blade(6, b.mul_spec(f).add_spec(c.neg_spec().mul_spec(e))),
        }
    }

    /// The vector with the coordinates `x`, `y`, `z`.
    pub fn new(x: T, y: T, z: T) -> (r: Self)
        ensures
            r.well_formed(),
            r.x.value == x,
            r.y.value == y,
            r.z.value == z,
    {
        Vector3 {
            x: KBlade { positive: 1, negative: 0, null: 0, value: x },
            y: KBlade { positive: 2, negative: 0, null: 0, value: y },
            z: KBlade { positive: 4, negative: 0, null: 0, value: z },
        }
    }

    /// The geometric product of two vectors, blade by blade.
    pub fn mul(self, rhs: Self) -> (r: Rotor3<T>)
        requires
            self.well_formed(),
            rhs.well_formed(),
        ensures
            r == self.mul_spec(rhs),
    {
        proof {
            lemma_three_generators();
        }
        let xx = self.x.mul(rhs.x);
        let yy = self.y.mul(rhs.y);
        let zz = self.z.mul(rhs.z);
        let xy = self.x.mul(rhs.y);
        let yx = self.y.mul(rhs.x);
        let xz = self.x.mul(rhs.z);
        let zx = self.z.mul(rhs.x);
        let yz = self.y.mul(rhs.z);
        let zy = self.z.mul(rhs.y);
        Rotor3 {
            s: xx.add(yy).unwrap().add(zz).unwrap(),
            xy: xy.add(yx).unwrap(),
            xz: xz.add(zx).unwrap(),
            yz: yz.add(zy).unwrap(),
        }
    }
}

/// The blades and signs of the products of `e1`, `e2` and `e3`.
proof fn lemma_three_generators()
    ensures
        1u32 ^ 1u32 == 0u32,
        2u32 ^ 2u32 == 0u32,
        4u32 ^ 4u32 == 0u32,
        0u32 ^ 0u32 == 0u32,
        1u32 ^ 2u32 == 3u32,
        2u32 ^ 1u32 == 3u32,
        1u32 ^ 4u32 == 5u32,
        4u32 ^ 1u32 == 5u32,
        2u32 ^ 4u32 == 6u32,
        4u32 ^ 2u32 == 6u32,
        shared(0, 0) == 0,
        flips_spec(1, 0, 0, 1, 0, 0) % 2 == 0,
        flips_spec(2, 0, 0, 2, 0, 0) % 2 == 0,
        flips_spec(4, 0, 0, 4, 0, 0) % 2 == 0,
        flips_spec(1, 0, 0, 2, 0, 0) % 2 == 0,
        flips_spec(2, 0, 0, 1, 0, 0) % 2 == 1,
        flips_spec(1, 0, 0, 4, 0, 0) % 2 == 0,
        flips_spec(4, 0, 0, 1, 0, 0) % 2 == 1,
        flips_spec(2, 0, 0, 4, 0, 0) % 2 == 0,
        flips_spec(4, 0, 0, 2, 0, 0) % 2 == 1,
{
    assert(1u32 ^ 1u32 == 0u32 && 2u32 ^ 2u32 == 0u32 && 4u32 ^ 4u32 == 0u32 && 0u32 ^ 0u32 == 0u32
        && 1u32 ^ 2u32 == 3u32 && 2u32 ^ 1u32 == 3u32 && 1u32 ^ 4u32 == 5u32 && 4u32 ^ 1u32 == 5u32
        && 2u32 ^ 4u32 == 6u32 && 4u32 ^ 2u32 == 6u32) by (bit_vector);
    reveal_with_fuel(count_spec, 4);
    reveal_with_fuel(crossings, 4);
    reveal_with_fuel(inversions, 4);
    reveal_with_fuel(shared, 2);
}

/// The generators of the blade at place `blade` of the enumeration: bit 0 for `e1`, 1 for
/// `e2`, 2 for `e3`, 3 for `ep`, 4 for `en`.
pub open spec fn blade_generators(blade: int) -> int {
    if blade == 0 {
        0
    } else if blade == 1 {
        1
    } else if blade == 2 {
        2
    } else if blade == 3 {
        4
    } else if blade == 4 {
        8
    } else if blade == 5 {
        16
    } else if blade == 6 {
        3
    } else if blade == 7 {
        5
    } else if blade == 8 {
        9
    } else if blade == 9 {
        17
    } else if blade == 10 {
        6
    } else if blade == 11 {
        10
    } else if blade == 12 {
        18
    } else if blade == 13 {
        12
    } else if blade == 14 {
        20
    } else if blade == 15 {
        24
    } else if blade == 16 {
        7
    } else if blade == 17 {
        11
    } else if blade == 18 {
        19
    } else if blade == 19 {
        13
    } else if blade == 20 {
        21
    } else if blade == 21 {
        25
    } else if blade == 22 {
        14
    } else if blade == 23 {
        22
    } else if blade == 24 {
        26
    } else if blade == 25 {
        28
    } else if blade == 26 {
        15
    } else if blade == 27 {
        23
    } else if blade == 28 {
        27
    } else if blade == 29 {
        29
    } else if blade == 30 {
        30
    } else {
        31
    }
}

/// The place in the enumeration of the blade that holds the generators `generators`.
pub open spec fn blade_index(generators: int) -> int {
    if generators == 0 {
        0
    } else if generators == 1 {
        1
    } else if generators == 2 {
        2
    } else if generators == 3 {
        6
    } else if generators == 4 {
        3
    } else if generators == 5 {
        7
    } else if generators == 6 {
        10
    } else if generators == 7 {
        16
    } else if generators == 8 {
        4
    } else if generators == 9 {
        8
    } else if generators == 10 {
        11
    } else if generators == 11 {
        17
    } else if generators == 12 {
        13
    } else if generators == 13 {
        19
    } else if generators == 14 {
        22
    } else if generators == 15 {
        26
    } else if generators == 16 {
        5
    } else if generators == 17 {
        9
    } else if generators == 18 {
        12
    } else if generators == 19 {
        18
    } else if generators == 20 {
        14
    } else if generators == 21 {
        20
    } else if generators == 22 {
        23
    } else if generators == 23 {
        27
    } else if generators == 24 {
        15
    } else if generators == 25 {
        21
    } else if generators == 26 {
        24
    } else if generators == 27 {
        28
    } else if generators == 28 {
        25
    } else if generators == 29 {
        29
    } else if generators == 30 {
        30
    } else {
        31
    }
}

/// The grade of the blade at place `blade`: how many generators it holds.
pub open spec fn blade_grade(blade: int) -> int {
    count_spec(blade_generators(blade))
}

/// How many of the five generators the mask `g` holds.
pub open spec fn count5(g: int) -> int {
    g % 2 + g / 2 % 2 + g / 4 % 2 + g / 8 % 2 + g / 16 % 2
}

/// The generators that exactly one of the masks `a` and `b` of five generators holds.
pub open spec fn difference5(a: int, b: int) -> int {
    (a % 2 + b % 2) % 2 + 2 * ((a / 2 % 2 + b / 2 % 2) % 2) + 4 * ((a / 4 % 2 + b / 4 % 2) % 2)
        + 8 * ((a / 8 % 2 + b / 8 % 2) % 2) + 16 * ((a / 16 % 2 + b / 16 % 2) % 2)
}

/// How many generators the masks `a` and `b` of five generators share.
pub open spec fn shared5(a: int, b: int) -> int {
    (if a % 2 == 1 && b % 2 == 1 {
        1int
    } else {
        0int
    }) + (if a / 2 % 2 == 1 && b / 2 % 2 == 1 {
        1int
    } else {
        0int
    }) + (if a / 4 % 2 == 1 && b / 4 % 2 == 1 {
        1int
    } else {
        0int
    }) + (if a / 8 % 2 == 1 && b / 8 % 2 == 1 {
        1int
    } else {
        0int
    }) + (if a / 16 % 2 == 1 && b / 16 % 2 == 1 {
        1int
    } else {
        0int
    })
}

/// The sign changes in the product of the blade with generators `a` and the blade with
/// generators `b`, in this order.
///
/// The five generators stand in the order of their bits, the negative `en` last. Each
/// generator of `b` passes the generators of `a` above it, and `en` met twice leaves `-1`.
pub open spec fn flips5(a: int, b: int) -> int {
    (if b % 2 == 1 {
        a / 2 % 2 + a / 4 % 2 + a / 8 % 2 + a / 16 % 2
    } else {
        0
    }) + (if b / 2 % 2 == 1 {
        a / 4 % 2 + a / 8 % 2 + a / 16 % 2
    } else {
        0
    }) + (if b / 4 % 2 == 1 {
        a / 8 % 2 + a / 16 % 2
    } else {
        0
    }) + (if b / 8 % 2 == 1 {
        a / 16 % 2
    } else {
        0
    }) + (if a / 16 % 2 == 1 && b / 16 % 2 == 1 {
        1int
    } else {
        0int
    })
}

/// The place of the blade that the product of the blades at `x` and `y` is a multiple of: the
/// generators that one of them holds and the other does not.
pub open spec fn blade_times(x: int, y: int) -> int {
    blade_index(difference5(blade_generators(x), blade_generators(y)))
}

/// The sign changes in the product of the blade at `x` with the blade at `y`, in this order.
pub open spec fn blade_flips(x: int, y: int) -> int {
    flips5(blade_generators(x), blade_generators(y))
}

/// Whether the product of the blade at `x` with the blade at `y` is the negative of a blade.
pub open spec fn blade_negative(x: int, y: int) -> bool {
    blade_flips(x, y) % 2 == 1
}

/// Whether the blades at `x` and `y` have no generator in common.
pub open spec fn blade_disjoint(x: int, y: int) -> bool {
    shared5(blade_generators(x), blade_generators(y)) == 0
}

/// Whether every generator of the blade at `x` is one of the blade at `y`.
pub open spec fn blade_within(x: int, y: int) -> bool {
    shared5(blade_generators(x), blade_generators(y)) == count5(blade_generators(x))
}

/// Halving a mask of five generators again and again.
proof fn lemma_halves5(x: u32)
    by (bit_vector)
    requires
        x < 32,
    ensures
        x / 2 / 2 == x / 4,
        x / 4 / 2 == x / 8,
        x / 8 / 2 == x / 16,
        x / 16 / 2 == 0,
        x / 16 % 2 == x / 16,
{
}

/// On a mask of five generators the closed form of the count agrees with the general one.
pub proof fn lemma_count5(a: int)
    requires
        0 <= a < 32,
    ensures
        count5(a) == count_spec(a),
{
    lemma_halves5(a as u32);
    assert(count_spec(0) == 0);
    assert(count_spec(a / 16) == a / 16 % 2 + count_spec(a / 16 / 2));
    assert(count_spec(a / 8) == a / 8 % 2 + count_spec(a / 8 / 2));
    assert(count_spec(a / 4) == a / 4 % 2 + count_spec(a / 4 / 2));
    assert(count_spec(a / 2) == a / 2 % 2 + count_spec(a / 2 / 2));
    assert(count_spec(a) == a % 2 + count_spec(a / 2));
}

/// On masks of five generators the closed form of the shared generators agrees with the
/// general one.
pub proof fn lemma_shared5(a: int, b: int)
    requires
        0 <= a < 32,
        0 <= b < 32,
    ensures
        shared5(a, b) == shared(a, b),
{
    lemma_halves5(a as u32);
    lemma_halves5(b as u32);
    assert(shared(0, b / 16 / 2) == 0);
    assert(shared(a / 16, b / 16) == (if a / 16 % 2 == 1 && b / 16 % 2 == 1 {
        1int
    } else {
        0int
    }) + shared(a / 16 / 2, b / 16 / 2));
    assert(shared(a / 8, b / 8) == (if a / 8 % 2 == 1 && b / 8 % 2 == 1 {
        1int
    } else {
        0int
    }) + shared(a / 8 / 2, b / 8 / 2));
    assert(shared(a / 4, b / 4) == (if a / 4 % 2 == 1 && b / 4 % 2 == 1 {
        1int
    } else {
        0int
    }) + shared(a / 4 / 2, b / 4 / 2));
    assert(shared(a / 2, b / 2) == (if a / 2 % 2 == 1 && b / 2 % 2 == 1 {
        1int
    } else {
        0int
    }) + shared(a / 2 / 2, b / 2 / 2));
    assert(shared(a, b) == (if a % 2 == 1 && b % 2 == 1 {
        1int
    } else {
        0int
    }) + shared(a / 2, b / 2));
}

/// On masks of five generators the closed form of the symmetric difference agrees with the
/// general one, and is again a mask of five generators.
pub proof fn lemma_difference5(a: int, b: int)
    requires
        0 <= a < 32,
        0 <= b < 32,
    ensures
        difference5(a, b) == symmetric_difference(a, b),
        0 <= difference5(a, b) < 32,
{
    lemma_halves5(a as u32);
    lemma_halves5(b as u32);
    assert(symmetric_difference(0, 0) == 0);
    assert(symmetric_difference(a / 16, b / 16) == (a / 16 % 2 + b / 16 % 2) % 2 + 2
        * symmetric_difference(a / 16 / 2, b / 16 / 2));
    assert(symmetric_difference(a / 8, b / 8) == (a / 8 % 2 + b / 8 % 2) % 2 + 2
        * symmetric_difference(a / 8 / 2, b / 8 / 2));
    assert(symmetric_difference(a / 4, b / 4) == (a / 4 % 2 + b / 4 % 2) % 2 + 2
        * symmetric_difference(a / 4 / 2, b / 4 / 2));
    assert(symmetric_difference(a / 2, b / 2) == (a / 2 % 2 + b / 2 % 2) % 2 + 2
        * symmetric_difference(a / 2 / 2, b / 2 / 2));
    assert(symmetric_difference(a, b) == (a % 2 + b % 2) % 2 + 2 * symmetric_difference(
        a / 2,
        b / 2,
    ));
}

/// Nothing is crossed in passing the empty blade.
proof fn lemma_crossings_none(a: int)
    ensures
        crossings(a, 0) == 0,
    decreases a,
{
    if a > 0 {
        lemma_crossings_none(a / 2);
    }
}

/// Each generator of `a` makes one swap in passing a single generator.
proof fn lemma_crossings_one(a: int)
    ensures
        crossings(a, 1) == count_spec(a),
    decreases a,
{
    reveal_with_fuel(count_spec, 2);
    if a > 0 {
        lemma_crossings_one(a / 2);
    }
}

/// The inversions between two masks of four generators, written out.
proof fn lemma_inversions4(p1: int, p2: int)
    requires
        0 <= p1 < 16,
        0 <= p2 < 16,
    ensures
        inversions(p1, p2) == (if p2 % 2 == 1 {
            p1 / 2 % 2 + p1 / 4 % 2 + p1 / 8 % 2
        } else {
            0
        }) + (if p2 / 2 % 2 == 1 {
            p1 / 4 % 2 + p1 / 8 % 2
        } else {
            0
        }) + (if p2 / 4 % 2 == 1 {
            p1 / 8 % 2
        } else {
            0
        }),
{
    reveal_with_fuel(count_spec, 5);
    reveal_with_fuel(inversions, 5);
}

/// How the bits of a mask of five generators show in its lower four and in its fifth.
proof fn lemma_split5(x: u32)
    by (bit_vector)
    requires
        x < 32,
    ensures
        (x % 16) % 2 == x % 2,
        (x % 16) / 2 % 2 == x / 2 % 2,
        (x % 16) / 4 % 2 == x / 4 % 2,
        (x % 16) / 8 % 2 == x / 8 % 2,
        (x % 16) / 16 % 2 == 0,
        x / 16 % 2 == x / 16,
        x / 16 <= 1,
        x % 16 < 16,
{
}

/// The sign changes of the five generators are those of the general rule, with the first
/// four generators positive, `en` negative and none null.
pub proof fn lemma_flips5(a: int, b: int)
    requires
        0 <= a < 32,
        0 <= b < 32,
    ensures
        flips5(a, b) == flips_spec(a % 16, a / 16, 0, b % 16, b / 16, 0),
{
    let p1 = a % 16;
    let n1 = a / 16;
    let p2 = b % 16;
    let n2 = b / 16;
    lemma_split5(a as u32);
    lemma_split5(b as u32);
    lemma_crossings_none(p2);
    lemma_crossings_none(n2);
    lemma_crossings_one(p2);
    lemma_inversions4(p1, p2);
    lemma_count5(p2);
    assert(inversions(n1, n2) == 0) by {
        reveal_with_fuel(count_spec, 2);
        reveal_with_fuel(inversions, 2);
    }
    assert(inversions(0, 0) == 0);
    assert(shared(n1, n2) == (if n1 == 1 && n2 == 1 {
        1int
    } else {
        0int
    })) by {
        reveal_with_fuel(shared, 2);
    }
    assert(crossings(p2, n1) == (if n1 == 1 {
        count5(p2)
    } else {
        0
    }));
}

/// The generators of the blade at place `blade`.
pub fn generators(blade: usize) -> (r: u32)
    requires
        blade < BLADES,
    ensures
        r == blade_generators(blade as int),
        r < 32,
{
    match blade {
        0 => 0,
        1 => 1,
        2 => 2,
        3 => 4,
        4 => 8,
        5 => 16,
        6 => 3,
        7 => 5,
        8 => 9,
        9 => 17,
        10 => 6,
        11 => 10,
        12 => 18,
        13 => 12,
        14 => 20,
        15 => 24,
        16 => 7,
        17 => 11,
        18 => 19,
        19 => 13,
        20 => 21,
        21 => 25,
        22 => 14,
        23 => 22,
        24 => 26,
        25 => 28,
        26 => 15,
        27 => 23,
        28 => 27,
        29 => 29,
        30 => 30,
        _ => 31,
    }
}

/// The place of the blade with the generators `generators`.
pub fn index_of(generators: u32) -> (r: usize)
    requires
        generators < 32,
    ensures
        r == blade_index(generators as int),
        r < BLADES,
        blade_generators(r as int) == generators,
{
    match generators {
        0 => 0,
        1 => 1,
        2 => 2,
        3 => 6,
        4 => 3,
        5 => 7,
        6 => 10,
        7 => 16,
        8 => 4,
        9 => 8,
        10 => 11,
        11 => 17,
        12 => 13,
        13 => 19,
        14 => 22,
        15 => 26,
        16 => 5,
        17 => 9,
        18 => 12,
        19 => 18,
        20 => 14,
        21 => 20,
        22 => 23,
        23 => 27,
        24 => 15,
        25 => 21,
        26 => 24,
        27 => 28,
        28 => 25,
        29 => 29,
        30 => 30,
        _ => 31,
    }
}

/// The grade of the blade at place `blade`.
pub fn grade(blade: usize) -> (r: u32)
    requires
        blade < BLADES,
    ensures
        r == blade_grade(blade as int),
        r <= 5,
{
    let g = generators(blade);
    proof {
        lemma_count5(g as int);
    }
    count(g)
}

/// `^` on masks gives the symmetric difference of the sets.
pub proof fn lemma_xor_is_symmetric_difference(a: u32, b: u32)
    ensures
        (a ^ b) == symmetric_difference(a as int, b as int),
    decreases a + b,
{
    if a == 0 && b == 0 {
        assert(0u32 ^ 0u32 == 0u32) by (bit_vector);
    } else {
        assert((a ^ b) % 2 == (a % 2 + b % 2) % 2 && (a ^ b) / 2 == (a / 2) ^ (b / 2))
            by (bit_vector);
        lemma_xor_is_symmetric_difference(a / 2, b / 2);
    }
}

/// One entry of the multiplication table of the blades: the place of the blade that the product
/// of the blades at `x` and `y` is a multiple of, and whether that multiple is `-1` rather
/// than `+1`.
pub fn blade_product(x: usize, y: usize) -> (r: (usize, bool))
    requires
        x < BLADES,
        y < BLADES,
    ensures
        r.0 == blade_times(x as int, y as int),
        r.0 < BLADES,
        r.1 == blade_negative(x as int, y as int),
{
    let gx = generators(x);
    let gy = generators(y);
    proof {
        lemma_xor_is_symmetric_difference(gx, gy);
        lemma_difference5(gx as int, gy as int);
    }
    let place = index_of(gx ^ gy);
    let changes = flips(gx % 16, gx / 16, 0, gy % 16, gy / 16, 0);
    proof {
        lemma_flips5(gx as int, gy as int);
    }
    (place, changes % 2 == 1)
}

} // verus!
