//! The three products of multivectors that are sums over pairs of blades: the geometric
//! product and its grade-raising and grade-lowering parts.
//!
//! The modules `geometric`, `outer` and `inner` write each of them out as 32 polynomials, one for
//! each coefficient of the result, and prove each polynomial to be the sum that the
//! multiplication table of the blades prescribes.

use vstd::prelude::*;
use crate::blades::blade_disjoint;
use crate::blades::blade_negative;
use crate::blades::blade_times;
use crate::blades::blade_within;
use crate::field::Field;
use crate::r410::R410;

verus! {

/// One of the products that sum over pairs of blades.
#[derive(Clone, Copy, Debug, PartialEq, Eq)]
pub enum Product {
    /// Every pair of a left and a right blade.
    Geometric,
    /// The pairs without a common generator: the grades add.
    Outer,
    /// The pairs in which one blade holds every generator of the other: the grades subtract.
    Inner,
}

/// Whether the product `kind` keeps the term of the left blade at `x` and the right blade at
/// `y`.
pub open spec fn keeps(kind: Product, x: int, y: int) -> bool {
    match kind {
        Product::Geometric => true,
        Product::Outer => blade_disjoint(x, y),
        Product::Inner => blade_within(x, y) || blade_within(y, x),
    }
}

/// The coefficient at blade `c` of the product `kind` of `a` and `b`, summed over the left
/// blades at places `0..=n`.
///
/// The left blade at `x` meets the one right blade that gives `c` with it, at place
/// `blade_times(x, c)`. The term is the right coefficient times the left one; it is added
/// where the product of the two blades is `+c` and subtracted where it is `-c`. The terms
/// are summed from the left, in the order of the left blades.
pub open spec fn partial_sum<T: Field>(kind: Product, a: R410<T>, b: R410<T>, c: int, n: int) -> T
    decreases n,
{
    if n <= 0 {
        b.coeff(c).mul_spec(a.coeff(0))
    } else {
        let sum = partial_sum(kind, a, b, c, n - 1);
        let y = blade_times(n, c);
        if !keeps(kind, n, y) {
            sum
        } else if blade_negative(n, y) {
            sum.sub_spec(b.coeff(y).mul_spec(a.coeff(n)))
        } else {
            sum.add_spec(b.coeff(y).mul_spec(a.coeff(n)))
        }
    }
}

impl<T: Field> R410<T> {
    /// The product `kind` of `self` and `b`.
    pub open spec fn product_spec(self, kind: Product, b: Self) -> Self {
        Self::build(|c: int| partial_sum(kind, self, b, c, 31))
    }

    /// The geometric product.
    pub open spec fn mul_spec(self, b: Self) -> Self {
        self.product_spec(Product::Geometric, b)
    }

    /// The outer product: the part of the geometric product in which the grades add.
    pub open spec fn outer_spec(self, b: Self) -> Self {
        self.product_spec(Product::Outer, b)
    }

    /// The inner product: the part of the geometric product in which the grades subtract.
    pub open spec fn inner_spec(self, b: Self) -> Self {
        self.product_spec(Product::Inner, b)
    }
}

} // verus!
