//! Roots and tests for zero, read as those of the real numbers.

use vstd::prelude::*;
use crate::field::Field;
use crate::r410::exact::at;

verus! {

/// Whether `r` is the root of `x`: not negative, and with the square `x`.
pub open spec fn is_root(r: real, x: real) -> bool {
    r >= 0real && r * r == x
}

/// `val` reads the tests for zero and for a root, and the roots, as the real numbers have
/// them: a scalar is zero where its real number is, it has a root where its real number has
/// one, and its root is then read as that root.
#[verifier::opaque]
pub open spec fn rooted<T: Field>(val: spec_fn(T) -> real) -> bool {
    &&& forall|a: T| #[trigger] a.is_zero_spec() <==> at(val, a) == 0real
    &&& forall|a: T, r: real| #[trigger]
        is_root(r, at(val, a)) ==> a.has_sqrt_spec() && at(val, a.sqrt_spec()) == r
}

} // verus!
