//! The numeric capability a scalar must offer to carry the algebra.

use vstd::prelude::*;

verus! {

/// A scalar the algebra can compute with: a plain float, a packed lane of floats, an exact
/// rational.
///
/// Every operation is a pure function of its arguments and is named by a specification function
/// of the same shape, so that a contract can say which operations produced a result and in which
/// order. Nothing further is claimed of them: a scalar may round, and no law of arithmetic is
/// assumed anywhere in this crate unless a lemma asks for it in so many words.
pub trait Field: Copy + Sized {
    spec fn zero_spec() -> Self;

    spec fn one_spec() -> Self;

    spec fn add_spec(self, rhs: Self) -> Self;

    spec fn sub_spec(self, rhs: Self) -> Self;

    spec fn mul_spec(self, rhs: Self) -> Self;

    spec fn neg_spec(self) -> Self;

    spec fn recip_spec(self) -> Self;

    spec fn abs_spec(self) -> Self;

    spec fn sqrt_spec(self) -> Self;

    /// Whether the scalar has a square root among the scalars (for a real: it is not negative).
    spec fn has_sqrt_spec(self) -> bool;

    spec fn sin_spec(self) -> Self;

    spec fn cos_spec(self) -> Self;

    spec fn is_zero_spec(self) -> bool;

    /// The additive identity.
    fn zero() -> (r: Self)
        ensures
            r == Self::zero_spec(),
    ;

    /// The multiplicative identity.
    fn one() -> (r: Self)
        ensures
            r == Self::one_spec(),
    ;

    fn add(self, rhs: Self) -> (r: Self)
        ensures
            r == self.add_spec(rhs),
    ;

    fn sub(self, rhs: Self) -> (r: Self)
        ensures
            r == self.sub_spec(rhs),
    ;

    fn mul(self, rhs: Self) -> (r: Self)
        ensures
            r == self.mul_spec(rhs),
    ;

    fn neg(self) -> (r: Self)
        ensures
            r == self.neg_spec(),
    ;

    /// The multiplicative inverse. Total: what it gives at zero is the scalar's own affair.
    fn recip(self) -> (r: Self)
        ensures
            r == self.recip_spec(),
    ;

    fn abs(self) -> (r: Self)
        ensures
            r == self.abs_spec(),
    ;

    /// The square root. Total: what it gives where there is none is the scalar's own affair.
    fn sqrt(self) -> (r: Self)
        ensures
            r == self.sqrt_spec(),
    ;

    /// The square root where the scalar has one, absence where it has none.
    fn try_sqrt(self) -> (r: Option<Self>)
        ensures
            r == if self.has_sqrt_spec() {
                Some(self.sqrt_spec())
            } else {
                None
            },
    ;

    /// Sine and cosine of an angle in radians, in that order.
    fn sin_cos(self) -> (r: (Self, Self))
        ensures
            r == (self.sin_spec(), self.cos_spec()),
    ;

    fn is_zero(self) -> (r: bool)
        ensures
            r == self.is_zero_spec(),
    ;
}

/// The scalar two, `1 + 1`.
pub open spec fn two_spec<T: Field>() -> T {
    T::one_spec().add_spec(T::one_spec())
}

/// The scalar one half, the inverse of two.
pub open spec fn half_spec<T: Field>() -> T {
    two_spec::<T>().recip_spec()
}

/// The scalar two, `1 + 1`.
pub fn two<T: Field>() -> (r: T)
    ensures
        r == two_spec::<T>(),
{
    T::one().add(T::one())
}

/// The scalar one half, the inverse of two.
pub fn half<T: Field>() -> (r: T)
    ensures
        r == half_spec::<T>(),
{
    two::<T>().recip()
}

} // verus!
