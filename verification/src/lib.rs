//! Conformal geometric algebra over five generators: three Euclidean directions and the
//! null pair `ep`, `en`, with the compact geometric objects built on top of it.
//!
//! The general multivector [`R410`] carries all 32 coefficients; the types under [`d3`] keep
//! only those that an object of their kind can have, and compute through the general one.
//!
//! The algebra computes with any scalar that offers the capability [`Field`]. A contract says
//! which operations of the scalar gave a result, in which order, and holds whatever the
//! scalar is: of a float, which rounds, as of an exact rational. Laws that need arithmetic to
//! be exact are stated apart, of scalars that compute exactly with zero, one and minus one
//! ([`r410::units`]) or that a field embedding reads as real numbers ([`r410::exact`]), with
//! their roots and tests for zero where a law needs them ([`r410::roots`]).

use vstd::prelude::*;

pub mod blades;
pub mod d3;
pub mod field;
pub mod r410;
pub mod spaces;

pub use field::Field;
pub use r410::R410;
pub use spaces::DualSpace;
pub use spaces::Euclidean;
pub use spaces::Hyperbolic;
pub use spaces::Space;
pub use spaces::SpaceKind;
pub use spaces::Spherical;

verus! {

/// A compact geometric type: a sparse projection of the general multivector.
pub trait Multivec: Sized {
    type Element: Field;

    /// The multivector that the value stands for.
    spec fn into_mv_spec(self) -> R410<Self::Element>;

    /// The value that keeps of `v` what the type has room for.
    spec fn from_mv_spec(v: R410<Self::Element>) -> Self;

    /// Whether the blade at place `i` of the enumeration belongs to the declared support of
    /// the type.
    spec fn supports(i: int) -> bool;

    fn into_mv(self) -> (r: R410<Self::Element>)
        ensures
            r == self.into_mv_spec(),
    ;

    fn from_mv(v: R410<Self::Element>) -> (r: Self)
        ensures
            r == Self::from_mv_spec(v),
    ;

    /// A value survives the way through the general multivector unchanged.
    proof fn lemma_round_trip(self)
        ensures
            Self::from_mv_spec(self.into_mv_spec()) == self,
    ;

    /// The multivector of a value is exactly zero outside the support of its type.
    proof fn lemma_grade_pure(self, i: int)
        requires
            0 <= i < 32,
            !Self::supports(i),
        ensures
            self.into_mv_spec().coeff(i) == Self::Element::zero_spec(),
    ;
}

/// A bare scalar, the blade of grade zero.
#[derive(Clone, Copy, Debug, PartialEq)]
pub struct Scalar<T>(pub T);

impl<T: Field> Multivec for Scalar<T> {
    type Element = T;

    open spec fn into_mv_spec(self) -> R410<T> {
        R410 { s: self.0, ..R410::zero_spec() }
    }

    open spec fn from_mv_spec(v: R410<T>) -> Self {
        Scalar(v.s)
    }

    open spec fn supports(i: int) -> bool {
        i == 0
    }

    fn into_mv(self) -> (r: R410<T>) {
        R410 { s: self.0, ..R410::zero() }
    }

    fn from_mv(v: R410<T>) -> (r: Self) {
        Self(v.s)
    }

    proof fn lemma_round_trip(self) {
    }

    proof fn lemma_grade_pure(self, i: int) {
    }
}

/// Connects two objects into a higher dimensional object that passes through both.
/// The grade-increasing part of the geometric product.
/// Also known as the wedge product or outer product.
pub trait Join<RHS: Multivec<Element = Self::Element> = Self>: Multivec {
    type Output: Multivec<Element = Self::Element>;

    fn join(self, rhs: RHS) -> (r: Self::Output)
        default_ensures
            r == Self::Output::from_mv_spec(self.into_mv_spec().outer_spec(rhs.into_mv_spec())),
    {
        Multivec::from_mv(self.into_mv().bitxor(rhs.into_mv()))
    }
}

/// The meet operator to find the intersection between two objects.
/// Also known as the regressive product.
pub trait Meet<RHS: Multivec<Element = Self::Element> = Self>: Multivec {
    type Output: Multivec<Element = Self::Element>;

    fn meet(self, rhs: RHS) -> (r: Self::Output)
        default_ensures
            r == Self::Output::from_mv_spec(
                self.into_mv_spec().regressive_spec(rhs.into_mv_spec()),
            ),
    {
        Multivec::from_mv(self.into_mv().bitand(rhs.into_mv()))
    }
}

/// The dual of an object: what is orthogonal to it.
pub trait Dual: Multivec {
    type Output: Multivec<Element = Self::Element>;

    fn dual(self) -> (r: Self::Output)
        default_ensures
            r == Self::Output::from_mv_spec(self.into_mv_spec().dual_spec()),
    {
        Multivec::from_mv(self.into_mv().not())
    }
}

/// Denotes a type that can act as mirror to reflect other objects.
pub trait Reflect<RHS> {
    /// Reflect `object` across `self`.
    fn reflect(self, object: RHS) -> RHS;
}

/// The grade-reducing part of the geometric product.
/// Also known as the dot product.
pub trait Inner<RHS: Multivec<Element = Self::Element> = Self>: Multivec {
    type Output: Multivec<Element = Self::Element>;

    fn inner(self, rhs: RHS) -> (r: Self::Output)
        default_ensures
            r == Self::Output::from_mv_spec(self.into_mv_spec().inner_spec(rhs.into_mv_spec())),
    {
        Multivec::from_mv(self.into_mv().bitor(rhs.into_mv()))
    }
}

/// The grade-increasing part of the geometric product.
pub trait Outer<RHS: Multivec<Element = Self::Element> = Self>: Multivec {
    type Output: Multivec<Element = Self::Element>;

    fn outer(self, rhs: RHS) -> (r: Self::Output)
        default_ensures
            r == Self::Output::from_mv_spec(self.into_mv_spec().outer_spec(rhs.into_mv_spec())),
    {
        Multivec::from_mv(self.into_mv().bitxor(rhs.into_mv()))
    }
}

/// The anticommutative part of the geometric product, `(xy - yx) / 2`: half of what is
/// elsewhere called the commutator product.
pub trait Commutator<RHS = Self> {
    type Output;

    fn commutator(self, rhs: RHS) -> Self::Output;
}

/// The commutative part of the geometric product, `(xy + yx) / 2`: half of what is
/// elsewhere called the anticommutator product.
pub trait AntiCommutator<RHS = Self> {
    type Output;

    fn anticommutator(self, rhs: RHS) -> Self::Output;
}

impl<V, W> Meet<W> for V where
    V: Dual,
    <V as Dual>::Output: Inner<W>,
    W: Multivec<Element = Self::Element>,
 {
    type Output = <<V as Dual>::Output as Inner<W>>::Output;
}

} // verus!
