//! Conformal and projective geometric algebra work nearly alike in spaces of different
//! curvature. A space decides how the single "infinity" coefficient of a compact type is split
//! over the null pair `ep`, `en`, and joined again; it is chosen by a type parameter and costs
//! nothing at run time.

use vstd::prelude::*;
use crate::field::Field;
use crate::r410::R410;

verus! {

/// The three geometries.
#[derive(Clone, Copy, Debug, PartialEq, Eq)]
pub enum SpaceKind {
    /// No curvature: infinity is the null vector `ep + en`.
    Euclidean,
    /// Negative curvature: infinity is the positive vector `ep`.
    Hyperbolic,
    /// Positive curvature: infinity is the negative vector `en`.
    Spherical,
}

/// The two parts of an infinity coefficient.
pub struct IBasis<T> {
    pub ep: T,
    pub en: T,
}

impl SpaceKind {
    /// The geometry in which the dual of an object of this geometry lives: the Euclidean one
    /// is its own dual, the other two are each other's.
    pub open spec fn dual_spec(self) -> SpaceKind {
        match self {
            SpaceKind::Euclidean => SpaceKind::Euclidean,
            SpaceKind::Hyperbolic => SpaceKind::Spherical,
            SpaceKind::Spherical => SpaceKind::Hyperbolic,
        }
    }

    /// The geometry in which the dual of an object of this geometry lives.
    pub fn dual_space(self) -> (r: SpaceKind)
        ensures
            r == self.dual_spec(),
    {
        match self {
            SpaceKind::Euclidean => SpaceKind::Euclidean,
            SpaceKind::Hyperbolic => SpaceKind::Spherical,
            SpaceKind::Spherical => SpaceKind::Hyperbolic,
        }
    }
}

/// The `ep` and `en` parts of the infinity coefficient `e` in the geometry `kind`: both `e` in
/// the Euclidean one, `e` for `ep` alone in the hyperbolic, for `en` alone in the spherical.
pub open spec fn split_spec<T: Field>(kind: SpaceKind, e: T) -> IBasis<T> {
    match kind {
        SpaceKind::Euclidean => IBasis { ep: e, en: e },
        SpaceKind::Hyperbolic => IBasis { ep: e, en: T::zero_spec() },
        SpaceKind::Spherical => IBasis { ep: T::zero_spec(), en: e },
    }
}

/// The infinity coefficient with the parts `ep` and `en` in the geometry `kind`: the `en`
/// part in the spherical one, the `ep` part in the others.
pub open spec fn join_spec<T: Field>(kind: SpaceKind, ep: T, en: T) -> T {
    match kind {
        SpaceKind::Euclidean => ep,
        SpaceKind::Hyperbolic => ep,
        SpaceKind::Spherical => en,
    }
}

/// The vector at infinity of the geometry `kind`: the parts of one, on `ep` and `en`.
pub open spec fn infinity_spec<T: Field>(kind: SpaceKind) -> R410<T> {
    R410 {
        ep: split_spec(kind, T::one_spec()).ep,
        en: split_spec(kind, T::one_spec()).en,
        ..R410::zero_spec()
    }
}

/// A geometry, as a type to give to the compact objects.
pub trait Space: Copy {
    /// Which of the three geometries this is.
    spec fn kind() -> SpaceKind;

    /// Which of the three geometries this is.
    fn tag() -> (r: SpaceKind)
        ensures
            r == Self::kind(),
    ;

    /// The `ep` and `en` parts of the infinity coefficient `e`.
    fn split<T: Field>(e: T) -> (r: IBasis<T>)
        ensures
            r == split_spec(Self::kind(), e),
    ;

    /// The infinity coefficient with the parts `ep` and `en`. In the Euclidean geometry the two
    /// are meant to be equal, and the `ep` part is the one handed back.
    fn join<T: Field>(ep: T, en: T) -> (r: T)
        ensures
            r == join_spec(Self::kind(), ep, en),
    ;

    /// The vector at infinity.
    fn infinity<T: Field>() -> (r: R410<T>)
        ensures
            r == infinity_spec::<T>(Self::kind()),
    {
        let IBasis { ep, en } = Self::split(T::one());
        R410 { ep, en, ..R410::zero() }
    }
}

/// A geometry together with the one that the duals of its objects live in. Hyperbolic and
/// spherical geometry swap when taking the dual.
pub trait DualSpace: Space {
    type Dual: Space;

    /// The dual geometry is the one that `SpaceKind::dual_spec` names.
    proof fn lemma_dual_kind()
        ensures
            <Self::Dual as Space>::kind() == Self::kind().dual_spec(),
    ;
}

/// Standard Euclidean space with no curvature. Infinity acts as a null basis.
#[derive(PartialEq, Copy, Clone, Debug)]
pub struct Euclidean;

/// Hyperbolic space with negative curvature. Infinity acts as a positive basis.
#[derive(PartialEq, Copy, Clone, Debug)]
pub struct Hyperbolic;

/// Spherical space with positive curvature. Infinity acts as a negative basis.
#[derive(PartialEq, Copy, Clone, Debug)]
pub struct Spherical;

impl Space for Euclidean {
    open spec fn kind() -> SpaceKind {
        SpaceKind::Euclidean
    }

    fn tag() -> (r: SpaceKind) {
        SpaceKind::Euclidean
    }

    fn split<T: Field>(e: T) -> (r: IBasis<T>) {
        IBasis { ep: e, en: e }
    }

    fn join<T: Field>(ep: T, en: T) -> (r: T) {
        ep
    }
}

impl Space for Hyperbolic {
    open spec fn kind() -> SpaceKind {
        SpaceKind::Hyperbolic
    }

    fn tag() -> (r: SpaceKind) {
        SpaceKind::Hyperbolic
    }

    fn split<T: Field>(ep: T) -> (r: IBasis<T>) {
        IBasis { ep, en: T::zero() }
    }

    fn join<T: Field>(ep: T, _en: T) -> (r: T) {
        ep
    }
}

impl Space for Spherical {
    open spec fn kind() -> SpaceKind {
        SpaceKind::Spherical
    }

    fn tag() -> (r: SpaceKind) {
        SpaceKind::Spherical
    }

    fn split<T: Field>(en: T) -> (r: IBasis<T>) {
        IBasis { en, ep: T::zero() }
    }

    fn join<T: Field>(_ep: T, en: T) -> (r: T) {
        en
    }
}

impl DualSpace for Euclidean {
    type Dual = Euclidean;

    proof fn lemma_dual_kind() {
    }
}

impl DualSpace for Hyperbolic {
    type Dual = Spherical;

    proof fn lemma_dual_kind() {
    }
}

impl DualSpace for Spherical {
    type Dual = Hyperbolic;

    proof fn lemma_dual_kind() {
    }
}

/// What was split is joined again unchanged, in every geometry.
pub proof fn lemma_join_split<T: Field>(kind: SpaceKind, e: T)
    ensures
        join_spec(kind, split_spec(kind, e).ep, split_spec(kind, e).en) == e,
{
}

/// Taking the dual geometry twice gives the geometry back.
pub proof fn lemma_dual_space_involution(kind: SpaceKind)
    ensures
        kind.dual_spec().dual_spec() == kind,
{
}

} // verus!
