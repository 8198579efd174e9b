//! Rigid motions: they act on an object by the sandwich product.

use vstd::prelude::*;
use crate::Multivec;

pub mod motor;
pub mod rotor;
pub mod translate;

pub use motor::Motor;
pub use rotor::Rotor;
pub use translate::Translator;

verus! {

/// A motion that can carry objects of type `T` along.
pub trait Transform<T: Multivec<Element = Self::Element>>: Multivec {
    /// `obj` moved by `self`: the sandwich `reverse(self) * obj * self`.
    fn transform(self, obj: T) -> (r: T)
        default_ensures
            r == T::from_mv_spec(self.into_mv_spec().sandwich_spec(obj.into_mv_spec())),
    {
        T::from_mv(self.into_mv().sandwich(obj.into_mv()))
    }
}

} // verus!
