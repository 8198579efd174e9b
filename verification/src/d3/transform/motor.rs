//! Motors.

use vstd::prelude::*;

verus! {

/// A rigid motion: a rotation together with a translation.
#[derive(Clone, Copy, Debug, PartialEq)]
pub struct Motor<T> {
    pub s: T,
    pub e12: T,
    pub e13: T,
    pub e23: T,
    pub e1i: T,
    pub e2i: T,
    pub e3i: T,
    pub e123i: T,
}

} // verus!
