//! Free trivectors.

use vstd::prelude::*;
use crate::field::Field;
use crate::r410::R410;
use crate::Inner;
use crate::Multivec;
use crate::Scalar;

verus! {

/// A free trivector: an oriented volume element.
#[derive(Clone, Copy, Debug, PartialEq)]
pub struct Trivector<T> {
    pub e123: T,
}

impl<T: Field> Multivec for Trivector<T> {
    type Element = T;

    open spec fn into_mv_spec(self) -> R410<T> {
        R410 {
            e123: self.e123,
            ..R410::zero_spec()
        }
    }

    open spec fn from_mv_spec(v: R410<T>) -> Self {
        Trivector {
            e123: v.e123,
        }
    }

    open spec fn supports(i: int) -> bool {
        i == 16
    }

    fn into_mv(self) -> (r: R410<T>) {
        let Trivector { e123 } = self;
        R410 {
            e123,
            ..R410::zero()
        }
    }

    fn from_mv(v: R410<T>) -> (r: Self) {
        let R410 { e123, .. } = v;
        Self {
            e123,
        }
    }

    proof fn lemma_round_trip(self) {
    }

    proof fn lemma_grade_pure(self, i: int) {
    }
}

impl<T: Field> Inner for Trivector<T> {
    type Output = Scalar<T>;
}

} // verus!
