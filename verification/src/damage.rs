//! The resolved damage amount of one combat action.

use vstd::prelude::*;

use crate::scalar::Scalar;

verus! {

/// A damage amount: the attack's power times the combined multiplier.
/// A negative amount (from a negative power) heals when applied.
#[derive(Clone, Copy, Debug, PartialEq, Eq, Structural)]
pub struct Damage(pub Scalar);

impl Damage {
    pub fn new(value: Scalar) -> (r: Damage)
        ensures
            r.0 == value,
    {
        Damage(value)
    }

    pub fn value(&self) -> (r: Scalar)
        ensures
            r == self.0,
    {
        self.0
    }
}

} // verus!
