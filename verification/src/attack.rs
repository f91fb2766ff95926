//! An attack: an element tag together with a base power.

use vstd::prelude::*;

use crate::element::Element;
use crate::scalar::Scalar;

verus! {

/// An attack's base power. Negative values are allowed; applied as damage
/// they heal the defender.
#[derive(Clone, Copy, Debug, PartialEq, Eq, Structural)]
pub struct AttackPower(pub Scalar);

impl AttackPower {
    pub fn new(value: Scalar) -> (r: AttackPower)
        ensures
            r.0 == value,
    {
        AttackPower(value)
    }

    pub fn value(&self) -> (r: Scalar)
        ensures
            r == self.0,
    {
        self.0
    }
}

/// A single combat action's payload: which element strikes, and how hard.
#[derive(Clone, Copy, Debug, PartialEq, Eq, Structural)]
pub struct Attack {
    pub element: Element,
    pub power: AttackPower,
}

impl Attack {
    pub fn new(element: Element, power: AttackPower) -> (r: Attack)
        ensures
            r == (Attack { element, power }),
    {
        Attack { element, power }
    }

    pub fn element(&self) -> (r: &Element)
        ensures
            *r == self.element,
    {
        &self.element
    }

    pub fn power(&self) -> (r: &AttackPower)
        ensures
            *r == self.power,
    {
        &self.power
    }
}

} // verus!
