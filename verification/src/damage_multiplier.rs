//! Damage multipliers and their multiplicative composition.

use vstd::arithmetic::mul::lemma_mul_is_associative;
use vstd::prelude::*;

use crate::scalar::{Scalar, MAX_SCALE};

verus! {

/// A non-negative decimal scalar by which damage is multiplied: a
/// type-effectiveness factor, a same-type attack bonus, or a product of
/// such factors.
#[derive(Clone, Copy, Debug, PartialEq, Eq, Structural)]
pub struct DamageMultiplier {
    pub value: Scalar,
}

impl DamageMultiplier {
    /// A multiplier never carries a negative value.
    pub open spec fn wf(self) -> bool {
        self.value@.mantissa >= 0
    }

    pub fn new(value: Scalar) -> (r: DamageMultiplier)
        requires
            value@.mantissa >= 0,
        ensures
            r.value == value,
            r.wf(),
    {
        DamageMultiplier { value }
    }

    pub fn value(&self) -> (r: Scalar)
        ensures
            r == self.value,
    {
        self.value
    }

    /// The product of two multipliers, as an exact decimal.
    pub fn combined_with(self, other: Self) -> (r: Self)
        requires
            self.wf(),
            other.wf(),
            self.value@.scale + other.value@.scale <= MAX_SCALE,
            self.value@.mantissa * other.value@.mantissa <= i64::MAX,
        ensures
            r.value@ == self.value@.times(other.value@),
            r.wf(),
    {
        proof {
            assert(self.value@.mantissa * other.value@.mantissa >= 0) by (nonlinear_arith)
                requires
                    self.value@.mantissa >= 0,
                    other.value@.mantissa >= 0,
            ;
        }
        DamageMultiplier::new(self.value.times(other.value))
    }
}

/// Composing multipliers is commutative: `a.combined_with(b)` and
/// `b.combined_with(a)` carry the same value.
pub proof fn lemma_combined_with_commutative(a: DamageMultiplier, b: DamageMultiplier)
    ensures
        a.value@.times(b.value@) == b.value@.times(a.value@),
{
}

/// Composing multipliers is associative: a chain of three factors yields
/// the same multiplier value however the two compositions are grouped.
/// Together with commutativity, any chain of two or three multipliers is
/// order-independent.
pub proof fn lemma_combined_with_associative(
    a: DamageMultiplier,
    b: DamageMultiplier,
    c: DamageMultiplier,
)
    ensures
        a.value@.times(b.value@).times(c.value@) == a.value@.times(b.value@.times(c.value@)),
{
    lemma_mul_is_associative(a.value@.mantissa, b.value@.mantissa, c.value@.mantissa);
}

} // verus!
