//! A monster's vitality: a non-negative scalar with clamped subtraction.

use vstd::arithmetic::mul::{
    lemma_mul_is_associative, lemma_mul_strict_inequality, lemma_mul_strictly_positive,
};
use vstd::prelude::*;

use crate::damage::Damage;
use crate::scalar::{lemma_pow10_adds, lemma_pow10_pos, pow10, Scalar, ScalarValue, MAX_SCALE};

verus! {

/// A health value. It is never negative: construction demands a
/// non-negative scalar and the sole mutation path clamps at zero.
#[derive(Clone, Copy, Debug, PartialEq, Eq, Structural)]
pub struct Health(pub Scalar);

impl Health {
    /// The health invariant: the stored scalar is non-negative.
    pub open spec fn wf(self) -> bool {
        self.0@.mantissa >= 0
    }

    pub fn new(value: Scalar) -> (r: Health)
        requires
            value@.mantissa >= 0,
        ensures
            r.0 == value,
            r.wf(),
    {
        Health(value)
    }

    pub fn value(&self) -> (r: Scalar)
        ensures
            r == self.0,
    {
        self.0
    }

    /// The health left after suffering `damage`: the difference, floored at
    /// zero. Negative damage heals, with no clamp on the upper side.
    pub fn damaged_by(self, damage: Damage) -> (r: Health)
        requires
            self.0@.scale <= MAX_SCALE,
            damage.0@.scale <= MAX_SCALE,
            self.0@.aligned_diff(damage.0@) <= i64::MAX,
        ensures
            r.0@ == self.0@.minus_clamped(damage.0@),
            r.wf(),
    {
        Health(self.0.minus_clamped(damage.0))
    }
}

/// Health never goes negative: whatever the damage, the clamped difference
/// carries a non-negative mantissa.
pub proof fn lemma_health_never_negative(health: ScalarValue, damage: ScalarValue)
    ensures
        health.minus_clamped(damage).mantissa >= 0,
{
}

/// A strictly positive damage amount strictly decreases a strictly
/// positive health value, floored at zero.
pub proof fn lemma_damage_strictly_decreases(health: ScalarValue, damage: ScalarValue)
    requires
        health.mantissa > 0,
        damage.mantissa > 0,
    ensures
        health.minus_clamped(damage).val_lt(health),
{
    let target: nat = health.common_scale(damage);
    let aligned_health: int = health.scaled_to(target);
    let aligned_damage: int = damage.scaled_to(target);
    lemma_pow10_pos((target - damage.scale) as nat);
    lemma_mul_strictly_positive(damage.mantissa, pow10((target - damage.scale) as nat));
    let diff: int = aligned_health - aligned_damage;
    if diff < 0 {
        // The clamped result is zero, and zero is strictly below the
        // positive health value.
        lemma_pow10_pos(health.scale);
        assert(0 * pow10(health.scale) == 0) by (nonlinear_arith);
        assert(pow10(0) == 1);
        assert(health.minus_clamped(damage).val_lt(health));
    } else {
        lemma_pow10_pos(health.scale);
        lemma_mul_strict_inequality(diff, aligned_health, pow10(health.scale));
        lemma_mul_is_associative(
            health.mantissa,
            pow10((target - health.scale) as nat),
            pow10(health.scale),
        );
        lemma_pow10_adds((target - health.scale) as nat, health.scale);
        assert(aligned_health * pow10(health.scale) == health.mantissa * pow10(target));
    }
}

} // verus!
