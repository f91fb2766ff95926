//! Resolution of a single combat action: defeat check, same-type attack
//! bonus, type effectiveness, damage, health mutation.

use vstd::prelude::*;

use crate::attack::Attack;
use crate::damage::Damage;
use crate::damage_multiplier::DamageMultiplier;
use crate::monster::Monster;
use crate::scalar::{lemma_pow10_bound, lemma_pow10_mono, pow10, Scalar, ScalarValue, MAX_SCALE};
use crate::type_effectiveness::TypeEffectivenessCalculator;

verus! {

/// The single failure of combat resolution: the defender was already at
/// zero health when the attack was attempted, and nothing was mutated.
#[derive(Clone, Copy, Debug, PartialEq, Eq, Structural)]
pub enum CombatError {
    DefenderIsAlreadyDefeated,
}

/// The same-type attack bonus: 1.5 when the attack's element equals the
/// attacker's primary element, else 1. Only the primary element counts; a
/// matching secondary element earns no bonus, and the defender plays no
/// part.
pub open spec fn stab_value(attacker: Monster, attack: Attack) -> ScalarValue {
    if attacker.monster_type.primary_element == attack.element {
        ScalarValue { mantissa: 15, scale: 1 }
    } else {
        ScalarValue { mantissa: 1, scale: 0 }
    }
}

/// The damage one resolution inflicts: the attack's power, times the
/// same-type bonus, times the type-effectiveness multiplier `te`.
pub open spec fn resolved_damage_value(
    attacker: Monster,
    attack: Attack,
    te: ScalarValue,
) -> ScalarValue {
    attack.power.0@.times(stab_value(attacker, attack).times(te))
}

/// Bounds under which one resolution's exact arithmetic stays within the
/// scalar representation: a tier-product multiplier, a power of at most a
/// million at micro precision, and a health of at most a billion at
/// nano precision.
pub open spec fn resolution_in_range(attack: Attack, defender: Monster, te: ScalarValue) -> bool {
    &&& 0 <= te.mantissa <= 100
    &&& te.scale <= 2
    &&& -1000000 <= attack.power.0@.mantissa <= 1000000
    &&& attack.power.0@.scale <= 6
    &&& 0 <= defender.health.0@.mantissa <= 1000000000
    &&& defender.health.0@.scale <= 9
}

/// The combat resolver, parameterised by the type-effectiveness rule set
/// it consults.
pub struct CombatService<TEC: TypeEffectivenessCalculator> {
    pub type_effectiveness_calculator: TEC,
}

impl<TEC: TypeEffectivenessCalculator> CombatService<TEC> {
    pub fn new(type_effectiveness_calculator: TEC) -> (r: Self)
        ensures
            r.type_effectiveness_calculator == type_effectiveness_calculator,
    {
        CombatService { type_effectiveness_calculator }
    }

    fn stab_multiplier(attacker: &Monster, attack: &Attack) -> (r: DamageMultiplier)
        ensures
            r.value@ == stab_value(*attacker, *attack),
            r.wf(),
    {
        if *attacker.monster_type().primary_element() == *attack.element() {
            return DamageMultiplier::new(Scalar::new(15, 1));
        }
        DamageMultiplier::new(Scalar::new(1, 0))
    }

    /// Resolve one attack against `defender`. A defender already at zero
    /// health rejects the attack unchanged; otherwise its health drops by
    /// `power x STAB x type effectiveness`, floored at zero.
    pub fn perform_attack(
        &self,
        attacker: &Monster,
        attack: Attack,
        defender: &mut Monster,
    ) -> (result: Result<(), CombatError>)
        requires
            old(defender).health.wf(),
            old(defender).health.0@.mantissa != 0 ==> resolution_in_range(
                attack,
                *old(defender),
                self.type_effectiveness_calculator.multiplier_value(
                    attack.element,
                    old(defender).monster_type,
                ),
            ),
        ensures
            result == (if old(defender).health.0@.mantissa == 0 {
                Err::<(), CombatError>(CombatError::DefenderIsAlreadyDefeated)
            } else {
                Ok::<(), CombatError>(())
            }),
            old(defender).health.0@.mantissa == 0 ==> *final(defender) == *old(defender),
            old(defender).health.0@.mantissa != 0 ==> final(defender).monster_type == old(
                defender,
            ).monster_type && final(defender).health.0@ == old(defender).health.0@.minus_clamped(
                resolved_damage_value(
                    *attacker,
                    attack,
                    self.type_effectiveness_calculator.multiplier_value(
                        attack.element,
                        old(defender).monster_type,
                    ),
                ),
            ),
            final(defender).health.wf(),
    {
        if self.is_defeated(defender) {
            return Err(CombatError::DefenderIsAlreadyDefeated);
        }
        let stab_multiplier = Self::stab_multiplier(attacker, &attack);
        let type_effectiveness_multiplier = self.type_effectiveness_calculator.calculate(
            attack.element(),
            defender.monster_type(),
        );
        proof {
            assert(stab_multiplier.value@.mantissa * type_effectiveness_multiplier.value@.mantissa
                <= 1500) by (nonlinear_arith)
                requires
                    0 <= stab_multiplier.value@.mantissa <= 15,
                    0 <= type_effectiveness_multiplier.value@.mantissa <= 100,
            ;
        }
        let combined_damage_multiplier = stab_multiplier.combined_with(
            type_effectiveness_multiplier,
        );
        proof {
            assert(-1500000000 <= attack.power.0@.mantissa
                * combined_damage_multiplier.value@.mantissa <= 1500000000) by (nonlinear_arith)
                requires
                    -1000000 <= attack.power.0@.mantissa <= 1000000,
                    0 <= combined_damage_multiplier.value@.mantissa <= 1500,
            ;
        }
        let damage = self.damage_from_attack(&attack, combined_damage_multiplier);
        proof {
            lemma_resolution_diff_in_range(defender.health.0@, damage.0@);
        }
        defender.receive_damage(damage);
        Ok(())
    }

    fn is_defeated(&self, monster: &Monster) -> (r: bool)
        ensures
            r == (monster.health.0@.mantissa == 0),
    {
        monster.health().value().mantissa == 0
    }

    fn damage_from_attack(&self, attack: &Attack, multiplier: DamageMultiplier) -> (r: Damage)
        requires
            attack.power.0@.scale + multiplier.value@.scale <= MAX_SCALE,
            i64::MIN <= attack.power.0@.mantissa * multiplier.value@.mantissa <= i64::MAX,
        ensures
            r.0@ == attack.power.0@.times(multiplier.value@),
    {
        Damage::new(attack.power().value().times(multiplier.value()))
    }
}

/// Within the resolver's bounds, the aligned difference of health and
/// damage fits the mantissa range, so the clamped subtraction is exact.
proof fn lemma_resolution_diff_in_range(health: ScalarValue, damage: ScalarValue)
    requires
        0 <= health.mantissa <= 1000000000,
        health.scale <= 9,
        -1500000000 <= damage.mantissa <= 1500000000,
        damage.scale <= 9,
    ensures
        health.aligned_diff(damage) <= i64::MAX,
{
    let target: nat = health.common_scale(damage);
    lemma_pow10_mono((target - health.scale) as nat, 9);
    lemma_pow10_mono((target - damage.scale) as nat, 9);
    lemma_pow10_bound((target - health.scale) as nat);
    lemma_pow10_bound((target - damage.scale) as nat);
    reveal_with_fuel(pow10, 10);
    assert(pow10(9) == 1000000000);
    assert(health.mantissa * pow10((target - health.scale) as nat) <= 1000000000000000000)
        by (nonlinear_arith)
        requires
            0 <= health.mantissa <= 1000000000,
            1 <= pow10((target - health.scale) as nat) <= 1000000000,
    ;
    assert(-1500000000000000000 <= damage.mantissa * pow10((target - damage.scale) as nat)
        <= 1500000000000000000) by (nonlinear_arith)
        requires
            -1500000000 <= damage.mantissa <= 1500000000,
            1 <= pow10((target - damage.scale) as nat) <= 1000000000,
    ;
}

} // verus!
