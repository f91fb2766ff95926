//! The type-effectiveness capability: a rule set mapping an attacking
//! element and a defending typing to a damage multiplier, and the fixed
//! reference table implementing it.

use vstd::arithmetic::mul::lemma_mul_is_commutative;
use vstd::prelude::*;

use crate::damage_multiplier::DamageMultiplier;
use crate::element::Element;
use crate::monster_type::MonsterType;
use crate::primitive_multipliers::{
    bug_damage_multiplier, dark_damage_multiplier, dragon_damage_multiplier,
    electric_damage_multiplier, fairy_damage_multiplier, fighting_damage_multiplier,
    fire_damage_multiplier, flying_damage_multiplier, grass_damage_multiplier,
    ground_damage_multiplier, ice_damage_multiplier, lemma_tier_value_bounds,
    normal_damage_multiplier, phantom_damage_multiplier, poison_damage_multiplier,
    psychic_damage_multiplier, rock_damage_multiplier, steel_damage_multiplier, tier_of,
    tier_value, water_damage_multiplier, PrimitiveDamageMultiplier,
};
use crate::scalar::ScalarValue;

verus! {

/// A rule set assigning a damage multiplier to each pair of an attacking
/// element and a defending typing. Alternative tables can stand in for the
/// reference one; every implementation must return the non-negative
/// multiplier its own `multiplier_value` names.
pub trait TypeEffectivenessCalculator {
    /// The multiplier this rule set assigns to `attack_type` against
    /// `defender_type`.
    spec fn multiplier_value(&self, attack_type: Element, defender_type: MonsterType) -> ScalarValue;

    fn calculate(&self, attack_type: &Element, defender_type: &MonsterType) -> (r: DamageMultiplier)
        ensures
            r.value@ == self.multiplier_value(*attack_type, *defender_type),
            r.wf(),
    ;
}

/// The multiplier of the fixed reference table against a possibly dual
/// typing: the tier value against the primary element, multiplied by the
/// tier value against the secondary element when one is present.
pub open spec fn table_multiplier_value(
    attack_type: Element,
    defender_type: MonsterType,
) -> ScalarValue {
    let primary = tier_value(tier_of(attack_type, defender_type.primary_element));
    match defender_type.secondary_element {
        Some(element) => primary.times(tier_value(tier_of(attack_type, element))),
        None => primary,
    }
}

/// The calculator backed by the fixed reference table.
pub struct TypeEffectivenessCalculatorImpl;

impl TypeEffectivenessCalculatorImpl {
    pub fn new() -> TypeEffectivenessCalculatorImpl {
        TypeEffectivenessCalculatorImpl
    }

    /// The tier of a single attacking element against a single defending
    /// element, as a decimal multiplier.
    fn primitive_multiplier(attack_type: &Element, defender_type: &Element) -> (r:
        DamageMultiplier)
        ensures
            r.value@ == tier_value(tier_of(*attack_type, *defender_type)),
            r.wf(),
    {
        let tier = match attack_type {
            Element::Bug => bug_damage_multiplier(defender_type),
            Element::Dark => dark_damage_multiplier(defender_type),
            Element::Dragon => dragon_damage_multiplier(defender_type),
            Element::Electric => electric_damage_multiplier(defender_type),
            Element::Fairy => fairy_damage_multiplier(defender_type),
            Element::Fighting => fighting_damage_multiplier(defender_type),
            Element::Fire => fire_damage_multiplier(defender_type),
            Element::Flying => flying_damage_multiplier(defender_type),
            Element::Grass => grass_damage_multiplier(defender_type),
            Element::Ground => ground_damage_multiplier(defender_type),
            Element::Ice => ice_damage_multiplier(defender_type),
            Element::Normal => normal_damage_multiplier(defender_type),
            Element::Phantom => phantom_damage_multiplier(defender_type),
            Element::Poison => poison_damage_multiplier(defender_type),
            Element::Psychic => psychic_damage_multiplier(defender_type),
            Element::Rock => rock_damage_multiplier(defender_type),
            Element::Steel => steel_damage_multiplier(defender_type),
            Element::Water => water_damage_multiplier(defender_type),
        };
        DamageMultiplier::from(tier)
    }
}

impl TypeEffectivenessCalculator for TypeEffectivenessCalculatorImpl {
    open spec fn multiplier_value(
        &self,
        attack_type: Element,
        defender_type: MonsterType,
    ) -> ScalarValue {
        table_multiplier_value(attack_type, defender_type)
    }

    fn calculate(&self, attack_type: &Element, defender_type: &MonsterType) -> (r:
        DamageMultiplier) {
        let first_multiplier = Self::primitive_multiplier(
            attack_type,
            defender_type.primary_element(),
        );
        match defender_type.secondary_element() {
            Some(element) => {
                let second_multiplier = Self::primitive_multiplier(attack_type, element);
                proof {
                    lemma_tier_value_bounds(tier_of(*attack_type, defender_type.primary_element));
                    lemma_tier_value_bounds(tier_of(*attack_type, *element));
                    assert(first_multiplier.value@.mantissa * second_multiplier.value@.mantissa
                        <= 25) by (nonlinear_arith)
                        requires
                            0 <= first_multiplier.value@.mantissa <= 5,
                            0 <= second_multiplier.value@.mantissa <= 5,
                    ;
                }
                first_multiplier.combined_with(second_multiplier)
            },
            None => first_multiplier,
        }
    }
}

/// Dual-type composition is commutative: the table multiplier against the
/// typing `(first, second)` equals the one against `(second, first)`.
pub proof fn lemma_calculate_commutative(attack_type: Element, first: Element, second: Element)
    ensures
        table_multiplier_value(
            attack_type,
            (MonsterType { primary_element: first, secondary_element: Some(second) }),
        ) == table_multiplier_value(
            attack_type,
            (MonsterType { primary_element: second, secondary_element: Some(first) }),
        ),
{
    lemma_mul_is_commutative(
        tier_value(tier_of(attack_type, first)).mantissa,
        tier_value(tier_of(attack_type, second)).mantissa,
    );
}

/// Immunity dominates composition: when either defending element takes the
/// `Zero` tier against the attack, the combined table multiplier is zero,
/// whatever the other element contributes.
pub proof fn lemma_immunity_dominates(attack_type: Element, defender_type: MonsterType)
    requires
        tier_of(attack_type, defender_type.primary_element) is Zero || (
        defender_type.secondary_element matches Some(element) && tier_of(attack_type, element)
            is Zero),
    ensures
        table_multiplier_value(attack_type, defender_type).mantissa == 0,
{
    if defender_type.secondary_element is Some {
        let primary = tier_value(tier_of(attack_type, defender_type.primary_element));
        let secondary = tier_value(
            tier_of(attack_type, defender_type.secondary_element->Some_0),
        );
        lemma_mul_is_commutative(primary.mantissa, secondary.mantissa);
    }
}

/// Every table multiplier is small: a non-negative mantissa of at most 25
/// at a scale of at most 2. Callers use this to discharge the arithmetic
/// bounds of the combat resolver.
pub proof fn lemma_table_multiplier_in_range(attack_type: Element, defender_type: MonsterType)
    ensures
        0 <= table_multiplier_value(attack_type, defender_type).mantissa <= 25,
        table_multiplier_value(attack_type, defender_type).scale <= 2,
{
    let primary = tier_value(tier_of(attack_type, defender_type.primary_element));
    lemma_tier_value_bounds(tier_of(attack_type, defender_type.primary_element));
    if defender_type.secondary_element is Some {
        let secondary = tier_value(
            tier_of(attack_type, defender_type.secondary_element->Some_0),
        );
        lemma_tier_value_bounds(tier_of(attack_type, defender_type.secondary_element->Some_0));
        assert(0 <= primary.mantissa * secondary.mantissa <= 25) by (nonlinear_arith)
            requires
                0 <= primary.mantissa <= 5,
                0 <= secondary.mantissa <= 5,
        ;
    }
}

} // verus!
