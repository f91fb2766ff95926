//! The per-element effectiveness table: one tier for every ordered pair of
//! an attacking and a defending element.

use vstd::prelude::*;

use crate::damage_multiplier::DamageMultiplier;
use crate::element::Element;
use crate::scalar::{Scalar, ScalarValue};

verus! {

/// The discrete effectiveness tiers the table is built from. `Zero`
/// encodes full immunity; unmatched pairs default to `Single`.
#[derive(Clone, Copy, Debug, PartialEq, Eq, Structural)]
pub enum PrimitiveDamageMultiplier {
    Zero,
    Half,
    Single,
    Double,
}

/// The decimal value a tier stands for: 0, 0.5, 1 or 2.
pub open spec fn tier_value(tier: PrimitiveDamageMultiplier) -> ScalarValue {
    match tier {
        PrimitiveDamageMultiplier::Zero => ScalarValue { mantissa: 0, scale: 0 },
        PrimitiveDamageMultiplier::Half => ScalarValue { mantissa: 5, scale: 1 },
        PrimitiveDamageMultiplier::Single => ScalarValue { mantissa: 1, scale: 0 },
        PrimitiveDamageMultiplier::Double => ScalarValue { mantissa: 2, scale: 0 },
    }
}

/// The full effectiveness table: the tier of an attack of element
/// `attack_type` against a defender of element `defender_type`. The match
/// is exhaustive over both elements, so the table is total by
/// construction; it is asymmetric by design.
pub open spec fn tier_of(attack_type: Element, defender_type: Element) -> PrimitiveDamageMultiplier {
    match attack_type {
        Element::Bug => match defender_type {
            Element::Fire | Element::Fighting | Element::Poison | Element::Flying
            | Element::Phantom | Element::Steel | Element::Fairy => PrimitiveDamageMultiplier::Half,
            Element::Grass | Element::Psychic | Element::Dark => PrimitiveDamageMultiplier::Double,
            _ => PrimitiveDamageMultiplier::Single,
        },
        Element::Dark => match defender_type {
            Element::Fighting | Element::Dark | Element::Fairy => PrimitiveDamageMultiplier::Half,
            Element::Psychic | Element::Phantom => PrimitiveDamageMultiplier::Double,
            _ => PrimitiveDamageMultiplier::Single,
        },
        Element::Dragon => match defender_type {
            Element::Fairy => PrimitiveDamageMultiplier::Zero,
            Element::Steel => PrimitiveDamageMultiplier::Half,
            Element::Dragon => PrimitiveDamageMultiplier::Double,
            _ => PrimitiveDamageMultiplier::Single,
        },
        Element::Electric => match defender_type {
            Element::Ground => PrimitiveDamageMultiplier::Zero,
            Element::Electric | Element::Grass | Element::Dragon => PrimitiveDamageMultiplier::Half,
            Element::Water | Element::Flying => PrimitiveDamageMultiplier::Double,
            _ => PrimitiveDamageMultiplier::Single,
        },
        Element::Fairy => match defender_type {
            Element::Fire | Element::Poison | Element::Steel => PrimitiveDamageMultiplier::Half,
            Element::Fighting | Element::Dragon | Element::Dark => PrimitiveDamageMultiplier::Double,
            _ => PrimitiveDamageMultiplier::Single,
        },
        Element::Fighting => match defender_type {
            Element::Phantom => PrimitiveDamageMultiplier::Zero,
            Element::Poison | Element::Flying | Element::Psychic | Element::Bug
            | Element::Fairy => PrimitiveDamageMultiplier::Half,
            Element::Normal | Element::Ice | Element::Rock | Element::Dark
            | Element::Steel => PrimitiveDamageMultiplier::Double,
            _ => PrimitiveDamageMultiplier::Single,
        },
        Element::Fire => match defender_type {
            Element::Fire | Element::Water | Element::Rock | Element::Dragon => PrimitiveDamageMultiplier::Half,
            Element::Grass | Element::Ice | Element::Bug | Element::Steel => PrimitiveDamageMultiplier::Double,
            _ => PrimitiveDamageMultiplier::Single,
        },
        Element::Flying => match defender_type {
            Element::Electric | Element::Rock | Element::Steel => PrimitiveDamageMultiplier::Half,
            Element::Grass | Element::Fighting | Element::Bug => PrimitiveDamageMultiplier::Double,
            _ => PrimitiveDamageMultiplier::Single,
        },
        Element::Phantom => match defender_type {
            Element::Normal => PrimitiveDamageMultiplier::Zero,
            Element::Dark => PrimitiveDamageMultiplier::Half,
            Element::Psychic | Element::Phantom => PrimitiveDamageMultiplier::Double,
            _ => PrimitiveDamageMultiplier::Single,
        },
        Element::Grass => match defender_type {
            Element::Fire | Element::Grass | Element::Poison | Element::Flying | Element::Bug
            | Element::Dragon | Element::Steel => PrimitiveDamageMultiplier::Half,
            Element::Water | Element::Ground | Element::Rock => PrimitiveDamageMultiplier::Double,
            _ => PrimitiveDamageMultiplier::Single,
        },
        Element::Ground => match defender_type {
            Element::Flying => PrimitiveDamageMultiplier::Zero,
            Element::Grass | Element::Bug => PrimitiveDamageMultiplier::Half,
            Element::Fire | Element::Electric | Element::Poison | Element::Rock
            | Element::Steel => PrimitiveDamageMultiplier::Double,
            _ => PrimitiveDamageMultiplier::Single,
        },
        Element::Ice => match defender_type {
            Element::Fire | Element::Water | Element::Ice | Element::Steel => PrimitiveDamageMultiplier::Half,
            Element::Grass | Element::Ground | Element::Flying | Element::Dragon => PrimitiveDamageMultiplier::Double,
            _ => PrimitiveDamageMultiplier::Single,
        },
        Element::Normal => match defender_type {
            Element::Phantom => PrimitiveDamageMultiplier::Zero,
            Element::Rock | Element::Steel => PrimitiveDamageMultiplier::Half,
            _ => PrimitiveDamageMultiplier::Single,
        },
        Element::Poison => match defender_type {
            Element::Steel => PrimitiveDamageMultiplier::Zero,
            Element::Poison | Element::Ground | Element::Rock | Element::Phantom => PrimitiveDamageMultiplier::Half,
            Element::Grass | Element::Fairy => PrimitiveDamageMultiplier::Double,
            _ => PrimitiveDamageMultiplier::Single,
        },
        Element::Psychic => match defender_type {
            Element::Dark => PrimitiveDamageMultiplier::Zero,
            Element::Psychic | Element::Steel => PrimitiveDamageMultiplier::Half,
            Element::Fighting | Element::Poison => PrimitiveDamageMultiplier::Double,
            _ => PrimitiveDamageMultiplier::Single,
        },
        Element::Rock => match defender_type {
            Element::Fighting | Element::Ground | Element::Steel => PrimitiveDamageMultiplier::Half,
            Element::Fire | Element::Ice | Element::Flying | Element::Bug => PrimitiveDamageMultiplier::Double,
            _ => PrimitiveDamageMultiplier::Single,
        },
        Element::Steel => match defender_type {
            Element::Fire | Element::Water | Element::Electric | Element::Steel => PrimitiveDamageMultiplier::Half,
            Element::Ice | Element::Rock | Element::Fairy => PrimitiveDamageMultiplier::Double,
            _ => PrimitiveDamageMultiplier::Single,
        },
        Element::Water => match defender_type {
            Element::Water | Element::Grass | Element::Dragon => PrimitiveDamageMultiplier::Half,
            Element::Fire | Element::Ground | Element::Rock => PrimitiveDamageMultiplier::Double,
            _ => PrimitiveDamageMultiplier::Single,
        },
    }
}

/// Every tier value is a non-negative mantissa of at most 5 at a scale of
/// at most 1.
pub proof fn lemma_tier_value_bounds(tier: PrimitiveDamageMultiplier)
    ensures
        0 <= tier_value(tier).mantissa <= 5,
        tier_value(tier).scale <= 1,
{
}

pub(crate) fn bug_damage_multiplier(defender_type: &Element) -> (r: PrimitiveDamageMultiplier)
    ensures
        r == tier_of(Element::Bug, *defender_type),
{
    match defender_type {
        Element::Fire | Element::Fighting | Element::Poison | Element::Flying
        | Element::Phantom | Element::Steel | Element::Fairy => PrimitiveDamageMultiplier::Half,
        Element::Grass | Element::Psychic | Element::Dark => PrimitiveDamageMultiplier::Double,
        _ => PrimitiveDamageMultiplier::Single,
    }
}

pub(crate) fn dark_damage_multiplier(defender_type: &Element) -> (r: PrimitiveDamageMultiplier)
    ensures
        r == tier_of(Element::Dark, *defender_type),
{
    match defender_type {
        Element::Fighting | Element::Dark | Element::Fairy => PrimitiveDamageMultiplier::Half,
        Element::Psychic | Element::Phantom => PrimitiveDamageMultiplier::Double,
        _ => PrimitiveDamageMultiplier::Single,
    }
}

pub(crate) fn dragon_damage_multiplier(defender_type: &Element) -> (r: PrimitiveDamageMultiplier)
    ensures
        r == tier_of(Element::Dragon, *defender_type),
{
    match defender_type {
        Element::Fairy => PrimitiveDamageMultiplier::Zero,
        Element::Steel => PrimitiveDamageMultiplier::Half,
        Element::Dragon => PrimitiveDamageMultiplier::Double,
        _ => PrimitiveDamageMultiplier::Single,
    }
}

pub(crate) fn electric_damage_multiplier(defender_type: &Element) -> (r: PrimitiveDamageMultiplier)
    ensures
        r == tier_of(Element::Electric, *defender_type),
{
    match defender_type {
        Element::Ground => PrimitiveDamageMultiplier::Zero,
        Element::Electric | Element::Grass | Element::Dragon => PrimitiveDamageMultiplier::Half,
        Element::Water | Element::Flying => PrimitiveDamageMultiplier::Double,
        _ => PrimitiveDamageMultiplier::Single,
    }
}

pub(crate) fn fairy_damage_multiplier(defender_type: &Element) -> (r: PrimitiveDamageMultiplier)
    ensures
        r == tier_of(Element::Fairy, *defender_type),
{
    match defender_type {
        Element::Fire | Element::Poison | Element::Steel => PrimitiveDamageMultiplier::Half,
        Element::Fighting | Element::Dragon | Element::Dark => PrimitiveDamageMultiplier::Double,
        _ => PrimitiveDamageMultiplier::Single,
    }
}

pub(crate) fn fighting_damage_multiplier(defender_type: &Element) -> (r: PrimitiveDamageMultiplier)
    ensures
        r == tier_of(Element::Fighting, *defender_type),
{
    match defender_type {
        Element::Phantom => PrimitiveDamageMultiplier::Zero,
        Element::Poison | Element::Flying | Element::Psychic | Element::Bug | Element::Fairy => {
            PrimitiveDamageMultiplier::Half
        },
        Element::Normal | Element::Ice | Element::Rock | Element::Dark | Element::Steel => {
            PrimitiveDamageMultiplier::Double
        },
        _ => PrimitiveDamageMultiplier::Single,
    }
}

pub(crate) fn fire_damage_multiplier(defender_type: &Element) -> (r: PrimitiveDamageMultiplier)
    ensures
        r == tier_of(Element::Fire, *defender_type),
{
    match defender_type {
        Element::Fire | Element::Water | Element::Rock | Element::Dragon => {
            PrimitiveDamageMultiplier::Half
        },
        Element::Grass | Element::Ice | Element::Bug | Element::Steel => {
            PrimitiveDamageMultiplier::Double
        },
        _ => PrimitiveDamageMultiplier::Single,
    }
}

pub(crate) fn flying_damage_multiplier(defender_type: &Element) -> (r: PrimitiveDamageMultiplier)
    ensures
        r == tier_of(Element::Flying, *defender_type),
{
    match defender_type {
        Element::Electric | Element::Rock | Element::Steel => PrimitiveDamageMultiplier::Half,
        Element::Grass | Element::Fighting | Element::Bug => PrimitiveDamageMultiplier::Double,
        _ => PrimitiveDamageMultiplier::Single,
    }
}

pub(crate) fn phantom_damage_multiplier(defender_type: &Element) -> (r: PrimitiveDamageMultiplier)
    ensures
        r == tier_of(Element::Phantom, *defender_type),
{
    match defender_type {
        Element::Normal => PrimitiveDamageMultiplier::Zero,
        Element::Dark => PrimitiveDamageMultiplier::Half,
        Element::Psychic | Element::Phantom => PrimitiveDamageMultiplier::Double,
        _ => PrimitiveDamageMultiplier::Single,
    }
}

pub(crate) fn grass_damage_multiplier(defender_type: &Element) -> (r: PrimitiveDamageMultiplier)
    ensures
        r == tier_of(Element::Grass, *defender_type),
{
    match defender_type {
        Element::Fire | Element::Grass | Element::Poison | Element::Flying | Element::Bug
        | Element::Dragon | Element::Steel => PrimitiveDamageMultiplier::Half,
        Element::Water | Element::Ground | Element::Rock => PrimitiveDamageMultiplier::Double,
        _ => PrimitiveDamageMultiplier::Single,
    }
}

pub(crate) fn ground_damage_multiplier(defender_type: &Element) -> (r: PrimitiveDamageMultiplier)
    ensures
        r == tier_of(Element::Ground, *defender_type),
{
    match defender_type {
        Element::Flying => PrimitiveDamageMultiplier::Zero,
        Element::Grass | Element::Bug => PrimitiveDamageMultiplier::Half,
        Element::Fire | Element::Electric | Element::Poison | Element::Rock | Element::Steel => {
            PrimitiveDamageMultiplier::Double
        },
        _ => PrimitiveDamageMultiplier::Single,
    }
}

pub(crate) fn ice_damage_multiplier(defender_type: &Element) -> (r: PrimitiveDamageMultiplier)
    ensures
        r == tier_of(Element::Ice, *defender_type),
{
    match defender_type {
        Element::Fire | Element::Water | Element::Ice | Element::Steel => {
            PrimitiveDamageMultiplier::Half
        },
        Element::Grass | Element::Ground | Element::Flying | Element::Dragon => {
            PrimitiveDamageMultiplier::Double
        },
        _ => PrimitiveDamageMultiplier::Single,
    }
}

pub(crate) fn normal_damage_multiplier(defender_type: &Element) -> (r: PrimitiveDamageMultiplier)
    ensures
        r == tier_of(Element::Normal, *defender_type),
{
    match defender_type {
        Element::Phantom => PrimitiveDamageMultiplier::Zero,
        Element::Rock | Element::Steel => PrimitiveDamageMultiplier::Half,
        _ => PrimitiveDamageMultiplier::Single,
    }
}

pub(crate) fn poison_damage_multiplier(defender_type: &Element) -> (r: PrimitiveDamageMultiplier)
    ensures
        r == tier_of(Element::Poison, *defender_type),
{
    match defender_type {
        Element::Steel => PrimitiveDamageMultiplier::Zero,
        Element::Poison | Element::Ground | Element::Rock | Element::Phantom => {
            PrimitiveDamageMultiplier::Half
        },
        Element::Grass | Element::Fairy => PrimitiveDamageMultiplier::Double,
        _ => PrimitiveDamageMultiplier::Single,
    }
}

pub(crate) fn psychic_damage_multiplier(defender_type: &Element) -> (r: PrimitiveDamageMultiplier)
    ensures
        r == tier_of(Element::Psychic, *defender_type),
{
    match defender_type {
        Element::Dark => PrimitiveDamageMultiplier::Zero,
        Element::Psychic | Element::Steel => PrimitiveDamageMultiplier::Half,
        Element::Fighting | Element::Poison => PrimitiveDamageMultiplier::Double,
        _ => PrimitiveDamageMultiplier::Single,
    }
}

pub(crate) fn rock_damage_multiplier(defender_type: &Element) -> (r: PrimitiveDamageMultiplier)
    ensures
        r == tier_of(Element::Rock, *defender_type),
{
    match defender_type {
        Element::Fighting | Element::Ground | Element::Steel => PrimitiveDamageMultiplier::Half,
        Element::Fire | Element::Ice | Element::Flying | Element::Bug => {
            PrimitiveDamageMultiplier::Double
        },
        _ => PrimitiveDamageMultiplier::Single,
    }
}

pub(crate) fn steel_damage_multiplier(defender_type: &Element) -> (r: PrimitiveDamageMultiplier)
    ensures
        r == tier_of(Element::Steel, *defender_type),
{
    match defender_type {
        Element::Fire | Element::Water | Element::Electric | Element::Steel => {
            PrimitiveDamageMultiplier::Half
        },
        Element::Ice | Element::Rock | Element::Fairy => PrimitiveDamageMultiplier::Double,
        _ => PrimitiveDamageMultiplier::Single,
    }
}

pub(crate) fn water_damage_multiplier(defender_type: &Element) -> (r: PrimitiveDamageMultiplier)
    ensures
        r == tier_of(Element::Water, *defender_type),
{
    match defender_type {
        Element::Water | Element::Grass | Element::Dragon => PrimitiveDamageMultiplier::Half,
        Element::Fire | Element::Ground | Element::Rock => PrimitiveDamageMultiplier::Double,
        _ => PrimitiveDamageMultiplier::Single,
    }
}

impl From<PrimitiveDamageMultiplier> for DamageMultiplier {
    /// The multiplier a tier denotes, as an exact decimal.
    fn from(primitive: PrimitiveDamageMultiplier) -> (r: DamageMultiplier) {
        let decimal = match primitive {
            PrimitiveDamageMultiplier::Zero => Scalar::new(0, 0),
            PrimitiveDamageMultiplier::Half => Scalar::new(5, 1),
            PrimitiveDamageMultiplier::Single => Scalar::new(1, 0),
            PrimitiveDamageMultiplier::Double => Scalar::new(2, 0),
        };
        DamageMultiplier::new(decimal)
    }
}

impl vstd::std_specs::convert::FromSpecImpl<PrimitiveDamageMultiplier> for DamageMultiplier {
    open spec fn obeys_from_spec() -> bool {
        true
    }

    open spec fn from_spec(primitive: PrimitiveDamageMultiplier) -> DamageMultiplier {
        match primitive {
            PrimitiveDamageMultiplier::Zero => DamageMultiplier {
                value: Scalar { mantissa: 0, scale: 0 },
            },
            PrimitiveDamageMultiplier::Half => DamageMultiplier {
                value: Scalar { mantissa: 5, scale: 1 },
            },
            PrimitiveDamageMultiplier::Single => DamageMultiplier {
                value: Scalar { mantissa: 1, scale: 0 },
            },
            PrimitiveDamageMultiplier::Double => DamageMultiplier {
                value: Scalar { mantissa: 2, scale: 0 },
            },
        }
    }
}

} // verus!
