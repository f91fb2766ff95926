//! Damage resolution for a turn-based elemental battler.
//!
//! The crate resolves a single combat action: given an attacker, an attack
//! (an element plus a power value) and a defender, it computes the effective
//! damage from the elemental type-effectiveness table and the same-type
//! attack bonus, and applies it to the defender's health, which is clamped
//! at zero.

pub use attack::{Attack, AttackPower};
pub use combat_service::{CombatError, CombatService};
pub use damage::Damage;
pub use damage_multiplier::DamageMultiplier;
pub use element::Element;
pub use health::Health;
pub use monster::Monster;
pub use monster_type::MonsterType;
pub use primitive_multipliers::PrimitiveDamageMultiplier;
pub use scalar::{Scalar, ScalarValue, MAX_SCALE};
pub use type_effectiveness::{TypeEffectivenessCalculator, TypeEffectivenessCalculatorImpl};

pub mod attack;
pub mod combat_service;
pub mod damage;
pub mod damage_multiplier;
pub mod element;
pub mod health;
pub mod monster;
pub mod monster_type;
pub mod primitive_multipliers;
pub mod scalar;
pub mod type_effectiveness;
