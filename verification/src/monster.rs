//! A monster: a typing coupled with a health value.

use vstd::prelude::*;

use crate::damage::Damage;
use crate::health::Health;
use crate::monster_type::MonsterType;
use crate::scalar::MAX_SCALE;

verus! {

/// A combatant. Its typing is fixed at creation; its health is mutated in
/// place, only through [`Monster::receive_damage`].
#[derive(Debug)]
pub struct Monster {
    pub monster_type: MonsterType,
    pub health: Health,
}

impl Monster {
    pub fn new(monster_type: MonsterType, health: Health) -> (r: Monster)
        ensures
            r == (Monster { monster_type, health }),
    {
        Monster { monster_type, health }
    }

    pub fn monster_type(&self) -> (r: &MonsterType)
        ensures
            *r == self.monster_type,
    {
        &self.monster_type
    }

    pub fn health(&self) -> (r: &Health)
        ensures
            *r == self.health,
    {
        &self.health
    }

    /// Suffer `damage`: health drops by the damage amount, floored at
    /// zero; the typing is untouched.
    pub fn receive_damage(&mut self, damage: Damage)
        requires
            old(self).health.0@.scale <= MAX_SCALE,
            damage.0@.scale <= MAX_SCALE,
            old(self).health.0@.aligned_diff(damage.0@) <= i64::MAX,
        ensures
            final(self).monster_type == old(self).monster_type,
            final(self).health.0@ == old(self).health.0@.minus_clamped(damage.0@),
            final(self).health.wf(),
    {
        self.health = self.health.damaged_by(damage);
    }
}

} // verus!
