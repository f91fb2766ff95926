use elemental_combat::{
    Attack, AttackPower, CombatError, CombatService, DamageMultiplier, Element, Health, Monster,
    MonsterType, Scalar, ScalarValue, TypeEffectivenessCalculator, TypeEffectivenessCalculatorImpl,
};

const NON_STAB_ELEMENT: Element = Element::Water;

/// A stand-in rule set that assigns the same fixed multiplier to every
/// matchup, so the resolver's handling of the multiplier can be observed
/// in isolation.
struct FixedMultiplierCalculator {
    mantissa: i64,
    scale: u32,
}

impl TypeEffectivenessCalculator for FixedMultiplierCalculator {
    // The specification member is ghost and never runs.
    fn multiplier_value(&self, _attack_type: Element, _defender_type: MonsterType) -> ScalarValue {
        panic!()
    }

    fn calculate(&self, _attack_type: &Element, _defender_type: &MonsterType) -> DamageMultiplier {
        DamageMultiplier::new(Scalar::new(self.mantissa, self.scale))
    }
}

fn under_test() -> CombatService<TypeEffectivenessCalculatorImpl> {
    CombatService::new(TypeEffectivenessCalculatorImpl::new())
}

fn monster_type() -> MonsterType {
    MonsterType::new(Element::Normal, None)
}

fn attacking_monster(primary_element: Element) -> Monster {
    Monster::new(
        MonsterType::new(primary_element, None),
        Health::new(Scalar::new(10, 0)),
    )
}

fn defending_monster(health_value: Scalar) -> Monster {
    Monster::new(monster_type(), Health::new(health_value))
}

fn attack() -> Attack {
    Attack::new(Element::Normal, AttackPower::new(Scalar::new(5, 0)))
}

#[test]
fn combat_service_performs_attack_on_defender() {
    let mut defender = defending_monster(Scalar::new(10, 0));

    under_test()
        .perform_attack(
            &attacking_monster(NON_STAB_ELEMENT),
            attack(),
            &mut defender,
        )
        .unwrap();

    assert_eq!(*defender.health(), Health::new(Scalar::new(5, 0)));
}

#[test]
fn combat_service_applies_type_effectiveness_multiplier_to_resultant_damage() {
    let mut defender = defending_monster(Scalar::new(20, 0));
    let service = CombatService::new(FixedMultiplierCalculator {
        mantissa: 2,
        scale: 0,
    });

    service
        .perform_attack(
            &attacking_monster(NON_STAB_ELEMENT),
            attack(),
            &mut defender,
        )
        .unwrap();

    assert_eq!(*defender.health(), Health::new(Scalar::new(10, 0)));
}

#[test]
fn applies_stab_multiplier_bonus_when_attack_type_matches_attacker_primary_element() {
    let mut defender = defending_monster(Scalar::new(10, 0));

    under_test()
        .perform_attack(&attacking_monster(Element::Normal), attack(), &mut defender)
        .unwrap();

    assert_eq!(*defender.health(), Health::new(Scalar::new(25, 1)));
}

#[test]
fn applies_stab_multiplier_bonus_when_attack_type_matches_attacker_primary_type() {
    let mut defender = defending_monster(Scalar::new(10, 0));

    under_test()
        .perform_attack(&attacking_monster(Element::Normal), attack(), &mut defender)
        .unwrap();

    assert_eq!(*defender.health(), Health::new(Scalar::new(25, 1)));
}

#[test]
fn combat_service_fails_to_perform_attack_on_already_defeated_defender() {
    assert!(matches!(
        under_test().perform_attack(
            &attacking_monster(NON_STAB_ELEMENT),
            attack(),
            &mut defending_monster(Scalar::new(0, 0))
        ),
        Err(CombatError::DefenderIsAlreadyDefeated)
    ));
}

#[test]
fn failed_attack_leaves_defender_health_unchanged() {
    let mut defender = defending_monster(Scalar::new(0, 0));

    let result = under_test().perform_attack(
        &attacking_monster(NON_STAB_ELEMENT),
        attack(),
        &mut defender,
    );

    assert!(result.is_err());
    assert_eq!(*defender.health(), Health::new(Scalar::new(0, 0)));
}

#[test]
fn no_stab_bonus_for_matching_secondary_element() {
    // Only the attacker's primary element earns the bonus: a Water/Normal
    // attacker using a Normal attack deals plain 5 damage.
    let mut defender = defending_monster(Scalar::new(10, 0));
    let attacker = Monster::new(
        MonsterType::new(Element::Water, Some(Element::Normal)),
        Health::new(Scalar::new(10, 0)),
    );

    under_test()
        .perform_attack(&attacker, attack(), &mut defender)
        .unwrap();

    assert_eq!(*defender.health(), Health::new(Scalar::new(5, 0)));
}

#[test]
fn overkill_stab_attack_floors_health_at_zero() {
    // 10 power with the 1.5 bonus deals 15 against 10 health: the floor
    // holds and the defender ends at zero, not below.
    let mut defender = defending_monster(Scalar::new(10, 0));
    let strong_attack = Attack::new(Element::Normal, AttackPower::new(Scalar::new(10, 0)));

    under_test()
        .perform_attack(
            &attacking_monster(Element::Normal),
            strong_attack,
            &mut defender,
        )
        .unwrap();

    assert_eq!(defender.health().value().mantissa, 0);
}

#[test]
fn negative_attack_power_heals_the_defender() {
    let mut defender = defending_monster(Scalar::new(10, 0));
    let healing_attack = Attack::new(Element::Normal, AttackPower::new(Scalar::new(-5, 0)));

    under_test()
        .perform_attack(
            &attacking_monster(NON_STAB_ELEMENT),
            healing_attack,
            &mut defender,
        )
        .unwrap();

    assert_eq!(*defender.health(), Health::new(Scalar::new(15, 0)));
}

#[test]
fn type_effectiveness_and_stab_compose_to_exact_quarters() {
    // Fire attack with STAB against a Water/Fire defender: 8 x 1.5 x 0.25
    // is exactly 3, leaving 10 - 3 = 7 health at scale 3.
    let mut defender = Monster::new(
        MonsterType::new(Element::Water, Some(Element::Fire)),
        Health::new(Scalar::new(10, 0)),
    );
    let fire_attack = Attack::new(Element::Fire, AttackPower::new(Scalar::new(8, 0)));

    under_test()
        .perform_attack(
            &attacking_monster(Element::Fire),
            fire_attack,
            &mut defender,
        )
        .unwrap();

    assert_eq!(*defender.health(), Health::new(Scalar::new(7000, 3)));
}

#[test]
fn immune_defender_takes_no_damage() {
    let mut defender = Monster::new(
        MonsterType::new(Element::Fairy, None),
        Health::new(Scalar::new(10, 0)),
    );
    let dragon_attack = Attack::new(Element::Dragon, AttackPower::new(Scalar::new(100, 0)));

    under_test()
        .perform_attack(
            &attacking_monster(Element::Water),
            dragon_attack,
            &mut defender,
        )
        .unwrap();

    // 100 x 1 x 0 = 0 damage: health keeps its value of 10.
    assert_eq!(*defender.health(), Health::new(Scalar::new(10, 0)));
}
