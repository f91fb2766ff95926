use elemental_combat::{
    Attack, AttackPower, Damage, DamageMultiplier, Element, Health, Monster, MonsterType, Scalar,
};

fn under_test() -> Monster {
    Monster::new(monster_type(), Health::new(Scalar::new(10, 0)))
}

fn monster_type() -> MonsterType {
    MonsterType::new(Element::Normal, None)
}

#[test]
fn returns_its_element() {
    let attack = Attack::new(Element::Normal, AttackPower::new(Scalar::new(10, 0)));
    assert_eq!(*attack.element(), Element::Normal);
}

#[test]
fn returns_its_power() {
    let attack = Attack::new(Element::Normal, AttackPower::new(Scalar::new(10, 0)));
    assert_eq!(*attack.power(), AttackPower::new(Scalar::new(10, 0)));
}

#[test]
fn power_returns_integer_value() {
    let attack_value = Scalar::new(10, 0);
    assert_eq!(AttackPower::new(attack_value).value(), attack_value);
}

#[test]
fn damage_returns_integer_value() {
    let damage_value = Scalar::new(10, 0);
    assert_eq!(Damage::new(damage_value).value(), damage_value);
}

#[test]
fn mod_returns_integer_value() {
    let damage_value = Scalar::new(10, 0);
    assert_eq!(Damage::new(damage_value).value(), damage_value);
}

#[test]
fn health_returns_integer_value() {
    let health_value = Scalar::new(10, 0);
    assert_eq!(Health::new(health_value).value(), health_value);
}

#[test]
fn monster_returns_its_health() {
    assert_eq!(*under_test().health(), Health::new(Scalar::new(10, 0)));
}

#[test]
fn mod_returns_its_health() {
    assert_eq!(*under_test().health(), Health::new(Scalar::new(10, 0)));
}

#[test]
fn returns_its_monster_type() {
    assert_eq!(*under_test().monster_type(), monster_type());
}

#[test]
fn monster_health_is_affected_by_damage() {
    let mut monster = under_test();
    monster.receive_damage(Damage::new(Scalar::new(5, 0)));

    assert_eq!(*monster.health(), Health::new(Scalar::new(5, 0)));
}

#[test]
fn mod_health_is_affected_by_damage() {
    let mut monster = under_test();
    monster.receive_damage(Damage::new(Scalar::new(5, 0)));

    assert_eq!(*monster.health(), Health::new(Scalar::new(5, 0)));
}

#[test]
fn monster_damage_cannot_lower_health_below_zero() {
    let mut monster = under_test();
    monster.receive_damage(Damage::new(Scalar::new(15, 0)));

    assert_eq!(*monster.health(), Health::new(Scalar::new(0, 0)));
}

#[test]
fn mod_damage_cannot_lower_health_below_zero() {
    let mut monster = under_test();
    monster.receive_damage(Damage::new(Scalar::new(15, 0)));

    assert_eq!(*monster.health(), Health::new(Scalar::new(0, 0)));
}

#[test]
fn monster_negative_damage_adds_to_health() {
    let mut monster = under_test();
    monster.receive_damage(Damage::new(Scalar::new(-5, 0)));

    assert_eq!(*monster.health(), Health::new(Scalar::new(15, 0)));
}

#[test]
fn mod_negative_damage_adds_to_health() {
    let mut monster = under_test();
    monster.receive_damage(Damage::new(Scalar::new(-5, 0)));

    assert_eq!(*monster.health(), Health::new(Scalar::new(15, 0)));
}

#[test]
fn returns_a_primary_element() {
    assert_eq!(
        *MonsterType::new(Element::Normal, None).primary_element(),
        Element::Normal
    );
}

#[test]
fn returns_present_optional_secondary_element() {
    assert_eq!(
        *MonsterType::new(Element::Normal, Some(Element::Normal))
            .secondary_element()
            .unwrap(),
        Element::Normal
    );
}

#[test]
fn returns_missing_optional_secondary_element() {
    assert!(MonsterType::new(Element::Normal, None)
        .secondary_element()
        .is_none());
}

#[test]
fn damage_at_a_finer_scale_subtracts_exactly() {
    // 10 minus 7.5 is exactly 2.5, kept at the finer scale.
    let mut monster = under_test();
    monster.receive_damage(Damage::new(Scalar::new(75, 1)));

    assert_eq!(*monster.health(), Health::new(Scalar::new(25, 1)));
}

#[test]
fn multipliers_combine_multiplicatively() {
    // 1.5 x 0.25 = 0.375 exactly.
    let stab = DamageMultiplier::new(Scalar::new(15, 1));
    let quarter = DamageMultiplier::new(Scalar::new(25, 2));

    assert_eq!(
        stab.combined_with(quarter),
        DamageMultiplier::new(Scalar::new(375, 3))
    );
}

#[test]
fn multiplier_combination_is_order_independent() {
    let half = DamageMultiplier::new(Scalar::new(5, 1));
    let stab = DamageMultiplier::new(Scalar::new(15, 1));
    let double = DamageMultiplier::new(Scalar::new(2, 0));

    let grouped_left = half.combined_with(stab).combined_with(double);
    let grouped_right = half.combined_with(stab.combined_with(double));
    let reordered = double.combined_with(stab).combined_with(half);

    assert_eq!(grouped_left, DamageMultiplier::new(Scalar::new(150, 2)));
    assert_eq!(grouped_left, grouped_right);
    assert_eq!(grouped_left, reordered);
}
