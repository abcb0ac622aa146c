use fewfc::domain::{CardInstanceId, Element, GameError, PlayerId, TeamId, ValidationError};
use fewfc::rules::attack::{
    attack_hp_request, attack_point_breakdown, formation_hp_request,
    formation_hp_request_without_team_poison, compute_attack_points, elemental_attack_element,
    attacker_share, defender_damage, elemental_context_update, generates, hp_change, preview_attack_points, AttackerBonuses, overcomes, shield_absorption, AttackCard, DamageTransform,
    ElementInteraction, EnvironmentAttackEffect, HpChangeRequest, LastElementalAttack,
};
use fewfc::rules::hero::{IncomingDamageModifier, ProfessionAbility};
use fewfc::rules::matcher::SubmittedCardFacts;
use fewfc::rules::registry::{AttackCategory, PointFormula};

fn card(id: u64, element: Element, level: u32) -> AttackCard {
    AttackCard {
        card: CardInstanceId::new(id),
        printed: Some(element),
        level: Some(level),
        effective: Some(SubmittedCardFacts { element, level }),
    }
}

#[test]
fn level_sum_formula_sums_submitted_card_levels() {
    let cards = [card(1, Element::Metal, 3), card(2, Element::Wood, 2)];
    assert_eq!(
        compute_attack_points(PointFormula::LevelSumTimes(1), &cards, &[], &PlayerId::new("p2"), Some(0)),
        Ok(5)
    );
}

#[test]
fn level_formulas_add_the_virtual_card_and_refuse_unknown_levels() {
    let cards = [card(1, Element::Metal, 3), card(2, Element::Wood, 2)];
    let virtuals = [Some(SubmittedCardFacts { element: Element::Fire, level: 4 })];
    assert_eq!(compute_attack_points(PointFormula::LevelPlus(10), &cards, &virtuals, &PlayerId::new("p2"), None), Ok(19));
    assert_eq!(compute_attack_points(PointFormula::LevelSumTimes(3), &cards, &virtuals, &PlayerId::new("p2"), None), Ok(27));
    let unknown = [card(1, Element::Metal, 3), AttackCard { card: CardInstanceId::new(7), printed: None, level: None, effective: None }];
    assert_eq!(
        compute_attack_points(PointFormula::LevelPlus(1), &unknown, &[], &PlayerId::new("p2"), None),
        Err(GameError::Validation(ValidationError::MissingCardInstanceDefinition(CardInstanceId::new(7))))
    );
    assert_eq!(compute_attack_points(PointFormula::Fixed(12), &unknown, &[], &PlayerId::new("p2"), None), Ok(12));
}

#[test]
fn hand_and_product_formulas_follow_the_rulebook() {
    let target = PlayerId::new("p2");
    assert_eq!(compute_attack_points(PointFormula::TargetHandCountTimes(4), &[], &[], &target, Some(3)), Ok(12));
    assert_eq!(
        compute_attack_points(PointFormula::TargetHandCountTimes(4), &[], &[], &target, None),
        Err(GameError::Validation(ValidationError::UnknownPlayer(target.clone())))
    );
    let cards = [card(1, Element::Fire, 3), card(2, Element::Fire, 4), card(3, Element::Wood, 5)];
    let fire = PointFormula::ElementProductTimes { element: Element::Fire, multiplier: 5 };
    assert_eq!(compute_attack_points(fire, &cards, &[], &target, None), Ok(60));
    let virtuals = [None, Some(SubmittedCardFacts { element: Element::Fire, level: 2 })];
    assert_eq!(compute_attack_points(fire, &cards, &virtuals, &target, None), Ok(120));
    let water = PointFormula::ElementProductTimes { element: Element::Water, multiplier: 5 };
    assert_eq!(compute_attack_points(water, &cards, &[], &target, None), Ok(5));
}

#[test]
fn elements_generate_and_overcome_in_one_direction() {
    assert!(generates(Element::Metal, Element::Water));
    assert!(!generates(Element::Water, Element::Metal));
    assert!(overcomes(Element::Fire, Element::Metal));
    assert!(!overcomes(Element::Metal, Element::Fire));
    assert_eq!(elemental_attack_element(AttackCategory::Elemental(Element::Earth)), Some(Element::Earth));
    assert_eq!(elemental_attack_element(AttackCategory::Physical), None);
}

#[test]
fn physical_attacks_keep_their_points() {
    let b = attack_point_breakdown(AttackCategory::Physical, true, Some(Element::Fire), Some(Element::Fire), 9, false, false, false);
    assert_eq!(b.final_amount, 9);
    assert_eq!(b.environment_effect, EnvironmentAttackEffect::Unaffected);
    assert_eq!(b.interaction, ElementInteraction::Unrelated);
    assert_eq!(b.damage_transform, DamageTransform::NormalDamage);
}

#[test]
fn the_environment_doubles_its_own_element_and_heals_what_generates_it() {
    let fire = AttackCategory::Elemental(Element::Fire);
    let doubled = attack_point_breakdown(fire, true, Some(Element::Fire), None, 9, false, false, false);
    assert_eq!(doubled.final_amount, 18);
    assert_eq!(
        doubled.environment_effect,
        EnvironmentAttackEffect::MatchingElementDamageDoubled { environment: Element::Fire }
    );
    assert_eq!(attack_point_breakdown(fire, false, Some(Element::Fire), None, 9, false, false, false).final_amount, 9);
    assert_eq!(attack_point_breakdown(fire, true, Some(Element::Fire), None, 9, false, false, true).final_amount, 9);
    let healing = attack_point_breakdown(fire, true, Some(Element::Earth), None, 9, false, false, false);
    assert_eq!(healing.damage_transform, DamageTransform::HealTarget);
    assert_eq!(healing.final_amount, 9);
    let prevented = attack_point_breakdown(fire, true, Some(Element::Earth), None, 9, false, true, false);
    assert_eq!(prevented.damage_transform, DamageTransform::NormalDamage);
}

#[test]
fn the_previous_element_halves_heals_or_doubles() {
    let metal = AttackCategory::Elemental(Element::Metal);
    let same = attack_point_breakdown(metal, false, None, Some(Element::Metal), 9, false, false, false);
    assert_eq!((same.interaction, same.damage_transform, same.final_amount), (ElementInteraction::Same, DamageTransform::HalfDamageRoundUp, 5));
    let generating = attack_point_breakdown(metal, false, None, Some(Element::Water), 9, false, false, false);
    assert_eq!((generating.interaction, generating.damage_transform, generating.final_amount), (ElementInteraction::Generating, DamageTransform::HealTarget, 9));
    let overcoming = attack_point_breakdown(metal, false, None, Some(Element::Wood), 9, false, false, false);
    assert_eq!((overcoming.interaction, overcoming.damage_transform, overcoming.final_amount), (ElementInteraction::Overcoming, DamageTransform::DoubleDamage, 18));
    let skipped = attack_point_breakdown(metal, false, None, Some(Element::Wood), 9, true, false, false);
    assert_eq!((skipped.interaction, skipped.final_amount), (ElementInteraction::Unrelated, 9));
    let both = attack_point_breakdown(metal, true, Some(Element::Water), Some(Element::Wood), 9, false, false, false);
    assert_eq!((both.damage_transform, both.final_amount), (DamageTransform::HealTarget, 18));
}

#[test]
fn shields_absorb_damage_down_to_zero() {
    let p = PlayerId::new("p1");
    let d = shield_absorption(&p, Some(10), 4).unwrap();
    assert_eq!((d.old_value, d.delta, d.new_value), (10, -4, 6));
    assert_eq!(shield_absorption(&p, Some(3), 8).unwrap().new_value, 0);
    assert!(shield_absorption(&p, Some(0), 8).is_none());
    assert!(shield_absorption(&p, None, 8).is_none());
}

#[test]
fn healing_is_prevented_on_a_poisoned_team() {
    assert_eq!(attack_hp_request(DamageTransform::HealTarget, false, 7), HpChangeRequest::By(7));
    assert_eq!(attack_hp_request(DamageTransform::HealTarget, true, 7), HpChangeRequest::Prevented(7));
    assert_eq!(attack_hp_request(DamageTransform::DoubleDamage, true, 7), HpChangeRequest::By(-7));
}

#[test]
fn only_elemental_attacks_update_the_elemental_context() {
    assert_eq!(
        elemental_context_update(AttackCategory::Elemental(Element::Water), 4),
        Some(LastElementalAttack { element: Element::Water, resolved_turn: 4 })
    );
    assert_eq!(elemental_context_update(AttackCategory::Special, 4), None);
}

#[test]
fn formation_recoveries_are_prevented_by_gale_rain_and_poison() {
    assert_eq!(formation_hp_request(false, false, false, 10), HpChangeRequest::By(10));
    assert_eq!(formation_hp_request(false, false, true, 10), HpChangeRequest::Prevented(10));
    assert_eq!(formation_hp_request(false, false, true, -10), HpChangeRequest::By(-10));
    assert_eq!(formation_hp_request(false, true, false, 10), HpChangeRequest::Prevented(10));
    assert_eq!(formation_hp_request(true, false, false, -10), HpChangeRequest::Prevented(-10));
    assert_eq!(formation_hp_request_without_team_poison(false, false, 10), HpChangeRequest::By(10));
}

fn plain_attacker() -> AttackerBonuses {
    AttackerBonuses {
        jianghu_abilities: vec![],
        thousand_blades: false,
        berserk: false,
        suppressed: false,
        hero_abilities: vec![],
    }
}

#[test]
fn the_preview_applies_every_profession_bonus_in_turn() {
    let target = PlayerId::new("p2");
    let metals = [card(1, Element::Metal, 3), card(2, Element::Metal, 3)];
    let formula = PointFormula::LevelSumTimes(2);
    assert_eq!(preview_attack_points(formula, "weapon", &metals, &[], &target, None, &plain_attacker()), Ok(12));
    let berserk = AttackerBonuses { berserk: true, ..plain_attacker() };
    assert_eq!(preview_attack_points(formula, "weapon", &metals, &[], &target, None, &berserk), Ok(24));
    let four = [
        card(1, Element::Metal, 3),
        card(2, Element::Wood, 3),
        card(3, Element::Water, 3),
        card(4, Element::Fire, 3),
    ];
    let yang = AttackerBonuses {
        jianghu_abilities: vec!["jianghu:pure-yang-force"],
        hero_abilities: vec![ProfessionAbility::FiveStreamsUniteProficiency],
        ..plain_attacker()
    };
    assert_eq!(preview_attack_points(PointFormula::Fixed(30), "five-streams-unite", &four, &[], &target, None, &yang), Ok(30));
    let yang_only = AttackerBonuses { jianghu_abilities: vec!["jianghu:pure-yang-force"], ..plain_attacker() };
    assert_eq!(preview_attack_points(PointFormula::Fixed(30), "five-streams-unite", &four, &[], &target, None, &yang_only), Ok(45));
    assert_eq!(
        preview_attack_points(PointFormula::TargetHandCountTimes(2), "weapon", &metals, &[], &target, None, &berserk),
        Err(GameError::Validation(ValidationError::UnknownPlayer(target.clone())))
    );
}

#[test]
fn life_changes_stay_between_zero_and_the_initial_life() {
    let team = TeamId::new("red");
    let d = hp_change(&team, Some(30), Some(40), 25).unwrap();
    assert_eq!((d.old_hp, d.delta, d.new_hp, d.effective_delta), (30, 25, 40, 10));
    let d = hp_change(&team, Some(5), Some(40), -20).unwrap();
    assert_eq!((d.new_hp, d.effective_delta), (0, -5));
    assert_eq!(
        hp_change(&team, None, Some(40), 5),
        Err(GameError::Validation(ValidationError::MissingTeamHp(team.clone())))
    );
}

#[test]
fn the_defender_takes_what_protections_leave() {
    use_defender_cases();
}

fn use_defender_cases() {
    let n = DamageTransform::NormalDamage;
    // No protection: the whole amount; a physical attack hits a shield twice as hard.
    assert_eq!(
        defender_damage(AttackCategory::Physical, 9, n, false, IncomingDamageModifier::Unchanged, false, false, false, false, false, false),
        (9, 18)
    );
    // A profession halves, rounding half up, and a Jianghu state halves again.
    assert_eq!(
        defender_damage(AttackCategory::Special, 9, n, false, IncomingDamageModifier::HalfRoundUp, true, false, false, false, false, false),
        (3, 3)
    );
    // A shield on the target keeps the protections from applying.
    assert_eq!(
        defender_damage(AttackCategory::Special, 9, n, true, IncomingDamageModifier::Prevent, true, false, false, false, false, true),
        (9, 9)
    );
    // Shared damage is split, and a tribulation takes twenty off, never below zero.
    assert_eq!(
        defender_damage(AttackCategory::Elemental(Element::Fire), 45, n, false, IncomingDamageModifier::Unchanged, false, true, false, false, false, true),
        (3, 3)
    );
    assert_eq!(
        defender_damage(AttackCategory::Special, 30, n, false, IncomingDamageModifier::Unchanged, false, false, false, false, false, true),
        (10, 10)
    );
    assert_eq!(
        defender_damage(AttackCategory::Special, 15, n, false, IncomingDamageModifier::Unchanged, false, false, false, false, false, true),
        (0, 0)
    );
    // A totem split in a doubling environment doubles the half of a side that is not exempt.
    assert_eq!(
        defender_damage(AttackCategory::Elemental(Element::Wood), 7, n, false, IncomingDamageModifier::Unchanged, false, false, true, true, false, false),
        (8, 8)
    );
    assert_eq!(
        defender_damage(AttackCategory::Elemental(Element::Wood), 7, n, false, IncomingDamageModifier::Unchanged, false, false, true, true, true, false),
        (4, 4)
    );
    // Healing is never halved by a Jianghu state.
    assert_eq!(
        defender_damage(AttackCategory::Special, 8, DamageTransform::HealTarget, false, IncomingDamageModifier::Unchanged, true, false, false, false, false, false),
        (8, 8)
    );
}

#[test]
fn the_attacker_takes_half_of_shared_damage() {
    assert_eq!(attacker_share(9, false, false, false, false), 5);
    assert_eq!(attacker_share(9, true, true, false, false), 10);
    assert_eq!(attacker_share(9, true, true, true, false), 5);
    assert_eq!(attacker_share(50, false, false, false, true), 5);
    assert_eq!(attacker_share(30, false, false, false, true), 0);
}
