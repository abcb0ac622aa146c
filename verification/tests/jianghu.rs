use fewfc::domain::{
    CardInstanceId, Element, GameError, JianghuState, JianghuStateKind, Player, PlayerId, ProfessionId,
    TeamId, ValidationError,
};
use fewfc::rules::hero::FIRST_WANDERER_ID;
use fewfc::rules::jianghu::{
    can_use_profession_formation, change_matches, dual_element_minimums, effective_ability_summaries,
    extreme_yang_applies, formation_specs, halves_incoming_damage, has_state,
    ignores_other_formation_effects, is_profession_formation, modify_attack_points,
    playable_profession_changes, player_has_poison, profession_catalog_entries,
    profession_formation_summaries, state_reductions, team_has_poison, validate_profession_change,
    UsedCardLevel, BOOK_IMMORTAL_ID, FAN_BEYOND_HEAVEN, FLOWING_SHADOW_CLOUD_BREAKING,
    FLOWING_SHADOW_SWORD, INK_SEEKER_ID, KING_YAMA_DECREE, LINGERING_FROST_HAND, LONE_WANDERER_ID,
    POISONER_ID, POISON_DART, POISON_SAINT_ID, POISON_SMOKE, QI_CULTIVATOR_ID, QI_GRANDMASTER_ID,
    SNOW_TREADING_REFLECTED_MOON, SNOW_TREADING_SWORD_ART, SWORDSMAN_ID, SWORD_SAGE_ID,
    THOUSAND_BLADES_FLYING_FEATHER, THOUSAND_BLADES_SWORD_ART, THOUSAND_POISON_HAND, WATER_DOTTING_FAN,
    WIND_RIDING_FAN,
};
use fewfc::rules::matcher::SubmittedCardFacts;
use fewfc::rules::registry::{AttackCategory, PointFormula};

fn facts(cards: &[(Element, u32)]) -> Vec<SubmittedCardFacts> {
    cards.iter().map(|(element, level)| SubmittedCardFacts { element: *element, level: *level }).collect()
}

fn state(owner: &str, kind: JianghuStateKind, remaining_turns: u32) -> JianghuState {
    JianghuState {
        owner: PlayerId::new(owner),
        kind,
        remaining_turns,
        expires_on_turn: Some(9),
        last_resolved_turn: None,
    }
}

fn used(element: Element, level: u32) -> UsedCardLevel {
    UsedCardLevel { element: Some(element), level: Some(level) }
}

#[test]
fn jianghu_catalog_contains_every_published_profession_and_formation() {
    let professions = profession_catalog_entries()
        .into_iter()
        .map(|entry| entry.id.as_str().to_string())
        .collect::<Vec<_>>();
    assert_eq!(
        professions,
        [
            LONE_WANDERER_ID,
            SWORDSMAN_ID,
            SWORD_SAGE_ID,
            QI_CULTIVATOR_ID,
            QI_GRANDMASTER_ID,
            INK_SEEKER_ID,
            BOOK_IMMORTAL_ID,
            POISONER_ID,
            POISON_SAINT_ID,
        ]
    );

    let formations = formation_specs().into_iter().map(|spec| spec.formation.id).collect::<Vec<_>>();
    assert_eq!(
        formations,
        [
            THOUSAND_BLADES_SWORD_ART,
            SNOW_TREADING_SWORD_ART,
            FLOWING_SHADOW_SWORD,
            THOUSAND_BLADES_FLYING_FEATHER,
            SNOW_TREADING_REFLECTED_MOON,
            FLOWING_SHADOW_CLOUD_BREAKING,
            WATER_DOTTING_FAN,
            WIND_RIDING_FAN,
            FAN_BEYOND_HEAVEN,
            POISON_DART,
            POISON_SMOKE,
            THOUSAND_POISON_HAND,
            LINGERING_FROST_HAND,
            KING_YAMA_DECREE,
        ]
    );
}

#[test]
fn lone_wanderers_start_from_one_level_three_card() {
    let target = ProfessionId::new(LONE_WANDERER_ID);
    assert!(change_matches(None, &target, &facts(&[(Element::Wood, 3)])));
    assert!(!change_matches(None, &target, &facts(&[(Element::Wood, 2)])));
    assert!(!change_matches(None, &target, &facts(&[(Element::Wood, 3), (Element::Fire, 3)])));
}

#[test]
fn swordsmen_need_metal_and_water_from_a_wanderer() {
    let target = ProfessionId::new(SWORDSMAN_ID);
    let first = ProfessionId::new(FIRST_WANDERER_ID);
    let lone = ProfessionId::new(LONE_WANDERER_ID);
    let good = facts(&[(Element::Metal, 3), (Element::Water, 1), (Element::Water, 2)]);
    assert!(change_matches(Some(&first), &target, &good));
    assert!(change_matches(Some(&lone), &target, &good));
    assert!(!change_matches(None, &target, &good));
    assert!(!change_matches(Some(&first), &target, &facts(&[(Element::Metal, 3), (Element::Water, 2)])));
    assert!(!change_matches(
        Some(&first),
        &target,
        &facts(&[(Element::Metal, 3), (Element::Water, 3), (Element::Fire, 1)])
    ));
    let sage = ProfessionId::new(SWORD_SAGE_ID);
    let swordsman = ProfessionId::new(SWORDSMAN_ID);
    assert!(change_matches(Some(&swordsman), &sage, &facts(&[(Element::Metal, 5), (Element::Water, 5)])));
    assert!(!change_matches(Some(&swordsman), &sage, &good));
}

#[test]
fn ink_seekers_and_poisoners_follow_their_pairs() {
    let lone = ProfessionId::new(LONE_WANDERER_ID);
    let seeker = ProfessionId::new(INK_SEEKER_ID);
    assert!(change_matches(Some(&lone), &seeker, &facts(&[(Element::Fire, 4), (Element::Fire, 4)])));
    assert!(!change_matches(Some(&lone), &seeker, &facts(&[(Element::Fire, 4), (Element::Wood, 4)])));
    assert!(!change_matches(Some(&lone), &seeker, &facts(&[(Element::Fire, 2), (Element::Fire, 2)])));
    let immortal = ProfessionId::new(BOOK_IMMORTAL_ID);
    assert!(change_matches(Some(&seeker), &immortal, &facts(&[(Element::Earth, 5), (Element::Earth, 5)])));
    let poisoner = ProfessionId::new(POISONER_ID);
    assert!(change_matches(Some(&lone), &poisoner, &facts(&[(Element::Earth, 1), (Element::Metal, 1)])));
    assert!(!change_matches(Some(&lone), &poisoner, &facts(&[(Element::Earth, 1), (Element::Earth, 1)])));
    let saint = ProfessionId::new(POISON_SAINT_ID);
    assert!(change_matches(
        Some(&poisoner),
        &saint,
        &facts(&[(Element::Earth, 1), (Element::Metal, 1), (Element::Water, 1)])
    ));
    assert!(!change_matches(
        Some(&poisoner),
        &saint,
        &facts(&[(Element::Earth, 1), (Element::Metal, 1), (Element::Earth, 1)])
    ));
}

#[test]
fn dual_minimums_need_only_the_two_elements() {
    let both = facts(&[(Element::Wood, 2), (Element::Wood, 1), (Element::Fire, 3)]);
    assert!(dual_element_minimums(&both, Element::Wood, 3, Element::Fire, 3));
    assert!(!dual_element_minimums(&both, Element::Wood, 4, Element::Fire, 3));
    assert!(!dual_element_minimums(&[], Element::Wood, 0, Element::Fire, 0));
}

#[test]
fn refused_jianghu_change_names_the_profession() {
    let target = ProfessionId::new(QI_GRANDMASTER_ID);
    let cultivator = ProfessionId::new(QI_CULTIVATOR_ID);
    let good = facts(&[(Element::Wood, 5), (Element::Fire, 5)]);
    assert_eq!(validate_profession_change(Some(&cultivator), &target, &good), Ok(()));
    assert_eq!(
        validate_profession_change(None, &target, &good),
        Err(GameError::Validation(ValidationError::ProfessionChangePatternMismatch { profession: target.clone() }))
    );
}

#[test]
fn playable_jianghu_changes_offer_the_lone_wanderer() {
    let cards = [CardInstanceId::new(3)];
    let offered = playable_profession_changes(true, None, &cards, &facts(&[(Element::Water, 3)]));
    assert_eq!(offered.len(), 1);
    assert_eq!(offered[0].profession_id.as_str(), LONE_WANDERER_ID);
    assert_eq!(offered[0].profession_name, "獨行客");
    assert!(playable_profession_changes(false, None, &cards, &facts(&[(Element::Water, 3)])).is_empty());
}

#[test]
fn jianghu_formations_follow_the_profession_lines() {
    assert!(is_profession_formation(POISON_SMOKE));
    assert!(!is_profession_formation("jianghu:unknown"));
    let swordsman = ProfessionId::new(SWORDSMAN_ID);
    let sage = ProfessionId::new(SWORD_SAGE_ID);
    assert!(can_use_profession_formation(Some(&swordsman), &[swordsman.clone()], THOUSAND_BLADES_SWORD_ART));
    assert!(!can_use_profession_formation(Some(&swordsman), &[swordsman.clone()], THOUSAND_BLADES_FLYING_FEATHER));
    assert!(can_use_profession_formation(Some(&sage), &[sage.clone(), swordsman.clone()], THOUSAND_BLADES_FLYING_FEATHER));
    assert!(can_use_profession_formation(Some(&sage), &[sage.clone(), swordsman.clone()], SNOW_TREADING_SWORD_ART));
    assert!(!can_use_profession_formation(None, &[], POISON_DART));
    let summaries = profession_formation_summaries(&swordsman, &[swordsman.clone()]);
    assert_eq!(summaries.len(), 3);
}

#[test]
fn lasting_states_are_found_by_owner_and_kind() {
    let states = [state("p1", JianghuStateKind::Poison, 2), state("p2", JianghuStateKind::SnowTreading, 1)];
    let p1 = PlayerId::new("p1");
    let p2 = PlayerId::new("p2");
    assert!(player_has_poison(&states, &p1));
    assert!(!player_has_poison(&states, &p2));
    assert!(has_state(&states, &p2, JianghuStateKind::SnowTreading));
    assert!(ignores_other_formation_effects(&states, &p2));
    assert!(!ignores_other_formation_effects(&states, &p1));
    let players = [
        Player { id: PlayerId::new("p1"), team: TeamId::new("a") },
        Player { id: PlayerId::new("p2"), team: TeamId::new("b") },
    ];
    assert!(team_has_poison(&states, &players, &TeamId::new("a")));
    assert!(!team_has_poison(&states, &players, &TeamId::new("b")));
}

#[test]
fn poison_loses_a_turn_at_the_end_of_its_owners_turn() {
    let states = [
        state("p1", JianghuStateKind::Poison, 2),
        state("p2", JianghuStateKind::Poison, 1),
        state("p1", JianghuStateKind::ThousandBlades, 1),
        state("p1", JianghuStateKind::Poison, 0),
    ];
    let reductions = state_reductions(true, &states, &PlayerId::new("p1"));
    assert_eq!(
        reductions.iter().map(|r| (r.kind, r.old_remaining_turns, r.new_remaining_turns)).collect::<Vec<_>>(),
        vec![
            (JianghuStateKind::Poison, 2, 1),
            (JianghuStateKind::ThousandBlades, 1, 1),
            (JianghuStateKind::Poison, 0, 0),
        ]
    );
    assert!(reductions.iter().all(|r| r.old_expires_on_turn == Some(9) && r.new_expires_on_turn.is_none()));
    assert!(state_reductions(false, &states, &PlayerId::new("p1")).is_empty());
}

#[test]
fn yang_aura_halves_only_wood_and_fire_damage() {
    assert!(halves_incoming_damage(false, AttackCategory::Elemental(Element::Wood), true));
    assert!(!halves_incoming_damage(true, AttackCategory::Elemental(Element::Fire), true));
    assert!(!halves_incoming_damage(false, AttackCategory::Elemental(Element::Metal), true));
    assert!(!halves_incoming_damage(false, AttackCategory::Elemental(Element::Fire), false));
}

#[test]
fn yang_force_adds_fifteen_to_five_streams_unite() {
    assert_eq!(
        modify_attack_points(&["jianghu:pure-yang-force"], false, "five-streams-unite", PointFormula::Fixed(0), &[], 20),
        35
    );
    assert_eq!(modify_attack_points(&[], false, "five-streams-unite", PointFormula::Fixed(0), &[], 20), 20);
    assert_eq!(
        modify_attack_points(&["jianghu:pure-yang-force"], false, "weapon", PointFormula::Fixed(0), &[], 20),
        20
    );
    assert!(extreme_yang_applies("five-streams-unite", &["jianghu:extreme-yang-force"]));
    assert!(!extreme_yang_applies("five-streams-unite", &["jianghu:pure-yang-force"]));
}

#[test]
fn thousand_blades_raise_each_low_card() {
    let cards = [used(Element::Metal, 2), used(Element::Water, 5), used(Element::Metal, 4)];
    assert_eq!(
        modify_attack_points(&[], false, THOUSAND_BLADES_SWORD_ART, PointFormula::LevelSumTimes(3), &cards, 10),
        16
    );
    assert_eq!(modify_attack_points(&[], true, "weapon", PointFormula::LevelPlus(2), &cards, 10), 11);
    assert_eq!(modify_attack_points(&[], false, "weapon", PointFormula::LevelPlus(2), &cards, 10), 10);
    assert_eq!(
        modify_attack_points(
            &[],
            true,
            "weapon",
            PointFormula::ElementProductTimes { element: Element::Metal, multiplier: 4 },
            &cards,
            10
        ),
        18
    );
    let unknown = [UsedCardLevel { element: Some(Element::Metal), level: None }];
    assert_eq!(modify_attack_points(&[], true, "weapon", PointFormula::LevelSumTimes(3), &unknown, 10), 10);
    assert_eq!(modify_attack_points(&[], true, "weapon", PointFormula::Fixed(7), &cards, 10), 10);
}

#[test]
fn jianghu_ability_summaries_keep_only_its_abilities() {
    let summaries = effective_ability_summaries(&["jianghu:poison-mastery", "dark:dark-realm"]);
    assert_eq!(summaries, vec!["毒絕：自己造成的中毒每回合扣１５點生命"]);
}
