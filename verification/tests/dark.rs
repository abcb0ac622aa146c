use fewfc::domain::{CardInstanceId, Element, GameError, PlayerId, ProfessionId, ValidationError};
use fewfc::rules::dark::{
    can_use_profession_formation, change_matches, effective_ability_summaries,
    formation_action_detail_consequences, formation_matches, formation_specs, ignores_environment,
    is_profession_formation, modify_attack_points, playable_profession_abilities,
    playable_profession_changes, profession_catalog_entries, profession_formation_summaries,
    validate_profession_change, validate_trusted_random_hand_cards, AFTERIMAGE_SLASH,
    BERSERK_AFTERIMAGE_SLASH, DARK_BARRIER, DARK_CHAOS, DARK_CYCLE, DARK_RADIANCE,
    DARK_RETURN_TO_ORIGIN, DARK_SHOCK_BURST, DARK_SPIRIT_ENVOY_ID, DARK_WALKER_ID,
    DEATH_SPIRIT_SUMMONING, DEMON_SPIRIT_MASTER_ID, EVIL_SPIRIT_SUMMONING, SHADOW_BERSERKER_ID,
    SHADOW_WARRIOR_ID,
};
use fewfc::rules::hero::{WARRIOR_ID, WINDWALKER_ID};
use fewfc::rules::matcher::SubmittedCardFacts;

fn facts(cards: &[(Element, u32)]) -> Vec<SubmittedCardFacts> {
    cards.iter().map(|(element, level)| SubmittedCardFacts { element: *element, level: *level }).collect()
}

#[test]
fn dark_catalog_contains_every_published_profession_and_formation() {
    let professions = profession_catalog_entries()
        .into_iter()
        .map(|entry| entry.id.as_str().to_string())
        .collect::<Vec<_>>();
    assert_eq!(
        professions,
        [
            DARK_WALKER_ID,
            DARK_SPIRIT_ENVOY_ID,
            SHADOW_WARRIOR_ID,
            SHADOW_BERSERKER_ID,
            DEMON_SPIRIT_MASTER_ID,
        ]
    );

    let formations = formation_specs().into_iter().map(|spec| spec.formation.id).collect::<Vec<_>>();
    assert_eq!(
        formations,
        [
            DARK_RADIANCE,
            DARK_BARRIER,
            DARK_RETURN_TO_ORIGIN,
            DARK_SHOCK_BURST,
            DARK_CHAOS,
            DARK_CYCLE,
            AFTERIMAGE_SLASH,
            BERSERK_AFTERIMAGE_SLASH,
            EVIL_SPIRIT_SUMMONING,
            DEATH_SPIRIT_SUMMONING,
        ]
    );
}

#[test]
fn dark_walker_needs_no_profession_and_one_low_card() {
    let walker = ProfessionId::new(DARK_WALKER_ID);
    assert!(change_matches(None, false, &walker, &facts(&[(Element::Fire, 2)])));
    assert!(!change_matches(None, false, &walker, &facts(&[(Element::Fire, 3)])));
    let warrior = ProfessionId::new(WARRIOR_ID);
    assert!(!change_matches(Some(&warrior), false, &walker, &facts(&[(Element::Fire, 1)])));
}

#[test]
fn shadow_warrior_depends_on_the_current_profession() {
    let target = ProfessionId::new(SHADOW_WARRIOR_ID);
    let windwalker = ProfessionId::new(WINDWALKER_ID);
    let warrior = ProfessionId::new(WARRIOR_ID);
    let metal_six = facts(&[(Element::Metal, 3), (Element::Metal, 3)]);
    let earth_six = facts(&[(Element::Earth, 4), (Element::Earth, 2)]);
    assert!(change_matches(Some(&windwalker), false, &target, &metal_six));
    assert!(!change_matches(Some(&windwalker), false, &target, &earth_six));
    assert!(change_matches(Some(&warrior), false, &target, &earth_six));
    assert!(!change_matches(None, false, &target, &metal_six));
}

#[test]
fn shadow_berserker_needs_five_levels_of_metal_and_of_earth() {
    let target = ProfessionId::new(SHADOW_BERSERKER_ID);
    let current = ProfessionId::new(SHADOW_WARRIOR_ID);
    let good = facts(&[(Element::Metal, 5), (Element::Earth, 3), (Element::Earth, 2)]);
    let short = facts(&[(Element::Metal, 4), (Element::Earth, 5)]);
    let mixed = facts(&[(Element::Metal, 5), (Element::Earth, 5), (Element::Fire, 1)]);
    assert!(change_matches(Some(&current), false, &target, &good));
    assert!(!change_matches(Some(&current), false, &target, &short));
    assert!(!change_matches(Some(&current), false, &target, &mixed));
}

#[test]
fn demon_spirit_master_needs_a_spirit_and_a_matching_pair() {
    let target = ProfessionId::new(DEMON_SPIRIT_MASTER_ID);
    let pair = facts(&[(Element::Metal, 4), (Element::Wood, 4)]);
    assert!(change_matches(None, true, &target, &pair));
    assert!(!change_matches(None, false, &target, &pair));
    assert!(!change_matches(None, true, &target, &facts(&[(Element::Metal, 3), (Element::Wood, 3)])));
    assert!(!change_matches(None, true, &ProfessionId::new(DARK_SPIRIT_ENVOY_ID), &pair));
}

#[test]
fn refused_profession_change_names_the_profession() {
    let target = ProfessionId::new(DARK_SPIRIT_ENVOY_ID);
    assert_eq!(
        validate_profession_change(None, false, &target, &facts(&[(Element::Metal, 1)])),
        Err(GameError::Validation(ValidationError::ProfessionChangePatternMismatch {
            profession: target.clone()
        }))
    );
    assert_eq!(
        validate_profession_change(None, false, &ProfessionId::new(DARK_WALKER_ID), &facts(&[(Element::Metal, 1)])),
        Ok(())
    );
}

#[test]
fn playable_changes_offer_matching_professions_with_the_cards() {
    let cards = [CardInstanceId::new(4)];
    let offered = playable_profession_changes(true, None, false, &cards, &facts(&[(Element::Water, 1)]));
    assert_eq!(offered.len(), 1);
    assert_eq!(offered[0].profession_id.as_str(), DARK_WALKER_ID);
    assert_eq!(offered[0].profession_name, "暗行者");
    assert_eq!(offered[0].cards, vec![CardInstanceId::new(4)]);
    assert!(playable_profession_changes(false, None, false, &cards, &facts(&[(Element::Water, 1)])).is_empty());
}

#[test]
fn dark_formations_need_exact_elements_and_a_small_level_sum() {
    let radiance = facts(&[(Element::Water, 2), (Element::Metal, 2), (Element::Fire, 3), (Element::Metal, 3)]);
    assert!(formation_matches(DARK_RADIANCE, &radiance));
    let heavy = facts(&[(Element::Water, 5), (Element::Metal, 2), (Element::Fire, 3), (Element::Metal, 3)]);
    assert!(!formation_matches(DARK_RADIANCE, &heavy));
    let cycle = facts(&[(Element::Metal, 1), (Element::Wood, 2), (Element::Water, 2), (Element::Fire, 2), (Element::Earth, 2)]);
    assert!(formation_matches(DARK_CYCLE, &cycle));
    assert!(!formation_matches(DARK_BARRIER, &radiance));
}

#[test]
fn slashes_and_summonings_follow_their_patterns() {
    assert!(formation_matches(AFTERIMAGE_SLASH, &facts(&[(Element::Earth, 1), (Element::Fire, 5)])));
    assert!(!formation_matches(AFTERIMAGE_SLASH, &facts(&[(Element::Metal, 1), (Element::Fire, 5)])));
    assert!(formation_matches(BERSERK_AFTERIMAGE_SLASH, &facts(&[(Element::Earth, 1), (Element::Metal, 3)])));
    assert!(!formation_matches(BERSERK_AFTERIMAGE_SLASH, &facts(&[(Element::Earth, 2), (Element::Metal, 3)])));
    assert!(formation_matches(EVIL_SPIRIT_SUMMONING, &facts(&[(Element::Earth, 2), (Element::Metal, 2)])));
    assert!(formation_matches(DEATH_SPIRIT_SUMMONING, &facts(&[(Element::Earth, 4), (Element::Metal, 4)])));
    assert!(!formation_matches("weapon", &facts(&[(Element::Metal, 1), (Element::Metal, 1)])));
}

#[test]
fn only_dark_chaos_adds_a_random_consequence() {
    assert_eq!(formation_action_detail_consequences(DARK_CHAOS).map(|c| c.len()), Some(1));
    assert!(formation_action_detail_consequences(DARK_RADIANCE).is_none());
}

#[test]
fn profession_formations_are_the_dark_ones() {
    assert!(is_profession_formation(DARK_CYCLE));
    assert!(!is_profession_formation("dark:unknown"));
    assert!(!is_profession_formation("weapon"));
}

#[test]
fn formation_use_follows_the_profession_line() {
    let walker = ProfessionId::new(DARK_WALKER_ID);
    let envoy = ProfessionId::new(DARK_SPIRIT_ENVOY_ID);
    let lineage = [envoy.clone(), walker.clone()];
    assert!(can_use_profession_formation(Some(&envoy), &lineage, DARK_RADIANCE));
    assert!(can_use_profession_formation(Some(&envoy), &lineage, DARK_CYCLE));
    assert!(!can_use_profession_formation(Some(&walker), &[walker.clone()], DARK_CYCLE));
    assert!(!can_use_profession_formation(None, &lineage, DARK_RADIANCE));
    let summaries = profession_formation_summaries(&walker, &[walker.clone()]);
    assert_eq!(summaries.len(), 5);
    assert_eq!(summaries[0].0, "暗黑光芒");
}

#[test]
fn dark_walkers_ignore_the_environment_unless_suppressed() {
    let walker = ProfessionId::new(DARK_WALKER_ID);
    assert!(ignores_environment(false, Some(&walker), DARK_CHAOS));
    assert!(!ignores_environment(true, Some(&walker), DARK_CHAOS));
    assert!(!ignores_environment(false, Some(&walker), AFTERIMAGE_SLASH));
}

#[test]
fn berserk_shadow_doubles_two_metal_weapons() {
    assert_eq!(modify_attack_points(true, "weapon", &[Some(Element::Metal), Some(Element::Metal)], 7), 14);
    assert_eq!(modify_attack_points(false, "weapon", &[Some(Element::Metal), Some(Element::Metal)], 7), 7);
    assert_eq!(modify_attack_points(true, "weapon", &[Some(Element::Metal), None], 7), 7);
    assert_eq!(modify_attack_points(true, AFTERIMAGE_SLASH, &[Some(Element::Earth), Some(Element::Earth)], 8), 16);
}

#[test]
fn trusted_random_selection_is_checked_against_the_hand() {
    let target = PlayerId::new("p2");
    let hand = [CardInstanceId::new(1), CardInstanceId::new(2), CardInstanceId::new(3)];
    let good = [CardInstanceId::new(3), CardInstanceId::new(1)];
    assert_eq!(
        validate_trusted_random_hand_cards(Some(&hand), &target, Some(&good), DARK_CHAOS),
        Ok(good.to_vec())
    );
    assert_eq!(
        validate_trusted_random_hand_cards(Some(&hand), &target, Some(&[CardInstanceId::new(1), CardInstanceId::new(1)]), DARK_CHAOS),
        Err(GameError::Validation(ValidationError::DuplicateChoiceCard(CardInstanceId::new(1))))
    );
    assert_eq!(
        validate_trusted_random_hand_cards(Some(&hand), &target, Some(&[CardInstanceId::new(1), CardInstanceId::new(9)]), DARK_CHAOS),
        Err(GameError::Validation(ValidationError::IllegalChoiceCard(CardInstanceId::new(9))))
    );
    assert_eq!(
        validate_trusted_random_hand_cards(Some(&hand), &target, Some(&[CardInstanceId::new(1)]), DARK_CHAOS),
        Err(GameError::Validation(ValidationError::TrustedRandomSelectionRequired {
            effect_id: DARK_CHAOS.to_string()
        }))
    );
    assert_eq!(
        validate_trusted_random_hand_cards(None, &target, Some(&good), DARK_CHAOS),
        Err(GameError::Validation(ValidationError::UnknownPlayer(target.clone())))
    );
}

#[test]
fn dark_spirit_offers_the_lower_levels() {
    let player = PlayerId::new("p1");
    let card = CardInstanceId::new(5);
    let hand = [card];
    let offered = playable_profession_abilities(&player, &[card], false, true, Some(&hand), Some(3), Some(Element::Fire)).unwrap();
    assert_eq!(offered.iter().map(|c| c.declared_level).collect::<Vec<_>>(), vec![Some(1), Some(2)]);
    assert_eq!(offered[0].target_card, Some(card));
    let low = playable_profession_abilities(&player, &[card], false, true, Some(&hand), Some(2), None).unwrap();
    assert_eq!(low.len(), 1);
    assert!(playable_profession_abilities(&player, &[card], true, true, Some(&hand), Some(3), None).unwrap().is_empty());
    assert_eq!(
        playable_profession_abilities(&player, &[card], false, true, Some(&[]), Some(3), None),
        Err(GameError::Validation(ValidationError::CardNotInHand(card)))
    );
}

#[test]
fn ability_summaries_keep_only_dark_abilities() {
    let summaries = effective_ability_summaries(&["dark:dark-realm", "hero:choice", "dark:berserk-shadow"]);
    assert_eq!(summaries, vec!["暗境：暗黑陣法不因環境無效", "狂影：金金武器與土土殘影斬點數雙倍"]);
}
