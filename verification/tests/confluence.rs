use fewfc::domain::{
    CardInstanceId, ConfluenceCardObligation, Element, GameError, LimitedUse, PlayerId, ProfessionId,
    ValidationError,
};
use fewfc::rules::confluence::{
    active_tuning_obligation, can_use_profession_formation, change_matches, consecutive_levels,
    effective_ability_summaries, formation_available_for_selection, formation_matches,
    formation_selection_satisfies_obligation, formation_specs, is_profession_formation, limited_use,
    playable_profession_changes, profession_catalog_entries, profession_change_satisfies_obligation,
    tuning_formation_available, validate_profession_change, void_realm_protects, BLAZE_RESONANCE, CLEAR_WIND_ADEPT_ID,
    CLEAR_WIND_ENVOY_ID, CLEAR_WIND_TEN_THOUSAND_MILES, DAO_MAGE_ID, DAO_SAINT_ID, EARTH_RESONANCE,
    ENDLESS_ARRAY, FOREST_RESONANCE, HEAVENLY_RESONATOR_ID, IMPRISONING_ARRAY, IMPRISONING_ARRAY_USE,
    MIRROR_RESONANCE, MYRIAD_RESONANCE, STREAM_RESONANCE, STRING_CHANGER_ID, THOUSAND_RESONANCE,
    TUNER_ID, VOID_BARRIER, VOID_DESTROYER_ID, VOID_REALM_USE, VOID_RETURN_TO_NOTHING, VOID_SEEKER_ID,
    WIND_DANCE,
};
use fewfc::rules::hero::{MAGE_ID, SEEKER_ID};
use fewfc::rules::matcher::SubmittedCardFacts;

fn facts(cards: &[(Element, u32)]) -> Vec<SubmittedCardFacts> {
    cards.iter().map(|(element, level)| SubmittedCardFacts { element: *element, level: *level }).collect()
}

fn uses(owner: &str, key: &str, remaining: u32) -> LimitedUse {
    LimitedUse { owner: PlayerId::new(owner), key: key.to_string(), remaining, maximum: 1 }
}

#[test]
fn confluence_catalog_contains_every_published_profession_and_formation() {
    let professions = profession_catalog_entries()
        .into_iter()
        .map(|entry| entry.id.as_str().to_string())
        .collect::<Vec<_>>();
    assert_eq!(
        professions,
        [
            TUNER_ID,
            STRING_CHANGER_ID,
            HEAVENLY_RESONATOR_ID,
            DAO_MAGE_ID,
            DAO_SAINT_ID,
            CLEAR_WIND_ADEPT_ID,
            CLEAR_WIND_ENVOY_ID,
            VOID_SEEKER_ID,
            VOID_DESTROYER_ID,
        ]
    );

    let formations = formation_specs().into_iter().map(|spec| spec.formation.id).collect::<Vec<_>>();
    assert_eq!(
        formations,
        [
            MIRROR_RESONANCE,
            FOREST_RESONANCE,
            STREAM_RESONANCE,
            BLAZE_RESONANCE,
            EARTH_RESONANCE,
            THOUSAND_RESONANCE,
            MYRIAD_RESONANCE,
            IMPRISONING_ARRAY,
            ENDLESS_ARRAY,
            WIND_DANCE,
            CLEAR_WIND_TEN_THOUSAND_MILES,
            VOID_BARRIER,
            VOID_RETURN_TO_NOTHING,
        ]
    );
}

#[test]
fn resonances_pair_a_residual_element_card_with_a_residual_level_card() {
    let metal_residual = Some((Element::Metal, 4));
    let pair = facts(&[(Element::Wood, 4), (Element::Metal, 1)]);
    assert!(formation_matches(MIRROR_RESONANCE, metal_residual, &pair));
    assert!(!formation_matches(MIRROR_RESONANCE, Some((Element::Wood, 4)), &pair));
    assert!(!formation_matches(MIRROR_RESONANCE, None, &pair));
    assert!(!formation_matches(MIRROR_RESONANCE, metal_residual, &facts(&[(Element::Wood, 3), (Element::Metal, 1)])));
    assert!(formation_matches(
        THOUSAND_RESONANCE,
        Some((Element::Fire, 2)),
        &facts(&[(Element::Water, 2), (Element::Fire, 2), (Element::Fire, 5)])
    ));
    assert!(!formation_matches(
        THOUSAND_RESONANCE,
        Some((Element::Fire, 2)),
        &facts(&[(Element::Water, 2), (Element::Fire, 3), (Element::Fire, 5)])
    ));
    let five = facts(&[
        (Element::Metal, 1),
        (Element::Wood, 2),
        (Element::Water, 3),
        (Element::Fire, 4),
        (Element::Earth, 5),
    ]);
    assert!(formation_matches(MYRIAD_RESONANCE, Some((Element::Water, 3)), &five));
    assert!(!formation_matches(MYRIAD_RESONANCE, Some((Element::Water, 4)), &five));
}

#[test]
fn arrays_winds_and_voids_follow_their_patterns() {
    assert!(formation_matches(IMPRISONING_ARRAY, None, &facts(&[(Element::Earth, 5)])));
    assert!(!formation_matches(ENDLESS_ARRAY, None, &facts(&[(Element::Earth, 4)])));
    assert!(formation_matches(WIND_DANCE, None, &facts(&[(Element::Earth, 4), (Element::Fire, 3)])));
    assert!(!formation_matches(WIND_DANCE, None, &facts(&[(Element::Earth, 4), (Element::Fire, 2)])));
    assert!(formation_matches(
        CLEAR_WIND_TEN_THOUSAND_MILES,
        None,
        &facts(&[(Element::Earth, 3), (Element::Fire, 5), (Element::Metal, 2), (Element::Wood, 4)])
    ));
    assert!(formation_matches(VOID_BARRIER, None, &facts(&[(Element::Earth, 2), (Element::Fire, 2), (Element::Metal, 2)])));
    assert!(!formation_matches(VOID_RETURN_TO_NOTHING, None, &facts(&[(Element::Earth, 2), (Element::Fire, 2)])));
    assert!(!formation_matches("weapon", Some((Element::Metal, 1)), &facts(&[(Element::Metal, 1)])));
}

#[test]
fn consecutive_levels_need_distinct_adjacent_levels() {
    assert!(consecutive_levels(&facts(&[(Element::Metal, 2), (Element::Metal, 4), (Element::Metal, 3)]), 3));
    assert!(!consecutive_levels(&facts(&[(Element::Metal, 2), (Element::Metal, 2), (Element::Metal, 3)]), 3));
    assert!(!consecutive_levels(&facts(&[(Element::Metal, 1), (Element::Metal, 3)]), 2));
    assert!(!consecutive_levels(&facts(&[(Element::Metal, 1), (Element::Metal, 2)]), 3));
}

#[test]
fn tuners_change_with_residual_element_cards() {
    let tuner = ProfessionId::new(TUNER_ID);
    let water = facts(&[(Element::Water, 1), (Element::Water, 2)]);
    assert!(change_matches(None, Some((Element::Water, 5)), false, false, &tuner, &water));
    assert!(!change_matches(None, Some((Element::Fire, 5)), false, false, &tuner, &water));
    assert!(!change_matches(None, None, false, false, &tuner, &water));
    let changer = ProfessionId::new(STRING_CHANGER_ID);
    assert!(!change_matches(Some(&tuner), Some((Element::Water, 5)), false, false, &changer, &water));
    assert!(change_matches(
        Some(&tuner),
        Some((Element::Water, 5)),
        false,
        false,
        &changer,
        &facts(&[(Element::Water, 4), (Element::Water, 2)])
    ));
}

#[test]
fn dao_mages_and_saints_change_from_the_hero_line() {
    let mage = ProfessionId::new(DAO_MAGE_ID);
    let seeker = ProfessionId::new(SEEKER_ID);
    let hero_mage = ProfessionId::new(MAGE_ID);
    let fire_six = facts(&[(Element::Fire, 3), (Element::Fire, 3)]);
    let wood_six = facts(&[(Element::Wood, 5), (Element::Wood, 1)]);
    assert!(change_matches(Some(&seeker), None, false, false, &mage, &fire_six));
    assert!(!change_matches(Some(&seeker), None, false, false, &mage, &wood_six));
    assert!(change_matches(Some(&hero_mage), None, false, false, &mage, &wood_six));
    let saint = ProfessionId::new(DAO_SAINT_ID);
    let both = facts(&[(Element::Fire, 5), (Element::Wood, 3), (Element::Wood, 2)]);
    assert!(change_matches(Some(&mage), None, false, false, &saint, &both));
    let with_metal = facts(&[(Element::Fire, 5), (Element::Wood, 5), (Element::Metal, 1)]);
    assert!(!change_matches(Some(&mage), None, false, false, &saint, &with_metal));
}

#[test]
fn void_seekers_need_a_starless_team_and_no_spirit() {
    let target = ProfessionId::new(VOID_SEEKER_ID);
    let triple = facts(&[(Element::Fire, 3), (Element::Wood, 3), (Element::Metal, 3)]);
    assert!(change_matches(None, None, true, false, &target, &triple));
    assert!(!change_matches(None, None, false, false, &target, &triple));
    assert!(!change_matches(None, None, true, true, &target, &triple));
    let ones = facts(&[(Element::Fire, 1), (Element::Wood, 1), (Element::Metal, 1)]);
    assert!(!change_matches(None, None, true, false, &target, &ones));
}

#[test]
fn refused_confluence_change_names_the_profession() {
    let target = ProfessionId::new(CLEAR_WIND_ENVOY_ID);
    let adept = ProfessionId::new(CLEAR_WIND_ADEPT_ID);
    let run = facts(&[(Element::Fire, 1), (Element::Wood, 2), (Element::Metal, 3)]);
    assert_eq!(validate_profession_change(Some(&adept), None, false, false, &target, &run), Ok(()));
    assert_eq!(
        validate_profession_change(None, None, false, false, &target, &run),
        Err(GameError::Validation(ValidationError::ProfessionChangePatternMismatch { profession: target.clone() }))
    );
}

#[test]
fn playable_confluence_changes_offer_the_tuner_with_the_cards() {
    let cards = [CardInstanceId::new(7)];
    let offered = playable_profession_changes(
        true,
        None,
        Some((Element::Earth, 3)),
        false,
        false,
        &cards,
        &facts(&[(Element::Earth, 3)]),
    );
    assert!(offered.iter().any(|c| c.profession_id.as_str() == TUNER_ID && c.cards == vec![CardInstanceId::new(7)]));
    assert!(playable_profession_changes(false, None, Some((Element::Earth, 3)), false, false, &cards, &facts(&[(Element::Earth, 3)]))
        .is_empty());
}

#[test]
fn confluence_profession_formations_are_the_published_ones() {
    assert!(is_profession_formation(WIND_DANCE));
    assert!(!is_profession_formation("confluence:unknown"));
    assert!(!is_profession_formation("weapon"));
    let adept = ProfessionId::new(CLEAR_WIND_ADEPT_ID);
    let envoy = ProfessionId::new(CLEAR_WIND_ENVOY_ID);
    assert!(can_use_profession_formation(Some(&adept), &[adept.clone()], WIND_DANCE));
    assert!(!can_use_profession_formation(None, &[], WIND_DANCE));
    assert!(can_use_profession_formation(Some(&envoy), &[envoy.clone(), adept.clone()], WIND_DANCE));
}

#[test]
fn imprisoning_array_needs_a_remaining_use() {
    assert!(formation_available_for_selection(&[], WIND_DANCE));
    assert!(!formation_available_for_selection(&[], IMPRISONING_ARRAY));
    assert!(formation_available_for_selection(&[uses("p1", IMPRISONING_ARRAY_USE, 1)], IMPRISONING_ARRAY));
    assert!(!formation_available_for_selection(&[uses("p1", IMPRISONING_ARRAY_USE, 0)], IMPRISONING_ARRAY));
}

#[test]
fn limited_uses_are_found_by_owner_and_key() {
    let all = [uses("p1", VOID_REALM_USE, 1), uses("p2", VOID_REALM_USE, 0)];
    let p2 = PlayerId::new("p2");
    assert_eq!(limited_use(&all, &p2, VOID_REALM_USE).map(|u| u.remaining), Some(0));
    assert!(limited_use(&all, &p2, IMPRISONING_ARRAY_USE).is_none());
    let destroyer = ProfessionId::new(VOID_DESTROYER_ID);
    let p1 = PlayerId::new("p1");
    assert!(void_realm_protects(false, Some(&destroyer), &all, &p1));
    assert!(!void_realm_protects(true, Some(&destroyer), &all, &p1));
    assert!(!void_realm_protects(false, Some(&destroyer), &all, &p2));
    assert!(!void_realm_protects(false, None, &all, &p1));
}

#[test]
fn tuning_obligations_bind_the_retrieved_card_this_turn() {
    let card = CardInstanceId::new(9);
    let obligations = [ConfluenceCardObligation {
        owner: PlayerId::new("p1"),
        card,
        allow_profession_formation: false,
        applied_on_turn: 4,
        residual_element: Some(Element::Fire),
        residual_level: Some(2),
    }];
    let p1 = PlayerId::new("p1");
    assert!(active_tuning_obligation(&obligations, &p1, 4).is_some());
    assert!(active_tuning_obligation(&obligations, &p1, 5).is_none());
    assert!(profession_change_satisfies_obligation(&obligations, &p1, 4, &[card]));
    assert!(!profession_change_satisfies_obligation(&obligations, &p1, 4, &[CardInstanceId::new(1)]));
    assert!(profession_change_satisfies_obligation(&obligations, &p1, 5, &[CardInstanceId::new(1)]));
    let active = active_tuning_obligation(&obligations, &p1, 4);
    assert!(!formation_selection_satisfies_obligation(active, WIND_DANCE, &[card]));
    assert!(formation_selection_satisfies_obligation(None, WIND_DANCE, &[]));
    let allowing = ConfluenceCardObligation {
        owner: PlayerId::new("p1"),
        card,
        allow_profession_formation: true,
        applied_on_turn: 4,
        residual_element: None,
        residual_level: None,
    };
    assert!(formation_selection_satisfies_obligation(Some(&allowing), WIND_DANCE, &[card]));
    assert!(!formation_selection_satisfies_obligation(Some(&allowing), "weapon", &[card]));
    assert!(!formation_selection_satisfies_obligation(Some(&allowing), WIND_DANCE, &[CardInstanceId::new(1)]));
}

#[test]
fn tuning_completes_with_a_usable_available_formation() {
    let p1 = PlayerId::new("p1");
    let adept = ProfessionId::new(CLEAR_WIND_ADEPT_ID);
    let run = facts(&[(Element::Fire, 3), (Element::Wood, 4)]);
    assert!(tuning_formation_available(Some(&adept), &[adept.clone()], &[], &p1, None, &run));
    assert!(!tuning_formation_available(None, &[], &[], &p1, None, &run));
    assert!(!tuning_formation_available(Some(&adept), &[adept.clone()], &[], &p1, None, &facts(&[(Element::Fire, 3)])));
    let mage = ProfessionId::new(DAO_MAGE_ID);
    let five = facts(&[(Element::Earth, 5)]);
    assert!(!tuning_formation_available(Some(&mage), &[mage.clone()], &[], &p1, None, &five));
    let remaining = [uses("p1", IMPRISONING_ARRAY_USE, 1)];
    assert!(tuning_formation_available(Some(&mage), &[mage.clone()], &remaining, &p1, None, &five));
    let others = [uses("p2", IMPRISONING_ARRAY_USE, 1)];
    assert!(!tuning_formation_available(Some(&mage), &[mage.clone()], &others, &p1, None, &five));
}

#[test]
fn confluence_ability_summaries_keep_only_its_abilities() {
    let summaries = effective_ability_summaries(&["confluence:tuning", "dark:dark-realm"]);
    assert_eq!(summaries.len(), 1);
}
