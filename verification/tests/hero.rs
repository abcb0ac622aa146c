use fewfc::domain::{CardInstanceId, Element, GameError, ProfessionId, ValidationError};
use fewfc::rules::hero::{
    can_use_profession_formation, catalog, effective_abilities, discard_retrieval_cost, incoming_damage_modifier,
    is_profession_formation, modify_attack_points, playable_profession_changes, profession,
    profession_change_matches, spell_counter_immunity, star_summoning_allowed,
    validate_profession_change, windwalking_applies, IncomingDamageModifier, ProfessionAbility,
    FIRST_WANDERER_ID, HERO_ID, MAGE_ID, SEEKER_ID, WARRIOR_ID, WAR_GOD_ID,
};
use fewfc::rules::matcher::SubmittedCardFacts;
use fewfc::rules::registry::AttackCategory;

fn facts(cards: &[(Element, u32)]) -> Vec<SubmittedCardFacts> {
    cards.iter().map(|(element, level)| SubmittedCardFacts { element: *element, level: *level }).collect()
}

#[test]
fn hero_catalog_starts_with_the_warrior_line() {
    let all = catalog();
    assert_eq!(all.len(), 18);
    assert_eq!(all[0].id.as_str(), WARRIOR_ID);
    assert_eq!(all[1].id.as_str(), WAR_GOD_ID);
    assert_eq!(all[2].id.as_str(), HERO_ID);
    assert!(profession(&ProfessionId::new("nobody")).is_none());
    assert_eq!(profession(&ProfessionId::new(SEEKER_ID)).map(|p| p.id.as_str().to_string()), Some(SEEKER_ID.to_string()));
}

#[test]
fn warriors_change_with_enough_metal() {
    let warrior = profession(&ProfessionId::new(WARRIOR_ID)).unwrap();
    assert!(profession_change_matches(None, &warrior, &facts(&[(Element::Metal, 1), (Element::Metal, 2)])));
    assert!(!profession_change_matches(None, &warrior, &facts(&[(Element::Metal, 2)])));
    assert!(!profession_change_matches(None, &warrior, &facts(&[(Element::Metal, 2), (Element::Fire, 2)])));
}

#[test]
fn refused_hero_changes_say_why() {
    let god = ProfessionId::new(WAR_GOD_ID);
    let metal_six = facts(&[(Element::Metal, 3), (Element::Metal, 3)]);
    assert_eq!(
        validate_profession_change(false, None, &god, &metal_six),
        Err(GameError::Validation(ValidationError::HeroSchoolsDisabled))
    );
    let unknown = ProfessionId::new("nobody");
    assert_eq!(
        validate_profession_change(true, None, &unknown, &metal_six),
        Err(GameError::Validation(ValidationError::UnknownProfession(unknown.clone())))
    );
    assert_eq!(
        validate_profession_change(true, None, &god, &metal_six),
        Err(GameError::Validation(ValidationError::ProfessionPrerequisiteNotMet {
            profession: god.clone(),
            required: ProfessionId::new(WARRIOR_ID),
            actual: None,
        }))
    );
    let warrior = ProfessionId::new(WARRIOR_ID);
    assert_eq!(validate_profession_change(true, Some(&warrior), &god, &metal_six), Ok(()));
    assert_eq!(
        validate_profession_change(true, Some(&warrior), &god, &facts(&[(Element::Metal, 3)])),
        Err(GameError::Validation(ValidationError::ProfessionChangePatternMismatch { profession: god.clone() }))
    );
    let wanderer = ProfessionId::new(FIRST_WANDERER_ID);
    assert_eq!(
        validate_profession_change(true, Some(&wanderer), &god, &facts(&[(Element::Fire, 1), (Element::Metal, 3), (Element::Metal, 3)])),
        Ok(())
    );
    assert_eq!(
        validate_profession_change(true, Some(&wanderer), &god, &metal_six),
        Err(GameError::Validation(ValidationError::ProfessionChangePatternMismatch { profession: god.clone() }))
    );
}

#[test]
fn playable_hero_changes_keep_the_submitted_cards() {
    let cards = [CardInstanceId::new(1), CardInstanceId::new(2)];
    let offered = playable_profession_changes(true, None, &cards, &facts(&[(Element::Metal, 1), (Element::Metal, 2)]));
    assert!(offered.iter().any(|c| c.profession_id.as_str() == WARRIOR_ID));
    assert!(offered.iter().all(|c| c.cards == cards.to_vec()));
    assert!(playable_profession_changes(false, None, &cards, &facts(&[(Element::Metal, 1), (Element::Metal, 2)])).is_empty());
}

#[test]
fn seeker_discount_halves_the_retrieval_cost_rounding_up() {
    assert_eq!(discard_retrieval_cost(&[ProfessionAbility::SeekerDiscount], 6), 3);
    assert_eq!(discard_retrieval_cost(&[ProfessionAbility::SeekerDiscount], 5), 3);
    assert_eq!(discard_retrieval_cost(&[], 5), 5);
    assert_eq!(discard_retrieval_cost(&[ProfessionAbility::SeekerDiscount], -4), -1);
}

#[test]
fn resistances_prevent_or_halve_incoming_damage() {
    assert_eq!(
        incoming_damage_modifier(&[ProfessionAbility::MetalResistance], AttackCategory::Elemental(Element::Metal), true),
        IncomingDamageModifier::Prevent
    );
    assert_eq!(
        incoming_damage_modifier(&[ProfessionAbility::PhysicalDamageResistance], AttackCategory::Physical, true),
        IncomingDamageModifier::HalfRoundUp
    );
    assert_eq!(
        incoming_damage_modifier(&[ProfessionAbility::MetalResistance], AttackCategory::Elemental(Element::Metal), false),
        IncomingDamageModifier::Unchanged
    );
    assert_eq!(
        incoming_damage_modifier(&[ProfessionAbility::MetalResistance], AttackCategory::Elemental(Element::Wood), true),
        IncomingDamageModifier::Unchanged
    );
}

#[test]
fn proficiencies_lower_triple_and_five_streams_attacks() {
    let triple = [Some(Element::Fire), Some(Element::Fire), Some(Element::Water)];
    let abilities = [ProfessionAbility::TripleElementProficiency];
    assert_eq!(modify_attack_points(false, &abilities, "triple-fire", &triple, 10), 4);
    assert_eq!(modify_attack_points(false, &abilities, "triple-fire", &triple, 4), 0);
    assert_eq!(modify_attack_points(true, &abilities, "triple-fire", &triple, 10), 10);
    assert_eq!(modify_attack_points(false, &abilities, "triple-fire", &[Some(Element::Fire), Some(Element::Fire), None], 10), 10);
    let four = [Some(Element::Fire), Some(Element::Wood), Some(Element::Water), Some(Element::Metal)];
    assert_eq!(
        modify_attack_points(false, &[ProfessionAbility::FiveStreamsUniteProficiency], "five-streams-unite", &four, 40),
        25
    );
    assert!(!star_summoning_allowed(false, &abilities, "triple-fire", &triple));
    assert!(star_summoning_allowed(false, &[ProfessionAbility::ArcaneEssence], "triple-fire", &triple));
    assert!(star_summoning_allowed(false, &[], "weapon", &triple));
}

#[test]
fn windwalking_and_spell_protection_need_an_unsuppressed_profession() {
    assert!(windwalking_applies(false, &[ProfessionAbility::Windwalking], 15));
    assert!(!windwalking_applies(false, &[ProfessionAbility::Windwalking], 16));
    assert!(!windwalking_applies(true, &[ProfessionAbility::Windwalking], 5));
    assert!(spell_counter_immunity(false, &[ProfessionAbility::SpellProtection]));
    assert!(!spell_counter_immunity(true, &[ProfessionAbility::SpellProtection]));
}

#[test]
fn hero_formations_follow_the_profession_line() {
    let mage = ProfessionId::new(MAGE_ID);
    assert!(!is_profession_formation("weapon"));
    assert!(!can_use_profession_formation(None, &[], "weapon"));
    assert!(can_use_profession_formation(Some(&mage), &[mage.clone()], "weapon"));
    let god = ProfessionId::new(WAR_GOD_ID);
    let warrior = ProfessionId::new(WARRIOR_ID);
    assert!(can_use_profession_formation(Some(&god), &[god.clone(), warrior.clone()], "divine-weapon"));
    assert!(!can_use_profession_formation(Some(&warrior), &[warrior.clone()], "divine-weapon"));
    assert!(!can_use_profession_formation(Some(&god), &[god.clone(), warrior.clone()], "falling-light-slash"));
    assert!(can_use_profession_formation(None, &[], "void-reversion"));
}

#[test]
fn ability_identities_name_the_catalog_abilities() {
    assert_eq!(
        effective_abilities(&["hero:seeker-discount", "dark:dark-realm", "hero:windwalking"]),
        vec![ProfessionAbility::SeekerDiscount, ProfessionAbility::Windwalking]
    );
    assert!(effective_abilities(&["hero:unknown"]).is_empty());
    assert_eq!(ProfessionAbility::SeekerDiscount.id(), "hero:seeker-discount");
}
