use fewfc::domain::{Element, ProfessionId};
use fewfc::rules::catalog::{base_formation_registry, sacred_beast_element};
use fewfc::rules::detail::{
    discard_retrieval_detail, profession_change_detail, secret_strategy_detail, ActionCost,
    ConsequenceCertainty, ImmediateEffect, PlayerFacingActionDetail, RuleConsequence,
    SecretStrategy, SecretStrategyEffect,
};
use fewfc::rules::echo::matches_pure_fire;
use fewfc::rules::hero::{
    is_legendary, matches_initial_profession, matches_proficiency, ProfessionAbility, HERO_ID,
    WARRIOR_ID, WAR_GOD_ID,
};
use fewfc::rules::matcher::{sum_levels, SubmittedCardFacts};

fn facts(cards: &[(Element, u32)]) -> Vec<SubmittedCardFacts> {
    cards.iter().map(|(element, level)| SubmittedCardFacts { element: *element, level: *level }).collect()
}

#[test]
fn pouch_strategies_trigger_their_effect_and_consume_the_pouch() {
    let pouch = secret_strategy_detail(SecretStrategy::GoldenCicada);
    assert_eq!(
        pouch.consequences,
        vec![
            RuleConsequence::ImmediateEffect {
                certainty: ConsequenceCertainty::Guaranteed,
                effect: ImmediateEffect::TriggerSecretStrategy { effect: SecretStrategyEffect::ProtectTriggeringPlayer },
            },
            RuleConsequence::Cost { certainty: ConsequenceCertainty::Guaranteed, cost: ActionCost::ConsumePouch },
        ]
    );
    assert_eq!(secret_strategy_detail(SecretStrategy::SheepStealing).consequences.len(), 2);
}

#[test]
fn discard_retrieval_moves_the_discard_and_costs_life() {
    let retrieval = discard_retrieval_detail(6);
    assert_eq!(
        retrieval.consequences,
        vec![
            RuleConsequence::ImmediateEffect {
                certainty: ConsequenceCertainty::Guaranteed,
                effect: ImmediateEffect::MovePreviousTurnDiscardToDeckTop,
            },
            RuleConsequence::Cost { certainty: ConsequenceCertainty::Guaranteed, cost: ActionCost::LoseHp { amount: 6 } },
        ]
    );
}

#[test]
fn a_profession_change_has_no_detail() {
    let change = profession_change_detail();
    assert!(change.consequences.is_empty());
    assert!(change.into_optional().is_none());
    assert!(discard_retrieval_detail(2).into_optional().is_some());
    assert!(PlayerFacingActionDetail::pending_composition().consequences.is_empty());
}

#[test]
fn sacred_beasts_carry_their_element() {
    assert_eq!(sacred_beast_element("east-azure-dragon"), Some(Element::Wood));
    assert_eq!(sacred_beast_element("west-white-tiger"), Some(Element::Metal));
    assert_eq!(sacred_beast_element("weapon"), None);
}

#[test]
fn hero_helpers_follow_the_catalog() {
    assert!(matches_initial_profession(WARRIOR_ID, &facts(&[(Element::Metal, 3)])));
    assert!(!matches_initial_profession(WAR_GOD_ID, &facts(&[(Element::Metal, 6)])));
    assert!(is_legendary(&ProfessionId::new(HERO_ID)));
    assert!(!is_legendary(&ProfessionId::new(WARRIOR_ID)));
    assert!(matches_proficiency(&[ProfessionAbility::WeaponProficiency], "weapon", &facts(&[(Element::Metal, 1), (Element::Wood, 4)])));
    assert!(!matches_proficiency(&[], "weapon", &facts(&[(Element::Metal, 1), (Element::Wood, 4)])));
}

#[test]
fn level_sums_and_pure_fire() {
    assert_eq!(sum_levels(&facts(&[(Element::Metal, 1), (Element::Wood, 4), (Element::Fire, 5)])), 10);
    assert_eq!(base_formation_registry().unwrap().formation_count(), 25);
    assert!(matches_pure_fire(&facts(&[(Element::Fire, 3), (Element::Water, 4)])));
    assert!(!matches_pure_fire(&facts(&[(Element::Fire, 3), (Element::Water, 3)])));
}
