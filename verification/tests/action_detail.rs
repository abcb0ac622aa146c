use fewfc::domain::{CardInstanceId, LimitedUse, PlayerId, RuleModuleId};
use fewfc::rules::action_detail::{
    formation_detail, point_amount, profession_ability_detail, profession_ability_effect,
};
use fewfc::rules::catalog::base_formation_registry;
use fewfc::rules::dark::{DARK_CHAOS, DARK_SPIRIT_ABILITY_ID};
use fewfc::rules::detail::{
    ActionAttackCategory, ActionCost, ActionTarget, ConsequenceCertainty, EffectAmount,
    EffectFormula, FormationEffect, ImmediateEffect, PlayerFacingActionDetail,
    ProfessionAbilityCandidate, ProfessionAbilityEffect, RuleConsequence, RuleException,
    TrustedRandomness,
};
use fewfc::rules::official_formations::official_formation_registry;
use fewfc::rules::registry::PointFormula;

fn ability(id: &str, cards: Vec<CardInstanceId>) -> ProfessionAbilityCandidate {
    ProfessionAbilityCandidate {
        ability_id: id.to_string(),
        ability_name: id.to_string(),
        cards,
        target_card: None,
        declared_element: None,
        declared_level: None,
        input_requirement: None,
        detail: PlayerFacingActionDetail::pending_composition(),
    }
}

#[test]
fn point_formulas_show_their_amounts() {
    assert_eq!(point_amount(PointFormula::Fixed(7)), EffectAmount::Fixed { value: 7 });
    assert_eq!(
        point_amount(PointFormula::LevelSumTimes(2)),
        EffectAmount::Formula { formula: EffectFormula::LevelSumTimes { multiplier: 2 } }
    );
}

#[test]
fn base_attacks_show_the_attack_on_the_previous_player() {
    let registry = base_formation_registry().unwrap();
    let detail = formation_detail(&registry, "metal-strike");
    assert_eq!(
        detail.consequences,
        vec![RuleConsequence::ImmediateEffect {
            certainty: ConsequenceCertainty::Guaranteed,
            effect: ImmediateEffect::Attack {
                target: ActionTarget::PreviousPlayer,
                category: ActionAttackCategory::Elemental,
                points: EffectAmount::Formula { formula: EffectFormula::LevelPlus { amount: 4 } },
            },
        }]
    );
}

#[test]
fn chaos_shows_its_effect_and_the_follow_up_choice() {
    let registry = base_formation_registry().unwrap();
    let detail = formation_detail(&registry, "chaos");
    assert_eq!(detail.consequences.len(), 2);
    assert_eq!(
        detail.consequences[0],
        RuleConsequence::ImmediateEffect {
            certainty: ConsequenceCertainty::Guaranteed,
            effect: ImmediateEffect::ResolveFormationEffect { effect: FormationEffect::InspectHand },
        }
    );
    assert!(matches!(detail.consequences[1], RuleConsequence::FollowUpChoice { certainty: ConsequenceCertainty::FollowUp, .. }));
}

#[test]
fn dark_chaos_shows_the_trusted_random_selection() {
    let registry = official_formation_registry(&vec![RuleModuleId::new("dark-glimmer")]).unwrap();
    let detail = formation_detail(&registry, DARK_CHAOS);
    assert_eq!(
        detail.consequences.last(),
        Some(&RuleConsequence::TrustedRandomness {
            certainty: ConsequenceCertainty::Random,
            operation: TrustedRandomness::SelectHiddenHandCards { count: 2 },
        })
    );
}

#[test]
fn profession_abilities_show_their_effect_cost_and_limited_use() {
    assert_eq!(profession_ability_effect("meditation"), ProfessionAbilityEffect::IncreaseTurnDraw { amount: 1 });
    assert_eq!(profession_ability_effect(DARK_SPIRIT_ABILITY_ID), ProfessionAbilityEffect::PrepareCardAtDeclaredLevel);
    let player = PlayerId::new("p1");
    let plain = profession_ability_detail(&ability("meditation", vec![]), &player, &[]);
    assert_eq!(plain.consequences.len(), 1);
    let with_cards = profession_ability_detail(&ability("meditation", vec![CardInstanceId::new(3)]), &player, &[]);
    assert_eq!(
        with_cards.consequences[1],
        RuleConsequence::Cost { certainty: ConsequenceCertainty::Guaranteed, cost: ActionCost::DiscardSelectedCards }
    );
    let uses = [
        LimitedUse { owner: PlayerId::new("p2"), key: "meditation".to_string(), remaining: 0, maximum: 1 },
        LimitedUse { owner: PlayerId::new("p1"), key: "meditation".to_string(), remaining: 1, maximum: 2 },
    ];
    let limited = profession_ability_detail(&ability("meditation", vec![]), &player, &uses);
    assert_eq!(
        limited.consequences[1],
        RuleConsequence::RuleException {
            certainty: ConsequenceCertainty::Guaranteed,
            exception: RuleException::LimitedUse { key: "meditation".to_string(), remaining: 1, maximum: 2 },
        }
    );
    let dark = profession_ability_detail(&ability(DARK_SPIRIT_ABILITY_ID, vec![CardInstanceId::new(3)]), &player, &[]);
    assert_eq!(dark.consequences.len(), 1);
}
