use fewfc::domain::{CardInstanceId, Element, PlayerId};
use fewfc::rules::covered_passive::{
    inapplicability_ground, passive_outcome, passive_spell_modifications, ActionModification,
    CounterEffect, CoveredPassive, IncomingActionKind, PassiveFlipOutcome, PassiveNoEffectGround,
    PassiveTriggerEvent, TriggerRequest,
};
use fewfc::rules::jianghu::{FLOWING_SHADOW_SWORD, POISON_SMOKE};

fn request(kind: IncomingActionKind, attack_points: Option<i32>) -> TriggerRequest {
    TriggerRequest {
        incoming_player: PlayerId::new("p2"),
        incoming_kind: kind,
        ignores_formation_effects: false,
        ignores_counter_effects_by_profession_ability: false,
        ignores_counter_effects_by_golden_cicada: false,
        attack_points,
    }
}

fn covered(id: &str, sealed: bool, neutralized: bool) -> CoveredPassive {
    CoveredPassive { formation_id: id.to_string(), cards: vec![CardInstanceId::new(4)], waiting: Some((sealed, neutralized)) }
}

#[test]
fn defenses_prevent_and_shocks_split_attack_damage() {
    let attack = IncomingActionKind::Attack;
    assert_eq!(passive_spell_modifications("defense", attack, false, false, false, false, None, Some(9)), vec![ActionModification::PreventDamage]);
    assert_eq!(passive_spell_modifications("countershock", attack, false, false, false, false, None, Some(9)), vec![ActionModification::SplitAttackDamage]);
    assert_eq!(passive_spell_modifications(FLOWING_SHADOW_SWORD, attack, false, false, false, false, None, Some(40)), vec![ActionModification::PreventDamage]);
    assert!(passive_spell_modifications(FLOWING_SHADOW_SWORD, attack, false, false, false, false, None, Some(41)).is_empty());
    assert!(passive_spell_modifications("defense", attack, true, false, false, false, None, Some(9)).is_empty());
    assert!(passive_spell_modifications("defense", attack, false, false, false, false, Some(Element::Metal), Some(9)).is_empty());
    assert_eq!(
        passive_spell_modifications("seal", IncomingActionKind::PassiveSpell, false, false, false, false, None, None),
        vec![ActionModification::SealCoveredPassive]
    );
    assert_eq!(
        passive_spell_modifications("magic-seal", IncomingActionKind::ActiveSpell, false, false, false, false, None, None),
        vec![ActionModification::CancelSpell]
    );
    assert_eq!(
        passive_spell_modifications("holy-light-break", IncomingActionKind::PassiveSpell, false, false, false, false, None, None),
        vec![ActionModification::RevealCoveredPassive]
    );
}

#[test]
fn passives_name_the_ground_on_which_they_cannot_apply() {
    assert_eq!(inapplicability_ground("defense", IncomingActionKind::ActiveSpell, None), Some(PassiveNoEffectGround::NotAnAttack));
    assert_eq!(
        inapplicability_ground(FLOWING_SHADOW_SWORD, IncomingActionKind::Attack, Some(50)),
        Some(PassiveNoEffectGround::AttackPointsExceedLimit { maximum: 40 })
    );
    assert_eq!(inapplicability_ground("seal", IncomingActionKind::Attack, Some(5)), Some(PassiveNoEffectGround::NotASpell));
    assert_eq!(inapplicability_ground("magic-seal", IncomingActionKind::PassiveSpell, None), Some(PassiveNoEffectGround::NotASpell));
    assert_eq!(inapplicability_ground("empty-city", IncomingActionKind::Pass, None), None);
    assert_eq!(inapplicability_ground("defense", IncomingActionKind::Attack, Some(5)), None);
}

#[test]
fn outcomes_list_every_ground_or_apply_the_modifications() {
    let grounds = passive_outcome("defense", IncomingActionKind::Attack, true, true, true, false, true, Some(Element::Metal), Some(5), &[]);
    assert_eq!(
        grounds,
        PassiveFlipOutcome::NoEffect {
            grounds: vec![
                PassiveNoEffectGround::Neutralized,
                PassiveNoEffectGround::IgnoredBySacredBeast,
                PassiveNoEffectGround::IgnoredByGoldenCicada,
                PassiveNoEffectGround::IneffectiveInEnvironment { environment: Element::Metal },
                PassiveNoEffectGround::Sealed,
            ]
        }
    );
    assert_eq!(
        passive_outcome("defense", IncomingActionKind::Pass, true, true, true, true, true, None, None, &[]),
        PassiveFlipOutcome::NoEffect { grounds: vec![PassiveNoEffectGround::NotAnAttack] }
    );
    assert_eq!(
        passive_outcome("empty-city", IncomingActionKind::Attack, false, false, false, false, false, None, Some(3), &[]),
        PassiveFlipOutcome::NoEffect { grounds: vec![PassiveNoEffectGround::EmptyCity] }
    );
    assert_eq!(
        passive_outcome("defense", IncomingActionKind::Attack, false, false, false, false, false, None, Some(3), &[ActionModification::PreventDamage]),
        PassiveFlipOutcome::Applied { effect_id: "defense".to_string(), modifications: vec![ActionModification::PreventDamage] }
    );
    assert_eq!(
        passive_outcome(POISON_SMOKE, IncomingActionKind::Attack, false, false, false, false, false, None, Some(3), &[]),
        PassiveFlipOutcome::Applied { effect_id: POISON_SMOKE.to_string(), modifications: vec![] }
    );
}

#[test]
fn flipping_reports_the_covered_passive_then_the_counter_effects() {
    let p1 = PlayerId::new("p1");
    let counters = [
        CounterEffect { owner: PlayerId::new("p1"), effect_id: "countershock".to_string() },
        CounterEffect { owner: PlayerId::new("p3"), effect_id: "defense".to_string() },
    ];
    let result = fewfc::rules::covered_passive::trigger(
        &request(IncomingActionKind::Attack, Some(12)),
        Some(&p1),
        Some(&covered("defense", false, false)),
        false,
        None,
        &counters,
    );
    assert!(result.prevents_damage());
    assert!(result.splits_attack_damage());
    assert!(!result.cancels_spell());
    assert!(!result.seals_covered_passive());
    assert!(!result.reveals_covered_passive());
    let events = result.events();
    assert_eq!(events.len(), 2);
    assert!(matches!(&events[0], PassiveTriggerEvent::PassiveFlipped { passive_id, cards, .. } if passive_id == "defense" && cards == &vec![CardInstanceId::new(4)]));
    assert!(matches!(&events[1], PassiveTriggerEvent::CounterEffectResolved { effect_id, owner, .. } if effect_id == "countershock" && owner == &p1));
}

#[test]
fn the_environment_and_neutralization_silence_the_covered_passive() {
    let p1 = PlayerId::new("p1");
    let metal = fewfc::rules::covered_passive::trigger(&request(IncomingActionKind::Attack, Some(12)), Some(&p1), Some(&covered("defense", false, false)), true, Some(Element::Metal), &[]);
    assert!(!metal.prevents_damage());
    let neutralized = fewfc::rules::covered_passive::trigger(&request(IncomingActionKind::Attack, Some(12)), Some(&p1), Some(&covered("defense", false, true)), false, None, &[]);
    assert!(!neutralized.prevents_damage());
    let revealed = CoveredPassive { formation_id: "defense".to_string(), cards: vec![], waiting: None };
    let counters = [CounterEffect { owner: PlayerId::new("p1"), effect_id: "defense".to_string() }];
    let nothing = fewfc::rules::covered_passive::trigger(&request(IncomingActionKind::Attack, Some(12)), Some(&p1), Some(&revealed), false, None, &counters);
    assert!(!nothing.prevents_damage());
    assert!(nothing.events().is_empty());
    let alone = fewfc::rules::covered_passive::trigger(&request(IncomingActionKind::Attack, Some(12)), None, None, false, None, &counters);
    assert!(alone.events().is_empty());
}

#[test]
fn a_covered_seal_seals_and_holy_light_break_reveals_an_incoming_passive() {
    let p1 = PlayerId::new("p1");
    let sealed = fewfc::rules::covered_passive::trigger(&request(IncomingActionKind::PassiveSpell, None), Some(&p1), Some(&covered("seal", false, false)), false, None, &[]);
    assert!(sealed.seals_covered_passive());
    let revealed = fewfc::rules::covered_passive::trigger(&request(IncomingActionKind::PassiveSpell, None), Some(&p1), Some(&covered("holy-light-break", false, false)), false, None, &[]);
    assert!(revealed.reveals_covered_passive());
    let cancelled = fewfc::rules::covered_passive::trigger(&request(IncomingActionKind::ActiveSpell, None), Some(&p1), Some(&covered("seal", false, false)), false, None, &[]);
    assert!(cancelled.cancels_spell());
}
