use fewfc::domain::Element;
use fewfc::rules::catalog::{base_formation_matcher, base_formation_registry};
use fewfc::rules::detail::{FormationCategory, FormationEffect};
use fewfc::rules::matcher::{CustomMatcher, FormationMatcher, FormationPattern, SubmittedCardFacts};
use fewfc::rules::registry::{
    AttackCategory, AttackPlanDef, DamageTarget, EffectDef, EffectPlan, FormationDef,
    FormationRegistry, PointFormula, SpellPlanDef,
};

fn card(element: Element) -> SubmittedCardFacts {
    leveled_card(element, 1)
}

fn leveled_card(element: Element, level: u32) -> SubmittedCardFacts {
    SubmittedCardFacts { element, level }
}

#[test]
fn matcher_handles_unordered_exact_counts_and_sequences() {
    let matcher = FormationMatcher::new();

    assert!(matcher.matches(
        &FormationPattern::ExactElements(vec![
            Element::Metal,
            Element::Metal,
            Element::Fire,
            Element::Water,
        ]),
        &[
            card(Element::Water),
            card(Element::Metal),
            card(Element::Fire),
            card(Element::Metal),
        ],
    ));
    assert!(matcher.matches(
        &FormationPattern::GeneratingSequence { length: 3 },
        &[card(Element::Earth), card(Element::Wood), card(Element::Fire)],
    ));
    assert!(matcher.matches(
        &FormationPattern::OvercomingSequence { length: 3 },
        &[card(Element::Water), card(Element::Wood), card(Element::Earth)],
    ));
}

#[test]
fn matcher_rejects_incomplete_or_wrong_patterns() {
    let matcher = FormationMatcher::new();

    assert!(!matcher.matches(
        &FormationPattern::ExactElements(vec![Element::Metal, Element::Fire, Element::Water]),
        &[card(Element::Metal), card(Element::Fire)],
    ));
    assert!(!matcher.matches(
        &FormationPattern::GeneratingSequence { length: 3 },
        &[card(Element::Metal), card(Element::Fire), card(Element::Water)],
    ));
    assert!(!matcher.matches(
        &FormationPattern::OvercomingSequence { length: 3 },
        &[card(Element::Wood), card(Element::Fire), card(Element::Earth)],
    ));
}

#[test]
fn matcher_keeps_custom_hooks_internal() {
    let matcher = FormationMatcher::new().with_custom(
        "all-water",
        CustomMatcher::AllOfElementAbove { count: 3, element: Element::Water, level_above: 1 },
    );
    let pattern = FormationPattern::Custom("all-water".to_string());

    assert!(matcher.matches(
        &pattern,
        &[
            leveled_card(Element::Water, 2),
            leveled_card(Element::Water, 3),
            leveled_card(Element::Water, 4),
        ],
    ));
    assert!(!matcher.matches(
        &pattern,
        &[
            leveled_card(Element::Water, 2),
            leveled_card(Element::Water, 1),
            leveled_card(Element::Water, 4),
        ],
    ));
}

#[test]
fn registry_links_formation_schema_to_effect_plan() {
    let registry = FormationRegistry::new(
        vec![FormationDef {
            id: "metal-strike".to_string(),
            name: "Metal Strike".to_string(),
            rule_text: "Elemental attack".to_string(),
            category: FormationCategory::Attack,
            pattern: FormationPattern::ExactElements(vec![Element::Metal]),
            effect_id: "deal-formation-damage".to_string(),
            point_formula: PointFormula::Fixed(3),
        }],
        vec![EffectDef {
            id: "deal-formation-damage".to_string(),
            plan: EffectPlan::Attack(AttackPlanDef {
                category: AttackCategory::Elemental(Element::Metal),
                point_formula: PointFormula::LevelSumTimes(1),
                damage_target: DamageTarget::PreviousPlayer,
            }),
        }],
    )
    .unwrap();

    let formation = registry.formation("metal-strike").unwrap();
    let effect = registry.effect_for(formation).unwrap();

    assert_eq!(formation.effect_id, "deal-formation-damage");
    assert_eq!(effect.id, "deal-formation-damage");
    assert!(matches!(effect.plan, EffectPlan::Attack(_)));
}

#[test]
fn base_registry_contains_every_documented_formation() {
    let registry = base_formation_registry().unwrap();
    let expected = [
        ("metal-strike", "金擊術"),
        ("wood-strike", "木擊術"),
        ("water-strike", "水擊術"),
        ("fire-strike", "火擊術"),
        ("earth-strike", "土擊術"),
        ("weapon", "武器"),
        ("defense", "防禦"),
        ("seal", "封印"),
        ("countershock", "反震"),
        ("metamorphosis", "幻化"),
        ("empty-city", "空城"),
        ("triple-metal", "鍠金"),
        ("triple-wood", "樸木"),
        ("triple-water", "洄水"),
        ("triple-fire", "熾火"),
        ("triple-earth", "坱土"),
        ("generating-formation", "生陣"),
        ("overcoming-formation", "剋陣"),
        ("radiance", "光芒"),
        ("barrier", "氣壁"),
        ("return-to-origin", "歸元"),
        ("shock-burst", "震暴"),
        ("chaos", "混沌"),
        ("five-elements-cycle", "五行輪迴"),
        ("five-streams-unite", "五流歸一"),
    ];

    assert_eq!(registry.formations().len(), expected.len());
    assert_eq!(registry.effect_count(), expected.len());
    for (id, name) in expected {
        let formation = registry.formation(id).expect("base formation must exist");
        assert_eq!(formation.name, name);
        assert!(!formation.rule_text.is_empty());
        assert!(registry.effect_for(formation).is_some());
    }
}

#[test]
fn base_registry_patterns_and_effect_plans_are_consistent() {
    let registry = base_formation_registry().unwrap();
    let matcher = base_formation_matcher();

    assert!(matcher.matches(
        &registry.formation("empty-city").unwrap().pattern,
        &[card(Element::Metal), card(Element::Wood)],
    ));
    assert!(!matcher.matches(
        &registry.formation("empty-city").unwrap().pattern,
        &[card(Element::Metal), card(Element::Metal)],
    ));
    assert!(matcher.matches(
        &registry.formation("five-streams-unite").unwrap().pattern,
        &[
            leveled_card(Element::Metal, 3),
            leveled_card(Element::Wood, 3),
            leveled_card(Element::Water, 3),
            leveled_card(Element::Fire, 3),
            leveled_card(Element::Earth, 3),
        ],
    ));
    assert_eq!(
        registry.effect("triple-fire").unwrap().plan,
        EffectPlan::Attack(AttackPlanDef {
            category: AttackCategory::Elemental(Element::Fire),
            point_formula: PointFormula::LevelSumTimes(3),
            damage_target: DamageTarget::PreviousPlayer,
        }),
    );
    assert_eq!(
        registry.effect("barrier").unwrap().plan,
        EffectPlan::ActiveSpell(SpellPlanDef {
            resolver_id: "barrier".to_string(),
            player_facing_effect: FormationEffect::CreateShield,
        }),
    );
}

#[test]
fn registry_refuses_a_formation_whose_effect_is_missing() {
    let result = FormationRegistry::new(
        vec![FormationDef {
            id: "metal-strike".to_string(),
            name: "Metal Strike".to_string(),
            rule_text: "Elemental attack".to_string(),
            category: FormationCategory::Attack,
            pattern: FormationPattern::ExactElements(vec![Element::Metal]),
            effect_id: "missing".to_string(),
            point_formula: PointFormula::Fixed(3),
        }],
        vec![],
    );
    assert!(matches!(
        result,
        Err(fewfc::rules::registry::RegistryError::MissingEffect { ref formation_id, ref effect_id })
            if formation_id == "metal-strike" && effect_id == "missing"
    ));
}

#[test]
fn registry_refuses_an_identity_registered_twice() {
    let formation = || FormationDef {
        id: "metal-strike".to_string(),
        name: "Metal Strike".to_string(),
        rule_text: "Elemental attack".to_string(),
        category: FormationCategory::Attack,
        pattern: FormationPattern::ExactElements(vec![Element::Metal]),
        effect_id: "deal".to_string(),
        point_formula: PointFormula::Fixed(3),
    };
    let effect = EffectDef {
        id: "deal".to_string(),
        plan: EffectPlan::Attack(AttackPlanDef {
            category: AttackCategory::Physical,
            point_formula: PointFormula::Fixed(1),
            damage_target: DamageTarget::PreviousPlayer,
        }),
    };
    let result = FormationRegistry::new(vec![formation(), formation()], vec![effect]);
    assert!(matches!(result, Err(fewfc::rules::registry::RegistryError::DuplicateFormation)));
}

#[test]
fn registry_lists_formations_by_identity() {
    let registry = base_formation_registry().unwrap();
    let ids: Vec<String> = registry.formations().into_iter().map(|f| f.id).collect();
    let mut sorted = ids.clone();
    sorted.sort();
    assert_eq!(ids, sorted);
}

#[test]
fn later_custom_registration_replaces_earlier_one() {
    let matcher = FormationMatcher::new()
        .with_custom("rule", CustomMatcher::SingleEvenLevel)
        .with_custom("rule", CustomMatcher::ThreeSameLevel);
    let pattern = FormationPattern::Custom("rule".to_string());
    assert!(!matcher.matches(&pattern, &[leveled_card(Element::Metal, 2)]));
    assert!(matcher.matches(
        &pattern,
        &[leveled_card(Element::Metal, 2), leveled_card(Element::Wood, 2), leveled_card(Element::Fire, 2)],
    ));
}

#[test]
fn unknown_custom_pattern_never_matches() {
    let matcher = FormationMatcher::new();
    assert!(!matcher.matches(&FormationPattern::Custom("nothing".to_string()), &[card(Element::Metal)]));
}
