use fewfc::domain::{
    GameError, Player, PlayerDeckList, PlayerId, RuleModuleId, RuleVersion, RulesetId, TeamId,
    ValidationError, CardDefId, CardOrigin, DISCARD_RETRIEVAL_MODULE_ID, ECHO_MODULE_ID,
    FIVE_DIRECTIONS_LEGEND_MODULE_ID, HERO_SCHOOLS_MODULE_ID, PERSONAL_DECK_MODULE_ID,
    SPIRIT_MODULE_ID, STAR_MODULE_ID,
};
use fewfc::rules::official::{OfficialRuleModuleCategory, OfficialRules};
use fewfc::rules::official_formations::{
    environment_makes_formation_ineffective, official_formation_groups, official_formation_registry,
};
use fewfc::domain::Element;
use fewfc::rules::deck_composition::DeckListSource;

fn modules(ids: &[&str]) -> Vec<RuleModuleId> {
    ids.iter().map(|id| RuleModuleId::new(id)).collect()
}

fn players(n: usize) -> Vec<Player> {
    (0..n)
        .map(|i| Player { id: PlayerId::new(&format!("p{i}")), team: TeamId::new(&format!("t{i}")) })
        .collect()
}

#[test]
fn official_formation_groups_follow_the_enabled_rule_module_order() {
    let groups = official_formation_groups(&vec![
        RuleModuleId::new(ECHO_MODULE_ID),
        RuleModuleId::new(DISCARD_RETRIEVAL_MODULE_ID),
        RuleModuleId::new(FIVE_DIRECTIONS_LEGEND_MODULE_ID),
    ]);

    assert_eq!(
        groups
            .iter()
            .map(|group| group.rule_module_id.as_ref().map(|module| module.as_str()))
            .collect::<Vec<_>>(),
        vec![None, Some("echo"), Some("five-directions-legend")]
    );
}

#[test]
fn base_group_opens_with_the_metal_strike() {
    let groups = official_formation_groups(&OfficialRules::new().default_rule_modules());
    assert_eq!(
        groups
            .iter()
            .map(|group| group.rule_module_id.as_ref().map(|module| module.as_str()))
            .collect::<Vec<_>>(),
        vec![
            None,
            Some("five-directions-legend"),
            Some("hero-schools"),
            Some("jianghu"),
            Some("confluence-generation"),
            Some("dark-glimmer"),
            Some("echo"),
        ]
    );
    assert_eq!(groups[0].formations[0].id, "metal-strike");
    assert_eq!(groups[0].formations[0].name, "金擊術");
    assert!(groups[6]
        .formations
        .iter()
        .any(|formation| formation.id == "echo:split-earth" && formation.name == "宮調‧裂土"));
}

#[test]
fn default_modules_are_the_whole_catalog_and_resolve() {
    let rules = OfficialRules::new();
    let defaults = rules.default_rule_modules();
    assert_eq!(defaults.len(), 13);
    let catalog = rules.rule_module_catalog();
    assert_eq!(catalog.len(), 13);
    assert_eq!(catalog[0].id.as_str(), "totem-formation");
    assert_eq!(catalog[9].dependencies, modules(&[SPIRIT_MODULE_ID]));
    assert_eq!(catalog[3].category, OfficialRuleModuleCategory::Advanced);
    assert_eq!(rules.resolve_rule_modules(None), Ok(defaults.clone()));
    assert_eq!(rules.resolve_version_modules(RuleVersion::Current, None), Ok(defaults));
}

#[test]
fn module_validation_reports_the_first_problem() {
    let rules = OfficialRules::new();
    assert_eq!(
        rules.resolve_rule_modules(Some(modules(&["star", "star"]))),
        Err(GameError::Validation(ValidationError::DuplicateRuleModule(RuleModuleId::new("star"))))
    );
    assert_eq!(
        rules.resolve_rule_modules(Some(modules(&["mystery"]))),
        Err(GameError::Validation(ValidationError::UnknownRuleModule(RuleModuleId::new("mystery"))))
    );
    assert_eq!(
        rules.resolve_rule_modules(Some(modules(&["dark-glimmer"]))),
        Err(GameError::Validation(ValidationError::MissingRuleModuleDependencies {
            module: RuleModuleId::new("dark-glimmer"),
            required: modules(&["spirit"]),
        }))
    );
    assert_eq!(
        rules.resolve_rule_modules(Some(modules(&["spirit", "hero-schools"]))),
        Err(GameError::Validation(ValidationError::MissingRuleModuleDependencies {
            module: RuleModuleId::new("spirit"),
            required: modules(&["star", "five-directions-legend"]),
        }))
    );
    assert_eq!(rules.resolve_rule_modules(Some(vec![])), Ok(vec![]));
}

#[test]
fn only_the_base_ruleset_is_supported() {
    let rules = OfficialRules::new();
    assert_eq!(rules.validate_ruleset(&RulesetId::base()), Ok(()));
    assert_eq!(
        rules.validate_ruleset(&RulesetId::new("other")),
        Err(GameError::Validation(ValidationError::UnsupportedRuleset(RulesetId::new("other"))))
    );
}

#[test]
fn official_life_totals_depend_on_seats_and_advanced_rules() {
    let rules = OfficialRules::new();
    let two = rules.configure_game(players(2), vec![], vec![]).unwrap();
    assert!(two.hp.iter().all(|t| t.hp == 100));
    let two_advanced = rules
        .configure_game(players(2), vec![], modules(&[STAR_MODULE_ID]))
        .unwrap();
    assert!(two_advanced.hp.iter().all(|t| t.hp == 200));
    let three = rules.configure_game(players(3), vec![], vec![]).unwrap();
    assert!(three.hp.iter().all(|t| t.hp == 150));
    let three_advanced = rules
        .configure_game(players(3), vec![], modules(&[HERO_SCHOOLS_MODULE_ID]))
        .unwrap();
    assert!(three_advanced.hp.iter().all(|t| t.hp == 250));
    assert_eq!(three_advanced.enabled_rule_modules, modules(&[HERO_SCHOOLS_MODULE_ID]));
}

#[test]
fn configuration_refuses_an_invalid_module_set() {
    let rules = OfficialRules::new();
    assert_eq!(
        rules.configure_game(players(2), vec![], modules(&["mystery"])),
        Err(GameError::Validation(ValidationError::UnknownRuleModule(RuleModuleId::new("mystery"))))
    );
}

#[test]
fn personal_decks_replace_the_shared_supply() {
    let rules = OfficialRules::new();
    let setup = rules
        .configure_game_with_decks(players(2), vec![], modules(&[PERSONAL_DECK_MODULE_ID]), vec![])
        .unwrap();
    assert_eq!(setup.deck_lists.len(), 2);
    assert_eq!(setup.card_instances.len(), 120);
    assert_eq!(setup.card_instances[0].origin, CardOrigin::Player(PlayerId::new("p0")));
    assert_eq!(setup.card_instances[60].origin, CardOrigin::Player(PlayerId::new("p1")));
    assert_eq!(setup.card_instances[119].instance.as_u64(), 120);
}

#[test]
fn a_valid_requested_deck_is_played() {
    let rules = OfficialRules::new();
    let mut custom = rules.preconstructed_deck(PlayerId::new("p0"));
    custom.name = "mine".to_string();
    let resolved = rules.resolve_personal_deck(PlayerId::new("p0"), Some(custom.clone()));
    assert_eq!(resolved.source, DeckListSource::Custom);
    assert_eq!(resolved.effective.name, "mine");
    let broken = PlayerDeckList { player: PlayerId::new("p0"), name: "bad".to_string(), cards: vec![CardDefId::new("nothing")] };
    let resolved = rules.resolve_personal_deck(PlayerId::new("p0"), Some(broken));
    assert_eq!(resolved.source, DeckListSource::Preconstructed);
}

#[test]
fn accepted_setups_answer_deck_order_labels_and_names() {
    let rules = OfficialRules::new();
    let setup = rules.configure_game(players(2), vec![], modules(&[ECHO_MODULE_ID, STAR_MODULE_ID, FIVE_DIRECTIONS_LEGEND_MODULE_ID, HERO_SCHOOLS_MODULE_ID])).unwrap();
    assert_eq!(rules.official_deck_order(&setup).unwrap().len(), 90);
    assert_eq!(rules.card_labels(&setup).unwrap().len(), 90);
    let names = rules.formation_names(&setup).unwrap();
    assert!(names.iter().any(|(id, name)| id == "metal-strike" && name == "金擊術"));
    assert!(names.iter().any(|(id, _)| id == "echo:split-earth"));
    let mut sorted = names.clone();
    sorted.sort();
    assert_eq!(names, sorted);

    let mut other = rules.configure_game(players(2), vec![], vec![]).unwrap();
    other.ruleset = RulesetId::new("other");
    assert!(rules.official_deck_order(&other).is_err());
    assert!(rules.formation_names(&other).is_err());
}

#[test]
fn the_environment_overcomes_its_formations() {
    assert!(environment_makes_formation_ineffective(true, Some(Element::Metal), "barrier"));
    assert!(environment_makes_formation_ineffective(true, Some(Element::Fire), "dark:dark-radiance"));
    assert!(!environment_makes_formation_ineffective(false, Some(Element::Metal), "barrier"));
    assert!(!environment_makes_formation_ineffective(true, Some(Element::Water), "barrier"));
    assert!(!environment_makes_formation_ineffective(true, None, "barrier"));
}

#[test]
fn deck_composition_catalog_lists_every_definition() {
    let catalog = OfficialRules::new().deck_composition_catalog();
    assert_eq!(catalog.card_definitions.len(), 25);
    assert_eq!(catalog.shared_deck.exact_card_count, 90);
}

#[test]
fn the_default_modules_register_their_formations_consistently() {
    let modules = OfficialRules::new().default_rule_modules();
    let registry = official_formation_registry(&modules).unwrap();
    let groups = official_formation_groups(&modules);
    let total: usize = groups.iter().map(|group| group.formations.len()).sum();
    let mut ids: Vec<String> = registry.formations().into_iter().map(|formation| formation.id).collect();
    assert_eq!(ids.len(), total);
    ids.sort();
    ids.dedup();
    assert_eq!(ids.len(), total);
}
