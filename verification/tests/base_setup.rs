use fewfc::domain::{CardInstanceId, Element, GameError, Player, PlayerId, TeamId, ValidationError};
use fewfc::rules::base::{decimal, initial_deal_count, validate_card_instances, BaseRuleset};

fn two_players() -> Vec<Player> {
    vec![
        Player { id: PlayerId::new("alice"), team: TeamId::new("alice") },
        Player { id: PlayerId::new("bob"), team: TeamId::new("bob") },
    ]
}

#[test]
fn official_game_setup_matches_rulebook_card_composition() {
    let ruleset = BaseRuleset::new();
    let setup = ruleset.official_game_setup(
        two_players(),
        vec![PlayerId::new("alice"), PlayerId::new("bob")],
    );

    assert_eq!(ruleset.official_deck_order(&setup).len(), 90);
    assert_eq!(setup.card_defs.len(), 25);
    assert_eq!(setup.card_instances.len(), 90);

    for element in [Element::Metal, Element::Wood, Element::Water, Element::Fire, Element::Earth] {
        for level in 1..=5u32 {
            let matching_instances = setup
                .card_instances
                .iter()
                .filter(|instance| {
                    setup
                        .card_defs
                        .iter()
                        .find(|card_def| card_def.id == instance.definition)
                        .is_some_and(|card_def| card_def.element == element && card_def.level == level)
                })
                .count();

            assert_eq!(
                matching_instances,
                if level <= 3 { 4 } else { 3 },
                "unexpected copies for {element:?} level {level}"
            );
        }
    }
}

#[test]
fn official_setup_gives_each_team_twenty_life_once() {
    let players = vec![
        Player { id: PlayerId::new("a"), team: TeamId::new("red") },
        Player { id: PlayerId::new("b"), team: TeamId::new("blue") },
        Player { id: PlayerId::new("c"), team: TeamId::new("red") },
    ];
    let setup = BaseRuleset::new().official_game_setup(players, vec![]);
    let hp: Vec<(String, i32)> = setup.hp.iter().map(|t| (t.team.0.clone(), t.hp)).collect();
    assert_eq!(hp, vec![("red".to_string(), 20), ("blue".to_string(), 20)]);
    assert_eq!(setup.hand_limit, 5);
    assert_eq!(setup.base_draw, 2);
}

#[test]
fn deck_order_sorts_instances_by_serial() {
    let mut setup = BaseRuleset::new().official_game_setup(two_players(), vec![]);
    setup.card_instances.reverse();
    let order = BaseRuleset::new().official_deck_order(&setup);
    let expected: Vec<CardInstanceId> = (1..=90).map(CardInstanceId::new).collect();
    assert_eq!(order, expected);
}

#[test]
fn card_labels_name_and_level() {
    let setup = BaseRuleset::new().official_game_setup(two_players(), vec![]);
    let labels = BaseRuleset::new().card_labels(&setup);
    assert_eq!(labels.len(), 90);
    assert_eq!(labels[0], (CardInstanceId::new(1), "金 1".to_string()));
}

#[test]
fn decimal_writes_every_digit() {
    assert_eq!(decimal(0), "0");
    assert_eq!(decimal(7), "7");
    assert_eq!(decimal(170), "170");
    assert_eq!(decimal(4294967295), "4294967295");
}

#[test]
fn deck_order_check_refuses_repeats_and_strangers() {
    let setup = BaseRuleset::new().official_game_setup(two_players(), vec![]);
    assert_eq!(validate_card_instances(&setup, &[CardInstanceId::new(1), CardInstanceId::new(2)]), Ok(()));
    assert_eq!(
        validate_card_instances(&setup, &[CardInstanceId::new(1), CardInstanceId::new(1)]),
        Err(GameError::Validation(ValidationError::DuplicateCard(CardInstanceId::new(1))))
    );
    assert_eq!(
        validate_card_instances(&setup, &[CardInstanceId::new(91)]),
        Err(GameError::Validation(ValidationError::MissingCardInstanceDefinition(CardInstanceId::new(91))))
    );
}

#[test]
fn opening_deal_gives_four_to_the_first_player_and_five_to_others() {
    let setup = BaseRuleset::new().official_game_setup(
        two_players(),
        vec![PlayerId::new("alice"), PlayerId::new("bob")],
    );
    assert_eq!(initial_deal_count(&setup), 9);
}
