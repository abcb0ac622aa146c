use fewfc::domain::{
    CardInstanceId, EngineInvariantError, GameError, Player, PlayerId, RuleModuleId, TeamId,
    PERSONAL_DECK_MODULE_ID,
};
use fewfc::rules::base::{initial_events, BaseRuleset, StartEvent};
use fewfc::rules::official::OfficialRules;

fn two_players() -> Vec<Player> {
    vec![
        Player { id: PlayerId::new("p0"), team: TeamId::new("t0") },
        Player { id: PlayerId::new("p1"), team: TeamId::new("t1") },
    ]
}

fn ids(range: std::ops::RangeInclusive<u64>) -> Vec<CardInstanceId> {
    range.map(CardInstanceId::new).collect()
}

#[test]
fn a_shared_deck_deals_four_then_five_cards_in_turn_order() {
    let ruleset = BaseRuleset::new();
    let setup = ruleset.official_game_setup(two_players(), vec![PlayerId::new("p0"), PlayerId::new("p1")]);
    let order = ruleset.official_deck_order(&setup);
    let events = initial_events(&setup, &order).unwrap();
    assert_eq!(events.len(), 3);
    assert_eq!(events[0], StartEvent::DeckPrepared { deck_order: order.clone() });
    assert_eq!(events[1], StartEvent::CardsDealt { player: PlayerId::new("p0"), cards: order[0..4].to_vec() });
    assert_eq!(events[2], StartEvent::CardsDealt { player: PlayerId::new("p1"), cards: order[4..9].to_vec() });
}

#[test]
fn a_shared_deck_too_small_for_the_deal_is_an_engine_error() {
    let ruleset = BaseRuleset::new();
    let setup = ruleset.official_game_setup(two_players(), vec![PlayerId::new("p0"), PlayerId::new("p1")]);
    assert_eq!(
        initial_events(&setup, &ids(1..=8)),
        Err(GameError::EngineInvariant(EngineInvariantError::NotEnoughCards { needed: 9, available: 8 }))
    );
}

#[test]
fn personal_decks_deal_each_player_from_its_own_cards() {
    let rules = OfficialRules::new();
    let setup = rules
        .configure_game_with_decks(
            two_players(),
            vec![PlayerId::new("p1"), PlayerId::new("p0")],
            vec![RuleModuleId::new(PERSONAL_DECK_MODULE_ID)],
            vec![],
        )
        .unwrap();
    let order = rules.official_deck_order(&setup).unwrap();
    let events = initial_events(&setup, &order).unwrap();
    assert_eq!(events.len(), 4);
    match &events[0] {
        StartEvent::PlayerDeckPrepared { player, deck_order } => {
            assert_eq!(player, &PlayerId::new("p1"));
            assert_eq!(deck_order, &ids(61..=120));
        }
        other => panic!("unexpected {other:?}"),
    }
    assert_eq!(events[1], StartEvent::CardsDealt { player: PlayerId::new("p1"), cards: ids(61..=64) });
    assert_eq!(events[3], StartEvent::CardsDealt { player: PlayerId::new("p0"), cards: ids(1..=5) });
    assert_eq!(
        initial_events(&setup, &ids(1..=63)),
        Err(GameError::EngineInvariant(EngineInvariantError::NotEnoughCards { needed: 4, available: 3 }))
    );
}

#[test]
fn official_start_checks_the_setup_and_the_deck_order() {
    let rules = OfficialRules::new();
    let setup = rules
        .configure_game(two_players(), vec![PlayerId::new("p0"), PlayerId::new("p1")], vec![])
        .unwrap();
    let order = rules.official_deck_order(&setup).unwrap();
    let events = rules.start_game(&setup, order.clone()).unwrap();
    assert_eq!(events[0], StartEvent::DeckPrepared { deck_order: order.clone() });
    let mut doubled = order.clone();
    doubled[1] = doubled[0];
    assert_eq!(
        rules.start_game(&setup, doubled),
        Err(GameError::Validation(fewfc::domain::ValidationError::DuplicateCard(order[0])))
    );
    let mut unknown = order.clone();
    unknown.push(CardInstanceId::new(999));
    assert_eq!(
        BaseRuleset::new().start_game(&setup, unknown),
        Err(GameError::Validation(fewfc::domain::ValidationError::MissingCardInstanceDefinition(CardInstanceId::new(999))))
    );
    let mut foreign = rules
        .configure_game(two_players(), vec![PlayerId::new("p0"), PlayerId::new("p1")], vec![])
        .unwrap();
    foreign.ruleset = fewfc::domain::RulesetId("other".to_string());
    assert!(rules.start_game(&foreign, order).is_err());
}
