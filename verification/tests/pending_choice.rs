use fewfc::domain::{CardInstanceId, ChoiceId, Element, EngineInvariantError, GameError, PlayerId, ValidationError};
use fewfc::rules::pending_choice::{
    cards_are_valid, request_event, validate_answer, validate_answer_command, BaseChoiceContinuation, ChoiceAnswer,
    ChoiceContinuation, ChoiceRequest, PendingChoice, PendingChoiceKind,
};

fn card(value: u64) -> CardInstanceId {
    CardInstanceId::new(value)
}

fn choice(kind: PendingChoiceKind) -> PendingChoice {
    PendingChoice {
        choice_id: ChoiceId::new(7),
        player: PlayerId::new("p1"),
        kind,
        continuation: ChoiceContinuation::Base(BaseChoiceContinuation::TurnDrawDiscard),
    }
}

#[test]
fn validates_every_typed_choice_shape_before_continuation_dispatch() {
    let cases = vec![
        (
            choice(PendingChoiceKind::Card {
                cards: vec![card(1), card(2)],
                minimum: 1,
                maximum: 2,
                can_decline: false,
            }),
            ChoiceAnswer::Cards { cards: vec![card(1)] },
            ChoiceAnswer::Cards { cards: vec![card(3)] },
        ),
        (
            choice(PendingChoiceKind::Player { players: vec![PlayerId::new("p2")], can_decline: false }),
            ChoiceAnswer::Player { player: PlayerId::new("p2") },
            ChoiceAnswer::Player { player: PlayerId::new("p3") },
        ),
        (
            choice(PendingChoiceKind::Formation { formations: vec!["weapon".to_string()], can_decline: false }),
            ChoiceAnswer::Formation { formation_id: "weapon".to_string() },
            ChoiceAnswer::Formation { formation_id: "barrier".to_string() },
        ),
        (
            choice(PendingChoiceKind::Environment { environments: vec![Element::Fire], can_decline: false }),
            ChoiceAnswer::Environment { environment: Element::Fire },
            ChoiceAnswer::Environment { environment: Element::Water },
        ),
        (
            choice(PendingChoiceKind::Chain {
                pouch_owners: vec![PlayerId::new("p2")],
                deck_cards: vec![card(1), card(2)],
            }),
            ChoiceAnswer::Chain {
                pouch_owner: PlayerId::new("p2"),
                pouch_card: card(1),
                trigger_card: Some(card(2)),
                strategy: None,
                target_player: None,
                star: None,
                break_star: false,
                discard_card: None,
            },
            ChoiceAnswer::Chain {
                pouch_owner: PlayerId::new("p3"),
                pouch_card: card(1),
                trigger_card: None,
                strategy: None,
                target_player: None,
                star: None,
                break_star: false,
                discard_card: None,
            },
        ),
        (
            choice(PendingChoiceKind::SheepStealing {
                source_card: card(9),
                owner: None,
                deck_cards: vec![card(1), card(2)],
                discard_cards: vec![card(3), card(4)],
            }),
            ChoiceAnswer::SheepStealing { deck_cards: vec![card(1), card(2)], discard_cards: vec![card(1), card(3)] },
            ChoiceAnswer::SheepStealing { deck_cards: vec![card(1), card(2)], discard_cards: vec![card(3), card(5)] },
        ),
    ];

    for (choice, valid, invalid) in cases {
        assert!(validate_answer(&choice, &PlayerId::new("p1"), ChoiceId::new(7), &valid).is_ok());
        assert!(validate_answer(&choice, &PlayerId::new("p1"), ChoiceId::new(7), &invalid).is_err());
    }
}

#[test]
fn rejects_wrong_player_and_stale_choice_id_without_dispatching() {
    let choice = choice(PendingChoiceKind::Card { cards: vec![card(1)], minimum: 1, maximum: 1, can_decline: false });
    let answer = ChoiceAnswer::Cards { cards: vec![card(1)] };

    assert!(validate_answer(&choice, &PlayerId::new("p2"), ChoiceId::new(7), &answer).is_err());
    assert!(validate_answer(&choice, &PlayerId::new("p1"), ChoiceId::new(8), &answer).is_err());
}

#[test]
fn refuses_to_replace_an_active_canonical_choice() {
    let active = choice(PendingChoiceKind::Card { cards: vec![card(1)], minimum: 1, maximum: 1, can_decline: false });

    assert!(matches!(
        request_event(
            Some(&active),
            ChoiceId::new(8),
            ChoiceRequest {
                player: PlayerId::new("p1"),
                kind: PendingChoiceKind::Card { cards: vec![card(2)], minimum: 1, maximum: 1, can_decline: false },
                continuation: ChoiceContinuation::Base(BaseChoiceContinuation::TurnDrawDiscard),
            },
        ),
        Err(GameError::EngineInvariant(EngineInvariantError::InvalidPendingChoice))
    ));
}

#[test]
fn a_request_opens_a_choice_under_the_next_identity() {
    let opened = request_event(
        None,
        ChoiceId::new(3),
        ChoiceRequest {
            player: PlayerId::new("p2"),
            kind: PendingChoiceKind::Player { players: vec![PlayerId::new("p1")], can_decline: true },
            continuation: ChoiceContinuation::Base(BaseChoiceContinuation::TurnDrawDiscard),
        },
    )
    .unwrap();
    assert_eq!(opened.choice_id, ChoiceId::new(3));
    assert_eq!(opened.player, PlayerId::new("p2"));
}

#[test]
fn a_card_request_that_cannot_be_met_is_refused() {
    let result = request_event(
        None,
        ChoiceId::new(3),
        ChoiceRequest {
            player: PlayerId::new("p2"),
            kind: PendingChoiceKind::Card { cards: vec![card(1)], minimum: 2, maximum: 2, can_decline: false },
            continuation: ChoiceContinuation::Base(BaseChoiceContinuation::TurnDrawDiscard),
        },
    );
    assert_eq!(result, Err(GameError::EngineInvariant(EngineInvariantError::InvalidPendingChoice)));
}

#[test]
fn answer_errors_name_the_expected_values() {
    let choice = choice(PendingChoiceKind::Card { cards: vec![card(1)], minimum: 1, maximum: 1, can_decline: false });
    let answer = ChoiceAnswer::Decline;
    assert_eq!(
        validate_answer(&choice, &PlayerId::new("p2"), ChoiceId::new(7), &answer),
        Err(GameError::Validation(ValidationError::WrongPlayer {
            expected: PlayerId::new("p1"),
            actual: PlayerId::new("p2")
        }))
    );
    assert_eq!(
        validate_answer(&choice, &PlayerId::new("p1"), ChoiceId::new(8), &answer),
        Err(GameError::Validation(ValidationError::StaleChoiceId {
            expected: ChoiceId::new(7),
            actual: ChoiceId::new(8)
        }))
    );
    assert_eq!(
        validate_answer(&choice, &PlayerId::new("p1"), ChoiceId::new(7), &answer),
        Err(GameError::Validation(ValidationError::InvalidChoiceAnswer))
    );
}

#[test]
fn selected_cards_must_be_distinct_and_allowed() {
    assert!(cards_are_valid(&[card(1), card(2)], 1, 2, &[card(2), card(1)]));
    assert!(!cards_are_valid(&[card(1), card(2)], 1, 2, &[card(1), card(1)]));
    assert!(!cards_are_valid(&[card(1), card(2)], 2, 2, &[card(1)]));
    assert!(!cards_are_valid(&[card(1)], 0, 1, &[card(3)]));
}

#[test]
fn an_answer_without_a_pending_choice_is_stale_or_missing() {
    let answer = ChoiceAnswer::Cards { cards: vec![card(1)] };
    assert_eq!(
        validate_answer_command(&None, ChoiceId::new(8), &PlayerId::new("p1"), ChoiceId::new(7), &answer),
        Err(GameError::Validation(ValidationError::StaleChoiceId {
            expected: ChoiceId::new(8),
            actual: ChoiceId::new(7)
        }))
    );
    assert_eq!(
        validate_answer_command(&None, ChoiceId::new(8), &PlayerId::new("p1"), ChoiceId::new(8), &answer),
        Err(GameError::Validation(ValidationError::MissingPendingChoice))
    );
    let pending = Some(choice(PendingChoiceKind::Card {
        cards: vec![card(1), card(2)],
        minimum: 1,
        maximum: 1,
        can_decline: false,
    }));
    assert_eq!(
        validate_answer_command(&pending, ChoiceId::new(8), &PlayerId::new("p1"), ChoiceId::new(7), &answer),
        Ok(())
    );
    assert_eq!(
        validate_answer_command(&pending, ChoiceId::new(8), &PlayerId::new("p2"), ChoiceId::new(7), &answer),
        Err(GameError::Validation(ValidationError::WrongPlayer {
            expected: PlayerId::new("p1"),
            actual: PlayerId::new("p2")
        }))
    );
}
