use fewfc::domain::{
    CannotPerformFormationReason, ConfluenceCardObligation, CardInstanceId, GameError,
    GameStatusKind, PassActionReason, Phase, Player, PlayerId, RuleModuleId, TeamId, ValidationError,
    DISCARD_RETRIEVAL_MODULE_ID,
};
use fewfc::rules::hero::ProfessionAbility;
use fewfc::rules::detail::discard_retrieval_detail;
use fewfc::rules::command::{
    ability_guards, advance_gate, pass_action, ActionEvent, command_gate, profession_change_guards, decide_pass_action, next_automatic_step, AutomaticStep, ensure_can_query_playable_actions, ensure_current_player,
    ensure_phase, hand_size, player_has_status, playable_pass_reason, CommandFacts,
    FormationRequirement, LastTurnDiscard, StatusFact, playable_discard_retrieval, retrievable_discard,
};

fn pid(s: &str) -> PlayerId {
    PlayerId::new(s)
}

fn facts(hand_of_p1: usize) -> CommandFacts {
    CommandFacts {
        status: GameStatusKind::InProgress,
        pending_randomness: None,
        pending_choice: None,
        current_player: Some(pid("p1")),
        phase: Phase::ActiveEffects,
        turn_number: 3,
        players: vec![
            Player { id: pid("p1"), team: TeamId::new("t1") },
            Player { id: pid("p2"), team: TeamId::new("t2") },
        ],
        formation_area_owners: vec![pid("p1"), pid("p2")],
        profession_owners: vec![],
        formation_requirements: vec![],
        confluence_card_obligations: vec![],
        statuses: vec![],
        hand_sizes: vec![(pid("p1"), hand_of_p1), (pid("p2"), 4)],
        protected_players: vec![],
        turn_order: vec![pid("p1"), pid("p2")],
        enabled_rule_modules: vec![RuleModuleId::new(DISCARD_RETRIEVAL_MODULE_ID)],
        last_turn_discards: vec![(pid("p2"), LastTurnDiscard { card: CardInstanceId::new(5), turn_number: 2 })],
    }
}

#[test]
fn an_empty_hand_offers_a_pass_that_is_accepted() {
    let f = facts(0);
    assert_eq!(playable_pass_reason(&f, &pid("p1")), Some(PassActionReason::NoCardsInHand));
    assert_eq!(decide_pass_action(&f, &pid("p1"), PassActionReason::NoCardsInHand), Ok(()));
}

#[test]
fn a_player_with_cards_and_no_status_is_offered_no_pass() {
    let f = facts(2);
    assert_eq!(playable_pass_reason(&f, &pid("p1")), None);
    assert_eq!(
        decide_pass_action(&f, &pid("p1"), PassActionReason::NoCardsInHand),
        Err(GameError::Validation(ValidationError::CannotPassAction {
            reason: PassActionReason::NoCardsInHand
        }))
    );
    assert_eq!(
        decide_pass_action(&f, &pid("p1"), PassActionReason::CannotActByStatus),
        Err(GameError::Validation(ValidationError::CannotPassAction {
            reason: PassActionReason::CannotActByStatus
        }))
    );
}

#[test]
fn a_status_that_stops_acting_offers_a_pass_unless_protected() {
    let mut f = facts(2);
    f.statuses.push(StatusFact { owner: Some(pid("p1")), kind: "CannotAct".to_string() });
    assert!(player_has_status(&f, &pid("p1"), "CannotAct"));
    assert!(!player_has_status(&f, &pid("p2"), "CannotAct"));
    assert_eq!(playable_pass_reason(&f, &pid("p1")), Some(PassActionReason::CannotActByStatus));
    f.protected_players.push(pid("p1"));
    assert!(!player_has_status(&f, &pid("p1"), "CannotAct"));
    assert_eq!(playable_pass_reason(&f, &pid("p1")), None);
}

#[test]
fn the_command_guards_refuse_in_order() {
    let mut f = facts(0);
    assert_eq!(command_gate(&f, false), Ok(()));
    f.pending_choice = Some(pid("p2"));
    assert_eq!(
        command_gate(&f, false),
        Err(GameError::Validation(ValidationError::PendingChoiceInProgress { player: pid("p2") }))
    );
    assert_eq!(command_gate(&f, true), Ok(()));
    f.pending_randomness = Some("r1".to_string());
    assert_eq!(
        command_gate(&f, true),
        Err(GameError::Validation(ValidationError::PendingRandomnessInProgress {
            request_id: "r1".to_string()
        }))
    );
    f.status = GameStatusKind::Preparing;
    assert_eq!(
        command_gate(&f, true),
        Err(GameError::Validation(ValidationError::GamePreparationInProgress))
    );
    f.status = GameStatusKind::Finished;
    assert_eq!(command_gate(&f, true), Err(GameError::Validation(ValidationError::GameFinished)));
    assert_eq!(playable_pass_reason(&f, &pid("p1")), None);
}

#[test]
fn only_the_current_player_in_the_active_effects_phase_may_pass() {
    assert_eq!(
        ensure_current_player(&None, &pid("p1")),
        Err(GameError::Validation(ValidationError::EmptyTurnOrder))
    );
    assert_eq!(
        ensure_current_player(&Some(pid("p1")), &pid("p2")),
        Err(GameError::Validation(ValidationError::WrongPlayer { expected: pid("p1"), actual: pid("p2") }))
    );
    assert_eq!(
        ensure_phase(Phase::TurnDraw, Phase::ActiveEffects),
        Err(GameError::Validation(ValidationError::WrongPhase {
            expected: Phase::ActiveEffects,
            actual: Phase::TurnDraw
        }))
    );
    let mut f = facts(0);
    f.phase = Phase::TurnEnd;
    assert_eq!(
        decide_pass_action(&f, &pid("p1"), PassActionReason::NoCardsInHand),
        Err(GameError::Validation(ValidationError::WrongPhase {
            expected: Phase::ActiveEffects,
            actual: Phase::TurnEnd
        }))
    );
}

#[test]
fn obligations_of_this_turn_keep_a_player_from_passing() {
    let mut f = facts(0);
    f.formation_requirements.push(FormationRequirement { player: pid("p1"), applied_on_turn: 2 });
    assert_eq!(decide_pass_action(&f, &pid("p1"), PassActionReason::NoCardsInHand), Ok(()));
    f.formation_requirements.push(FormationRequirement { player: pid("p1"), applied_on_turn: 3 });
    assert_eq!(
        decide_pass_action(&f, &pid("p1"), PassActionReason::NoCardsInHand),
        Err(GameError::Validation(ValidationError::ProfessionAbilityCannotResolve(
            "formation-requirement".to_string()
        )))
    );
    let mut g = facts(0);
    g.confluence_card_obligations.push(ConfluenceCardObligation {
        owner: pid("p1"),
        card: CardInstanceId::new(7),
        allow_profession_formation: false,
        applied_on_turn: 3,
        residual_element: None,
        residual_level: None,
    });
    assert_eq!(
        decide_pass_action(&g, &pid("p1"), PassActionReason::NoCardsInHand),
        Err(GameError::Validation(ValidationError::ProfessionAbilityCannotResolve(
            "confluence:tuning-obligation".to_string()
        )))
    );
    assert_eq!(playable_pass_reason(&g, &pid("p1")), None);
}

#[test]
fn an_unknown_player_has_no_hand() {
    let f = facts(0);
    assert_eq!(hand_size(&f, &pid("p2")), Some(4));
    assert_eq!(hand_size(&f, &pid("p9")), None);
    let mut g = facts(0);
    g.current_player = Some(pid("p9"));
    assert_eq!(
        decide_pass_action(&g, &pid("p9"), PassActionReason::NoCardsInHand),
        Err(GameError::Validation(ValidationError::UnknownPlayer(pid("p9"))))
    );
}

#[test]
fn playable_actions_are_asked_for_by_the_current_player_in_the_active_effects_phase() {
    let mut f = facts(0);
    assert_eq!(ensure_can_query_playable_actions(&f, &pid("p1")), Ok(()));
    assert_eq!(
        ensure_can_query_playable_actions(&f, &pid("p2")),
        Err(GameError::Validation(ValidationError::CannotPerformFormation {
            reason: CannotPerformFormationReason::WrongPlayer { expected: pid("p1"), actual: pid("p2") }
        }))
    );
    f.phase = Phase::TurnStart;
    assert_eq!(
        ensure_can_query_playable_actions(&f, &pid("p1")),
        Err(GameError::Validation(ValidationError::CannotPerformFormation {
            reason: CannotPerformFormationReason::WrongPhase {
                expected: Phase::ActiveEffects,
                actual: Phase::TurnStart
            }
        }))
    );
    f.pending_choice = Some(pid("p2"));
    assert_eq!(
        ensure_can_query_playable_actions(&f, &pid("p1")),
        Err(GameError::Validation(ValidationError::CannotPerformFormation {
            reason: CannotPerformFormationReason::PendingChoiceInProgress { player: pid("p2") }
        }))
    );
}

#[test]
fn automatic_advancing_waits_for_pending_work_and_stops_where_players_act() {
    let mut f = facts(3);
    assert_eq!(advance_gate(&f), Ok(true));
    f.pending_choice = Some(pid("p2"));
    assert_eq!(advance_gate(&f), Ok(false));
    f.pending_choice = None;
    f.status = GameStatusKind::Finished;
    assert_eq!(advance_gate(&f), Ok(false));

    let p1 = Some(pid("p1"));
    assert_eq!(
        next_automatic_step(Phase::TurnStart, &p1, true, false, false, false),
        Ok(Some(AutomaticStep::ExpireTurnStartStatus))
    );
    assert_eq!(
        next_automatic_step(Phase::TurnStart, &p1, false, false, false, false),
        Ok(Some(AutomaticStep::StartTurn { player: pid("p1") }))
    );
    assert_eq!(
        next_automatic_step(Phase::TurnStart, &None, false, false, false, false),
        Err(GameError::Validation(ValidationError::EmptyTurnOrder))
    );
    assert_eq!(next_automatic_step(Phase::TurnDraw, &p1, false, true, false, false), Ok(Some(AutomaticStep::DrawForTurn)));
    assert_eq!(next_automatic_step(Phase::TurnDraw, &p1, false, false, false, false), Ok(None));
    assert_eq!(
        next_automatic_step(Phase::TurnEnd, &p1, false, false, false, true),
        Ok(Some(AutomaticStep::ExpireEchoEffect))
    );
    assert_eq!(
        next_automatic_step(Phase::TurnEnd, &p1, false, false, true, true),
        Ok(Some(AutomaticStep::ExpireTurnEndStatus))
    );
    assert_eq!(
        next_automatic_step(Phase::TurnEnd, &p1, false, false, false, false),
        Ok(Some(AutomaticStep::EndTurn { player: pid("p1") }))
    );
    assert_eq!(next_automatic_step(Phase::ActiveEffects, &p1, true, true, true, true), Ok(None));
}

#[test]
fn a_profession_change_keeps_the_turns_obligations() {
    let mut f = facts(3);
    assert_eq!(profession_change_guards(&f, &pid("p1"), &[CardInstanceId::new(1)]), Ok(()));
    f.confluence_card_obligations.push(ConfluenceCardObligation {
        owner: pid("p1"),
        card: CardInstanceId::new(7),
        allow_profession_formation: false,
        applied_on_turn: 3,
        residual_element: None,
        residual_level: None,
    });
    assert_eq!(
        profession_change_guards(&f, &pid("p1"), &[CardInstanceId::new(1)]),
        Err(GameError::Validation(ValidationError::ProfessionAbilityCannotResolve(
            "confluence:tuning-obligation".to_string()
        )))
    );
    assert_eq!(profession_change_guards(&f, &pid("p1"), &[CardInstanceId::new(7)]), Ok(()));
    f.statuses.push(StatusFact { owner: Some(pid("p1")), kind: "CannotAct".to_string() });
    assert_eq!(
        profession_change_guards(&f, &pid("p1"), &[CardInstanceId::new(7)]),
        Err(GameError::Validation(ValidationError::CannotChangeProfession {
            reason: CannotPerformFormationReason::CannotActByStatus { player: pid("p1") }
        }))
    );
    assert_eq!(
        ability_guards(&f, &pid("p1"), "hero:revelation"),
        Err(GameError::Validation(ValidationError::ProfessionAbilityCannotResolve(
            "hero:revelation".to_string()
        )))
    );
    let g = facts(3);
    assert_eq!(ability_guards(&g, &pid("p1"), "hero:revelation"), Ok(()));
    assert_eq!(
        ability_guards(&g, &pid("p2"), "hero:revelation"),
        Err(GameError::Validation(ValidationError::WrongPlayer { expected: pid("p1"), actual: pid("p2") }))
    );
}

#[test]
fn the_previous_players_discard_of_last_turn_can_be_taken_back() {
    let f = facts(3);
    assert_eq!(retrievable_discard(&f, &pid("p1")), Ok(CardInstanceId::new(5)));
    let levels = [(CardInstanceId::new(5), 4u32)];
    let detail = playable_discard_retrieval(&f, &pid("p1"), &levels, &[]).unwrap();
    assert_eq!(detail, discard_retrieval_detail(8));
    let discounted = playable_discard_retrieval(&f, &pid("p1"), &levels, &[ProfessionAbility::SeekerDiscount]);
    assert_eq!(discounted, Some(discard_retrieval_detail(4)));
    assert!(playable_discard_retrieval(&f, &pid("p1"), &[], &[]).is_none());

    let mut old = facts(3);
    old.turn_number = 4;
    assert_eq!(
        retrievable_discard(&old, &pid("p1")),
        Err(GameError::Validation(ValidationError::NoRetrievableDiscard { previous_player: pid("p2") }))
    );
    assert!(playable_discard_retrieval(&old, &pid("p1"), &levels, &[]).is_none());
    let mut off = facts(3);
    off.enabled_rule_modules.clear();
    assert_eq!(
        retrievable_discard(&off, &pid("p1")),
        Err(GameError::Validation(ValidationError::DiscardRetrievalDisabled))
    );
}

#[test]
fn decide_pass_records_the_start_and_the_pass() {
    let f = facts(0);
    assert_eq!(
        pass_action(&f, &pid("p1"), PassActionReason::NoCardsInHand, None, None, false, None, &[]),
        Ok(vec![
            ActionEvent::ActionStarted { player: pid("p1") },
            ActionEvent::ActionPassed { player: pid("p1"), reason: PassActionReason::NoCardsInHand },
        ])
    );
    let g = facts(2);
    assert_eq!(
        pass_action(&g, &pid("p1"), PassActionReason::NoCardsInHand, None, None, false, None, &[]),
        Err(GameError::Validation(ValidationError::CannotPassAction {
            reason: PassActionReason::NoCardsInHand
        }))
    );
}
