use fewfc::domain::{
    EngineInvariantError, GameError, Player, PlayerId, StatusDuration, StatusExpiryTiming, TeamId,
    TurnDrawSkipReason, ValidationError,
};
use fewfc::rules::base::{
    ensure_engine_invariants, previous_player, status_expires_at, turn_draw_plan, TurnDrawPlan,
};

fn ids(names: &[&str]) -> Vec<PlayerId> {
    names.iter().map(|n| PlayerId::new(n)).collect()
}

fn seat(id: &str, team: &str) -> Player {
    Player { id: PlayerId::new(id), team: TeamId::new(team) }
}

#[test]
fn the_previous_player_wraps_around_the_turn_order() {
    let order = ids(&["p1", "p2", "p3"]);
    assert_eq!(previous_player(&order, &PlayerId::new("p2")), Ok(PlayerId::new("p1")));
    assert_eq!(previous_player(&order, &PlayerId::new("p1")), Ok(PlayerId::new("p3")));
    assert_eq!(
        previous_player(&order, &PlayerId::new("p9")),
        Err(GameError::Validation(ValidationError::UnknownPlayer(PlayerId::new("p9"))))
    );
    assert_eq!(previous_player(&ids(&["solo"]), &PlayerId::new("solo")), Ok(PlayerId::new("solo")));
}

#[test]
fn engine_invariants_need_one_area_per_seated_player_and_one_profession_each() {
    let players = [seat("p1", "a"), seat("p2", "b")];
    assert_eq!(ensure_engine_invariants(&players, &ids(&["p2", "p1"]), &ids(&["p1"])), Ok(()));
    assert_eq!(
        ensure_engine_invariants(&players, &ids(&["p1", "p1"]), &[]),
        Err(GameError::EngineInvariant(EngineInvariantError::DuplicateFormationArea { player: PlayerId::new("p1") }))
    );
    assert_eq!(
        ensure_engine_invariants(&players, &ids(&["p1", "p3"]), &[]),
        Err(GameError::EngineInvariant(EngineInvariantError::DuplicateFormationArea { player: PlayerId::new("p3") }))
    );
    assert_eq!(
        ensure_engine_invariants(&players, &ids(&["p1"]), &[]),
        Err(GameError::EngineInvariant(EngineInvariantError::FormationAreaMissing { player: PlayerId::new("p2") }))
    );
    assert_eq!(
        ensure_engine_invariants(&players, &ids(&["p1", "p2"]), &ids(&["p2", "p1", "p2"])),
        Err(GameError::EngineInvariant(EngineInvariantError::DuplicateProfession { player: PlayerId::new("p2") }))
    );
}

#[test]
fn statuses_expire_at_their_owners_moment() {
    let p1 = PlayerId::new("p1");
    let start = StatusExpiryTiming::TurnStart { player: p1.clone() };
    let end = StatusExpiryTiming::TurnEnd { player: p1.clone() };
    assert!(status_expires_at(&StatusDuration::UntilTurnStart { player: p1.clone() }, &start, 3));
    assert!(!status_expires_at(&StatusDuration::UntilTurnStart { player: p1.clone() }, &end, 3));
    assert!(status_expires_at(&StatusDuration::UntilTurnEnd { player: p1.clone() }, &end, 3));
    let numbered = StatusDuration::UntilTurnEndNumber { player: p1.clone(), turn_number: 5 };
    assert!(status_expires_at(&numbered, &end, 5));
    assert!(!status_expires_at(&numbered, &end, 4));
    assert!(!status_expires_at(&StatusDuration::UntilTurnEnd { player: PlayerId::new("p2") }, &end, 3));
    assert!(!status_expires_at(&StatusDuration::Permanent, &end, 3));
}

#[test]
fn the_turn_draw_fills_the_hand_and_draws_one_more() {
    assert_eq!(turn_draw_plan(false, 7, 3, 2, 0), TurnDrawPlan::Draw { count: 3 });
    assert_eq!(turn_draw_plan(false, 7, 3, 2, 5), TurnDrawPlan::Draw { count: 5 });
    assert_eq!(turn_draw_plan(false, 7, 7, 2, 0), TurnDrawPlan::Skipped(TurnDrawSkipReason::HandLimitReached));
    assert_eq!(turn_draw_plan(false, 7, 9, 2, 0), TurnDrawPlan::Skipped(TurnDrawSkipReason::HandLimitReached));
    assert_eq!(turn_draw_plan(true, 7, 3, 2, 0), TurnDrawPlan::Skipped(TurnDrawSkipReason::CannotDrawByStatus));
}
