use fewfc::domain::{CardInstanceId, EngineInvariantError, GameError, PlayerId, ValidationError};
use fewfc::rules::deck_supply::{plan, DeckPlacement, DeckSupplyPlan, RandomnessDeck, RandomnessOperation};

fn card(id: u64) -> CardInstanceId {
    CardInstanceId::new(id)
}

fn cards(ids: Vec<u64>) -> Vec<CardInstanceId> {
    ids.into_iter().map(card).collect()
}

#[test]
fn enough_cards_in_deck_are_ready_without_a_shuffle() {
    let deck = cards(vec![1, 2]);
    let discard = cards(vec![3]);
    assert_eq!(
        plan(&RandomnessDeck::Shared, Some(&deck), Some(&discard), 2, DeckPlacement::Bottom).unwrap(),
        DeckSupplyPlan::Ready
    );
}

#[test]
fn partially_full_deck_still_recycles_discard_for_exact_requirement() {
    let deck = cards(vec![1]);
    let discard = cards(vec![2]);
    assert!(matches!(
        plan(&RandomnessDeck::Shared, Some(&deck), Some(&discard), 2, DeckPlacement::Bottom).unwrap(),
        DeckSupplyPlan::NeedsDiscardShuffle { current_order, .. } if current_order == vec![card(2)]
    ));
}

#[test]
fn insufficient_combined_piles_are_an_engine_invariant_error() {
    let deck = cards(vec![]);
    let discard = cards(vec![1]);
    assert_eq!(
        plan(&RandomnessDeck::Shared, Some(&deck), Some(&discard), 2, DeckPlacement::Bottom),
        Err(GameError::EngineInvariant(EngineInvariantError::NotEnoughCards { needed: 2, available: 1 }))
    );
}

#[test]
fn shuffle_names_the_pile_and_placement() {
    let deck = cards(vec![]);
    let discard = cards(vec![4, 5]);
    let pile = RandomnessDeck::Player(PlayerId::new("p1"));
    assert_eq!(
        plan(&pile, Some(&deck), Some(&discard), 1, DeckPlacement::Top).unwrap(),
        DeckSupplyPlan::NeedsDiscardShuffle {
            operation: RandomnessOperation::DiscardShuffle { pile: pile.clone(), placement: DeckPlacement::Top },
            current_order: cards(vec![4, 5]),
        }
    );
}

#[test]
fn unknown_player_pile_is_refused() {
    let pile = RandomnessDeck::Player(PlayerId::new("ghost"));
    assert_eq!(
        plan(&pile, None, None, 1, DeckPlacement::Bottom),
        Err(GameError::Validation(ValidationError::UnknownPlayer(PlayerId::new("ghost"))))
    );
}
