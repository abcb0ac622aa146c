//! Deck supply planning: whether a pile holds enough cards for a draw, or
//! needs its discard pile shuffled back first.
use crate::domain::{
    CardInstanceId, EngineInvariantError, GameError, PlayerId, ValidationError, copy_cards,
};
use vstd::prelude::*;

verus! {

/// The pile a draw takes from: the shared deck or a player's personal deck.
#[derive(Debug, PartialEq, Eq)]
pub enum RandomnessDeck {
    Shared,
    Player(PlayerId),
}

impl Clone for RandomnessDeck {
    fn clone(&self) -> (r: Self)
        ensures
            r == *self,
    {
        match self {
            RandomnessDeck::Shared => RandomnessDeck::Shared,
            RandomnessDeck::Player(p) => RandomnessDeck::Player(p.clone()),
        }
    }
}

/// Where shuffled cards go in a deck.
#[derive(Clone, Copy, Debug, PartialEq, Eq, Structural)]
pub enum DeckPlacement {
    Top,
    Bottom,
}

/// An operation trusted randomness performs.
#[derive(Debug, PartialEq, Eq)]
pub enum RandomnessOperation {
    DiscardShuffle { pile: RandomnessDeck, placement: DeckPlacement },
}

/// What a draw needs from its pile.
#[derive(Debug, PartialEq, Eq)]
pub enum DeckSupplyPlan {
    Ready,
    NeedsDiscardShuffle { operation: RandomnessOperation, current_order: Vec<CardInstanceId> },
}

/// The plan for drawing `required` cards from a pile holding `deck`, with `discard` as its
/// discard pile: ready when the deck suffices; a shuffle of the discard pile, in its
/// current order, when both piles together suffice; otherwise not enough cards.
pub open spec fn plan_outcome(
    r: Result<DeckSupplyPlan, GameError>,
    pile: RandomnessDeck,
    deck: Seq<CardInstanceId>,
    discard: Seq<CardInstanceId>,
    required: int,
    placement: DeckPlacement,
) -> bool {
    if deck.len() >= required {
        r == Ok::<DeckSupplyPlan, GameError>(DeckSupplyPlan::Ready)
    } else if deck.len() + discard.len() >= required {
        r matches Ok(DeckSupplyPlan::NeedsDiscardShuffle { operation, current_order }) && operation
            == (RandomnessOperation::DiscardShuffle { pile, placement }) && current_order@ == discard
    } else {
        r == Err::<DeckSupplyPlan, GameError>(
            GameError::EngineInvariant(
                EngineInvariantError::NotEnoughCards {
                    needed: required as usize,
                    available: (deck.len() + discard.len()) as usize,
                },
            ),
        )
    }
}

/// The error for a pile of a player the game does not know.
pub open spec fn unknown_pile_error(r: Result<DeckSupplyPlan, GameError>, pile: RandomnessDeck) -> bool {
    match pile {
        RandomnessDeck::Player(p) => r == Err::<DeckSupplyPlan, GameError>(
            GameError::Validation(ValidationError::UnknownPlayer(p)),
        ),
        RandomnessDeck::Shared => false,
    }
}

/// Plans the supply of `required_cards` cards from `pile`, whose deck and discard pile the
/// game holds as `deck` and `discard` (`None` for a player the game does not know).
pub fn plan(
    pile: &RandomnessDeck,
    deck: Option<&[CardInstanceId]>,
    discard: Option<&[CardInstanceId]>,
    required_cards: usize,
    placement: DeckPlacement,
) -> (r: Result<DeckSupplyPlan, GameError>)
    requires
        *pile == RandomnessDeck::Shared ==> deck is Some && discard is Some,
    ensures
        match (deck, discard) {
            (Some(d), Some(x)) => plan_outcome(r, *pile, d@, x@, required_cards as int, placement),
            _ => unknown_pile_error(r, *pile),
        },
{
    let (available_deck, discard) = match (deck, discard) {
        (Some(d), Some(x)) => (d, x),
        _ => {
            return match pile {
                RandomnessDeck::Player(p) => Err(
                    GameError::Validation(ValidationError::UnknownPlayer(p.clone())),
                ),
                RandomnessDeck::Shared => Err(
                    GameError::Validation(ValidationError::UnknownPlayer(PlayerId::new(""))),
                ),
            };
        },
    };
    if available_deck.len() >= required_cards {
        return Ok(DeckSupplyPlan::Ready);
    }
    if discard.len() < required_cards - available_deck.len() {
        return Err(
            GameError::EngineInvariant(
                EngineInvariantError::NotEnoughCards {
                    needed: required_cards,
                    available: available_deck.len() + discard.len(),
                },
            ),
        );
    }
    Ok(
        DeckSupplyPlan::NeedsDiscardShuffle {
            operation: RandomnessOperation::DiscardShuffle { pile: pile.clone(), placement },
            current_order: copy_cards(discard),
        },
    )
}

} // verus!
