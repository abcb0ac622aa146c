//! Pending choices: the one place that allocates a choice identity and checks
//! the shape of an answer before any continuation runs.
use crate::domain::{
    CardInstanceId, ChoiceId, Element, EngineInvariantError, GameError, PlayerId, ValidationError,
    str_eq,
};
use crate::rules::detail::SecretStrategy;
use vstd::prelude::*;

verus! {

/// What a pending choice asks its player to pick.
#[derive(Debug, PartialEq, Eq)]
pub enum PendingChoiceKind {
    Card { cards: Vec<CardInstanceId>, minimum: usize, maximum: usize, can_decline: bool },
    Player { players: Vec<PlayerId>, can_decline: bool },
    Formation { formations: Vec<String>, can_decline: bool },
    Environment { environments: Vec<Element>, can_decline: bool },
    Chain { pouch_owners: Vec<PlayerId>, deck_cards: Vec<CardInstanceId> },
    SheepStealing {
        source_card: CardInstanceId,
        owner: Option<PlayerId>,
        deck_cards: Vec<CardInstanceId>,
        discard_cards: Vec<CardInstanceId>,
    },
}

/// A player's typed answer to a pending choice.
#[derive(Debug, PartialEq, Eq)]
pub enum ChoiceAnswer {
    Cards { cards: Vec<CardInstanceId> },
    Decline,
    Player { player: PlayerId },
    Formation { formation_id: String },
    Environment { environment: Element },
    Chain {
        pouch_owner: PlayerId,
        pouch_card: CardInstanceId,
        trigger_card: Option<CardInstanceId>,
        strategy: Option<SecretStrategy>,
        target_player: Option<PlayerId>,
        star: Option<String>,
        break_star: bool,
        discard_card: Option<CardInstanceId>,
    },
    SheepStealing { deck_cards: Vec<CardInstanceId>, discard_cards: Vec<CardInstanceId> },
}

/// The base ruleset's continuations of a choice.
#[derive(Clone, Copy, Debug, PartialEq, Eq, Structural)]
pub enum BaseChoiceContinuation {
    TurnDrawDiscard,
}

/// Where the rules continue once a choice is answered.
#[derive(Clone, Copy, Debug, PartialEq, Eq, Structural)]
pub enum ChoiceContinuation {
    Base(BaseChoiceContinuation),
}

/// A choice a player must answer before the game goes on.
#[derive(Debug, PartialEq, Eq)]
pub struct PendingChoice {
    pub choice_id: ChoiceId,
    pub player: PlayerId,
    pub kind: PendingChoiceKind,
    pub continuation: ChoiceContinuation,
}

/// A rule module's request for a choice; the identity is allocated on request.
#[derive(Debug, PartialEq, Eq)]
pub struct ChoiceRequest {
    pub player: PlayerId,
    pub kind: PendingChoiceKind,
    pub continuation: ChoiceContinuation,
}

// ---------------------------------------------------------------------------
// Answer shapes.
// ---------------------------------------------------------------------------

/// No card is selected twice.
pub open spec fn no_repeats(s: Seq<CardInstanceId>) -> bool {
    forall|i: int, j: int| 0 <= i < j < s.len() ==> s[i] != s[j]
}

/// Between `minimum` and `maximum` distinct cards, all among `allowed`.
pub open spec fn spec_cards_are_valid(
    allowed: Seq<CardInstanceId>,
    minimum: int,
    maximum: int,
    selected: Seq<CardInstanceId>,
) -> bool {
    &&& minimum <= selected.len() <= maximum
    &&& forall|i: int| 0 <= i < selected.len() ==> allowed.contains(#[trigger] selected[i])
    &&& no_repeats(selected)
}

fn contains_card(cards: &[CardInstanceId], card: CardInstanceId) -> (r: bool)
    ensures
        r == cards@.contains(card),
{
    let mut i: usize = 0;
    while i < cards.len()
        invariant
            i <= cards.len(),
            forall|j: int| 0 <= j < i ==> cards@[j] != card,
        decreases cards.len() - i,
    {
        if cards[i] == card {
            return true;
        }
        i = i + 1;
    }
    false
}

/// Whether between `minimum` and `maximum` distinct cards are selected, all allowed.
pub fn cards_are_valid(
    allowed: &[CardInstanceId],
    minimum: usize,
    maximum: usize,
    selected: &[CardInstanceId],
) -> (r: bool)
    ensures
        r == spec_cards_are_valid(allowed@, minimum as int, maximum as int, selected@),
{
    if selected.len() < minimum || selected.len() > maximum {
        return false;
    }
    let mut i: usize = 0;
    while i < selected.len()
        invariant
            i <= selected.len(),
            forall|k: int| 0 <= k < i ==> allowed@.contains(#[trigger] selected@[k]),
            forall|a: int, b: int| 0 <= a < b < i ==> selected@[a] != selected@[b],
        decreases selected.len() - i,
    {
        if !contains_card(allowed, selected[i]) {
            return false;
        }
        let mut j: usize = 0;
        while j < i
            invariant
                j <= i < selected.len(),
                forall|k: int| 0 <= k < j ==> selected@[k] != selected@[i as int],
            decreases i - j,
        {
            if selected[j] == selected[i] {
                return false;
            }
            j = j + 1;
        }
        i = i + 1;
    }
    true
}

/// Some player of the list is `p`.
pub open spec fn has_player(players: Seq<PlayerId>, p: Seq<char>) -> bool {
    exists|i: int| 0 <= i < players.len() && #[trigger] players[i]@ == p
}

/// Some formation of the list is `f`.
pub open spec fn has_formation(formations: Seq<String>, f: Seq<char>) -> bool {
    exists|i: int| 0 <= i < formations.len() && #[trigger] formations[i]@ == f
}

/// Whether the answer fits the kind of choice: the selected cards, player, formation or
/// environment must be offered; a decline is accepted only where the choice allows it; a
/// chain names an offered pouch owner and deck card, and a different offered deck card as
/// trigger if any; a sheep stealing takes two deck cards, then two cards among the
/// discard pile and those deck cards.
pub open spec fn spec_answer_fits(kind: PendingChoiceKind, answer: ChoiceAnswer) -> bool {
    match (kind, answer) {
        (
            PendingChoiceKind::Card { cards, minimum, maximum, .. },
            ChoiceAnswer::Cards { cards: selected },
        ) => spec_cards_are_valid(cards@, minimum as int, maximum as int, selected@),
        (PendingChoiceKind::Card { can_decline, .. }, ChoiceAnswer::Decline) => can_decline,
        (PendingChoiceKind::Player { can_decline, .. }, ChoiceAnswer::Decline) => can_decline,
        (PendingChoiceKind::Formation { can_decline, .. }, ChoiceAnswer::Decline) => can_decline,
        (PendingChoiceKind::Environment { can_decline, .. }, ChoiceAnswer::Decline) => can_decline,
        (PendingChoiceKind::Player { players, .. }, ChoiceAnswer::Player { player }) => has_player(
            players@,
            player@,
        ),
        (
            PendingChoiceKind::Formation { formations, .. },
            ChoiceAnswer::Formation { formation_id },
        ) => has_formation(formations@, formation_id@),
        (
            PendingChoiceKind::Environment { environments, .. },
            ChoiceAnswer::Environment { environment },
        ) => environments@.contains(environment),
        (
            PendingChoiceKind::Chain { pouch_owners, deck_cards },
            ChoiceAnswer::Chain { pouch_owner, pouch_card, trigger_card, .. },
        ) => {
            &&& has_player(pouch_owners@, pouch_owner@)
            &&& deck_cards@.contains(pouch_card)
            &&& match trigger_card {
                Some(c) => deck_cards@.contains(c) && c != pouch_card,
                None => true,
            }
        },
        (
            PendingChoiceKind::SheepStealing { deck_cards, discard_cards, .. },
            ChoiceAnswer::SheepStealing { deck_cards: selected_deck, discard_cards: selected_discard },
        ) => {
            &&& spec_cards_are_valid(deck_cards@, 2, 2, selected_deck@)
            &&& spec_cards_are_valid(discard_cards@ + selected_deck@, 2, 2, selected_discard@)
        },
        _ => false,
    }
}

fn player_offered(players: &Vec<PlayerId>, p: &PlayerId) -> (r: bool)
    ensures
        r == has_player(players@, p@),
{
    let mut i: usize = 0;
    while i < players.len()
        invariant
            i <= players.len(),
            forall|j: int| 0 <= j < i ==> players@[j]@ != p@,
        decreases players.len() - i,
    {
        if players[i].same(p) {
            return true;
        }
        i = i + 1;
    }
    false
}

fn formation_offered(formations: &Vec<String>, f: &String) -> (r: bool)
    ensures
        r == has_formation(formations@, f@),
{
    let mut i: usize = 0;
    while i < formations.len()
        invariant
            i <= formations.len(),
            forall|j: int| 0 <= j < i ==> formations@[j]@ != f@,
        decreases formations.len() - i,
    {
        if str_eq(formations[i].as_str(), f.as_str()) {
            return true;
        }
        i = i + 1;
    }
    false
}

fn environment_offered(environments: &Vec<Element>, e: Element) -> (r: bool)
    ensures
        r == environments@.contains(e),
{
    let mut i: usize = 0;
    while i < environments.len()
        invariant
            i <= environments.len(),
            forall|j: int| 0 <= j < i ==> environments@[j] != e,
        decreases environments.len() - i,
    {
        if environments[i] == e {
            return true;
        }
        i = i + 1;
    }
    false
}

fn concat_cards(a: &Vec<CardInstanceId>, b: &Vec<CardInstanceId>) -> (r: Vec<CardInstanceId>)
    ensures
        r@ == a@ + b@,
{
    let mut r = crate::domain::copy_cards(a.as_slice());
    let mut i: usize = 0;
    while i < b.len()
        invariant
            i <= b.len(),
            r@ == a@ + b@.subrange(0, i as int),
        decreases b.len() - i,
    {
        r.push(b[i]);
        assert(r@ =~= a@ + b@.subrange(0, i as int + 1));
        i = i + 1;
    }
    assert(b@.subrange(0, b.len() as int) =~= b@);
    r
}

/// Whether the answer fits the kind of choice.
pub fn answer_fits(kind: &PendingChoiceKind, answer: &ChoiceAnswer) -> (r: bool)
    ensures
        r == spec_answer_fits(*kind, *answer),
{
    match (kind, answer) {
        (
            PendingChoiceKind::Card { cards, minimum, maximum, .. },
            ChoiceAnswer::Cards { cards: selected },
        ) => cards_are_valid(cards.as_slice(), *minimum, *maximum, selected.as_slice()),
        (PendingChoiceKind::Card { can_decline, .. }, ChoiceAnswer::Decline) => *can_decline,
        (PendingChoiceKind::Player { can_decline, .. }, ChoiceAnswer::Decline) => *can_decline,
        (PendingChoiceKind::Formation { can_decline, .. }, ChoiceAnswer::Decline) => *can_decline,
        (PendingChoiceKind::Environment { can_decline, .. }, ChoiceAnswer::Decline) => *can_decline,
        (PendingChoiceKind::Player { players, .. }, ChoiceAnswer::Player { player }) => player_offered(
            players,
            player,
        ),
        (
            PendingChoiceKind::Formation { formations, .. },
            ChoiceAnswer::Formation { formation_id },
        ) => formation_offered(formations, formation_id),
        (
            PendingChoiceKind::Environment { environments, .. },
            ChoiceAnswer::Environment { environment },
        ) => environment_offered(environments, *environment),
        (
            PendingChoiceKind::Chain { pouch_owners, deck_cards },
            ChoiceAnswer::Chain { pouch_owner, pouch_card, trigger_card, .. },
        ) => {
            player_offered(pouch_owners, pouch_owner) && contains_card(
                deck_cards.as_slice(),
                *pouch_card,
            ) && match trigger_card {
                Some(c) => contains_card(deck_cards.as_slice(), *c) && *c != *pouch_card,
                None => true,
            }
        },
        (
            PendingChoiceKind::SheepStealing { deck_cards, discard_cards, .. },
            ChoiceAnswer::SheepStealing { deck_cards: selected_deck, discard_cards: selected_discard },
        ) => {
            if !cards_are_valid(deck_cards.as_slice(), 2, 2, selected_deck.as_slice()) {
                return false;
            }
            let returnable = concat_cards(discard_cards, selected_deck);
            cards_are_valid(returnable.as_slice(), 2, 2, selected_discard.as_slice())
        },
        _ => false,
    }
}

/// The error an answer meets: from another player, for another choice identity, or of
/// the wrong shape.
pub open spec fn answer_error(
    choice: PendingChoice,
    player: PlayerId,
    choice_id: ChoiceId,
    answer: ChoiceAnswer,
    e: GameError,
) -> bool {
    if choice.player@ != player@ {
        e matches GameError::Validation(ValidationError::WrongPlayer { expected, actual })
            && expected == choice.player && actual == player
    } else if choice.choice_id != choice_id {
        e == GameError::Validation(
            ValidationError::StaleChoiceId { expected: choice.choice_id, actual: choice_id },
        )
    } else {
        !spec_answer_fits(choice.kind, answer) && e == GameError::Validation(
            ValidationError::InvalidChoiceAnswer,
        )
    }
}

/// Checks an answer against the pending choice: it must come from the choice's player,
/// name the choice's identity, and fit the choice's kind.
pub fn validate_answer(
    choice: &PendingChoice,
    player: &PlayerId,
    choice_id: ChoiceId,
    answer: &ChoiceAnswer,
) -> (r: Result<(), GameError>)
    ensures
        r is Ok <==> (choice.player@ == player@ && choice.choice_id == choice_id
            && spec_answer_fits(choice.kind, *answer)),
        r matches Err(e) ==> answer_error(*choice, *player, choice_id, *answer, e),
{
    if !choice.player.same(player) {
        return Err(
            GameError::Validation(
                ValidationError::WrongPlayer { expected: choice.player.clone(), actual: player.clone() },
            ),
        );
    }
    if choice.choice_id != choice_id {
        return Err(
            GameError::Validation(
                ValidationError::StaleChoiceId { expected: choice.choice_id, actual: choice_id },
            ),
        );
    }
    if answer_fits(&choice.kind, answer) {
        Ok(())
    } else {
        Err(GameError::Validation(ValidationError::InvalidChoiceAnswer))
    }
}

/// A card choice whose bounds cannot be met: more required than allowed, or, without a
/// decline, more than the offered cards.
pub open spec fn spec_request_malformed(kind: PendingChoiceKind) -> bool {
    match kind {
        PendingChoiceKind::Card { cards, minimum, maximum, can_decline } => minimum > maximum || (
        !can_decline && (maximum > cards@.len() || minimum > cards@.len())),
        _ => false,
    }
}

/// Checks that a requested card choice can be answered.
pub fn validate_request(request: &ChoiceRequest) -> (r: Result<(), GameError>)
    ensures
        r is Ok <==> !spec_request_malformed(request.kind),
        r is Err ==> r == Err::<(), GameError>(
            GameError::EngineInvariant(EngineInvariantError::InvalidPendingChoice),
        ),
{
    match &request.kind {
        PendingChoiceKind::Card { cards, minimum, maximum, can_decline } => {
            if *minimum > *maximum || (!*can_decline && (*maximum > cards.len() || *minimum
                > cards.len())) {
                return Err(GameError::EngineInvariant(EngineInvariantError::InvalidPendingChoice));
            }
        },
        _ => {},
    }
    Ok(())
}

/// The choice a request opens, given the game's pending choice (if any) and the next
/// choice identity: refused while another choice is pending or when the request is
/// malformed; otherwise the request under the next identity.
pub fn request_event(
    pending: Option<&PendingChoice>,
    next_choice_id: ChoiceId,
    request: ChoiceRequest,
) -> (r: Result<PendingChoice, GameError>)
    ensures
        pending is Some ==> r == Err::<PendingChoice, GameError>(
            GameError::EngineInvariant(EngineInvariantError::InvalidPendingChoice),
        ),
        pending is None && spec_request_malformed(request.kind) ==> r == Err::<
            PendingChoice,
            GameError,
        >(GameError::EngineInvariant(EngineInvariantError::InvalidPendingChoice)),
        pending is None && !spec_request_malformed(request.kind) ==> r == Ok::<
            PendingChoice,
            GameError,
        >(
            PendingChoice {
                choice_id: next_choice_id,
                player: request.player,
                kind: request.kind,
                continuation: request.continuation,
            },
        ),
{
    if pending.is_some() {
        return Err(GameError::EngineInvariant(EngineInvariantError::InvalidPendingChoice));
    }
    match validate_request(&request) {
        Ok(()) => {},
        Err(e) => {
            return Err(e);
        },
    }
    Ok(
        PendingChoice {
            choice_id: next_choice_id,
            player: request.player,
            kind: request.kind,
            continuation: request.continuation,
        },
    )
}


/// Checks a choice-answer command before its continuation runs: without a pending choice
/// an identity below the next one to be issued is stale and any other is missing; with
/// one, the answer must come from its player, name its identity and fit its kind.
pub fn validate_answer_command(
    pending: &Option<PendingChoice>,
    next_choice_id: ChoiceId,
    player: &PlayerId,
    choice_id: ChoiceId,
    answer: &ChoiceAnswer,
) -> (r: Result<(), GameError>)
    ensures
        match *pending {
            None => r == if choice_id.0 < next_choice_id.0 {
                Err::<(), GameError>(
                    GameError::Validation(
                        ValidationError::StaleChoiceId { expected: next_choice_id, actual: choice_id },
                    ),
                )
            } else {
                Err::<(), GameError>(GameError::Validation(ValidationError::MissingPendingChoice))
            },
            Some(choice) => {
                &&& r is Ok <==> (choice.player@ == player@ && choice.choice_id == choice_id
                    && spec_answer_fits(choice.kind, *answer))
                &&& r matches Err(e) ==> answer_error(choice, *player, choice_id, *answer, e)
            },
        },
{
    match pending {
        None => if choice_id.0 < next_choice_id.0 {
            Err(
                GameError::Validation(
                    ValidationError::StaleChoiceId { expected: next_choice_id, actual: choice_id },
                ),
            )
        } else {
            Err(GameError::Validation(ValidationError::MissingPendingChoice))
        },
        Some(choice) => validate_answer(choice, player, choice_id, answer),
    }
}


/// Whether the choice may be declined: only a card, player, formation or environment
/// choice may be, and only where it says so.
pub open spec fn may_decline(kind: PendingChoiceKind) -> bool {
    match kind {
        PendingChoiceKind::Card { can_decline, .. } => can_decline,
        PendingChoiceKind::Player { can_decline, .. } => can_decline,
        PendingChoiceKind::Formation { can_decline, .. } => can_decline,
        PendingChoiceKind::Environment { can_decline, .. } => can_decline,
        _ => false,
    }
}

/// Which answers fit which choices, for every choice and answer: a decline fits exactly
/// the choices that may be declined; a player fits a player choice that offers them; a
/// formation a formation choice that offers it; an environment an environment choice that
/// offers it; and selected cards a card choice exactly when they are between its minimum
/// and maximum in number, all offered, and none twice. No answer of one kind fits a
/// choice of another.
pub proof fn lemma_answers_that_fit(kind: PendingChoiceKind, answer: ChoiceAnswer)
    ensures
        answer is Decline ==> (spec_answer_fits(kind, answer) <==> may_decline(kind)),
        answer matches ChoiceAnswer::Player { player } ==> (spec_answer_fits(kind, answer) <==> (
        kind matches PendingChoiceKind::Player { players, .. } && exists|i: int|
            0 <= i < players@.len() && players@[i]@ == player@)),
        answer matches ChoiceAnswer::Formation { formation_id } ==> (spec_answer_fits(kind, answer)
            <==> (kind matches PendingChoiceKind::Formation { formations, .. } && exists|i: int|
            0 <= i < formations@.len() && formations@[i]@ == formation_id@)),
        answer matches ChoiceAnswer::Environment { environment } ==> (spec_answer_fits(kind, answer)
            <==> (kind matches PendingChoiceKind::Environment { environments, .. }
            && environments@.contains(environment))),
        answer matches ChoiceAnswer::Cards { cards: selected } ==> (spec_answer_fits(kind, answer)
            <==> (kind matches PendingChoiceKind::Card { cards, minimum, maximum, .. } && minimum
            <= selected@.len() <= maximum && (forall|i: int|
            0 <= i < selected@.len() ==> cards@.contains(selected@[i])) && (forall|i: int, j: int|
            0 <= i < j < selected@.len() ==> selected@[i] != selected@[j]))),
        answer matches ChoiceAnswer::Chain { pouch_owner, pouch_card, trigger_card, .. } ==> (
        spec_answer_fits(kind, answer) <==> (kind matches PendingChoiceKind::Chain {
            pouch_owners,
            deck_cards,
        } && (exists|i: int| 0 <= i < pouch_owners@.len() && pouch_owners@[i]@ == pouch_owner@)
            && deck_cards@.contains(pouch_card) && (trigger_card is Some ==> deck_cards@.contains(
            trigger_card->0,
        ) && trigger_card->0 != pouch_card))),
        answer is SheepStealing ==> (spec_answer_fits(kind, answer) ==> kind is SheepStealing),
{
}

} // verus!
