//! The guards a command passes before the base rules act on it; a passed action and
//! the events it records; the guards of a profession change and of a profession
//! ability; the card a player may take back from the previous turn's discard; which pass
//! and which retrieval a player is offered; and the next automatic step of a turn.
//!
//! These functions read a game through [`CommandFacts`], the plain values the guards
//! look at. The game state itself, the events of the other commands, and the commands
//! of the pouch module are not part of this library: a command the pouch module takes
//! over is decided before these guards, and whether the pouch module protects a player
//! is one of the facts given.
use crate::domain::{
    CardInstanceId, CannotPerformFormationReason, ConfluenceCardObligation, GameError, GameStatusKind, Phase,
    PassActionReason, Player, PlayerId, RuleModuleId, ValidationError, owned, str_eq,
    DISCARD_RETRIEVAL_MODULE_ID, module_enabled, modules_contain,
};
use crate::rules::base::{ensure_engine_invariants, previous_player, spec_engine_invariants, spec_previous_player};
use crate::rules::confluence::{obligation_from, profession_change_satisfies_obligation};
use crate::rules::covered_passive::{
    CounterEffect, CoveredPassive, IncomingActionKind, PassiveTriggerEvent, TriggerRequest,
    spec_trigger_events, trigger_defined, trigger_event_views,
};
use crate::domain::Element;
use crate::rules::detail::{PlayerFacingActionDetail, discard_retrieval_consequences, discard_retrieval_detail};
use crate::rules::hero::{ProfessionAbility, discard_retrieval_cost, half_toward_zero};
use vstd::prelude::*;

verus! {

/// A formation a player is required to use, and the turn the requirement was applied on.
pub struct FormationRequirement {
    pub player: PlayerId,
    pub applied_on_turn: u64,
}

/// A lasting status: its kind, and the player who holds it when a player does.
pub struct StatusFact {
    pub owner: Option<PlayerId>,
    pub kind: String,
}

/// What the command guards read of a game.
pub struct CommandFacts {
    /// Whether the game is being prepared, played or over.
    pub status: GameStatusKind,
    /// The request identity of a pending random draw, if one is pending.
    pub pending_randomness: Option<String>,
    /// The player a pending choice waits for, if a choice is pending.
    pub pending_choice: Option<PlayerId>,
    /// The player whose turn it is, when the turn order names one.
    pub current_player: Option<PlayerId>,
    pub phase: Phase,
    pub turn_number: u64,
    pub players: Vec<Player>,
    /// The owner of each formation area, in order.
    pub formation_area_owners: Vec<PlayerId>,
    /// The owner of each profession, in order.
    pub profession_owners: Vec<PlayerId>,
    pub formation_requirements: Vec<FormationRequirement>,
    pub confluence_card_obligations: Vec<ConfluenceCardObligation>,
    pub statuses: Vec<StatusFact>,
    /// The number of cards in each player's hand.
    pub hand_sizes: Vec<(PlayerId, usize)>,
    /// The players the pouch module protects from being unable to act or draw.
    pub protected_players: Vec<PlayerId>,
    pub turn_order: Vec<PlayerId>,
    pub enabled_rule_modules: Vec<RuleModuleId>,
    /// The card each player discarded last, and the turn it was discarded on.
    pub last_turn_discards: Vec<(PlayerId, LastTurnDiscard)>,
}

/// The card a player discarded last, and the turn it was discarded on.
pub struct LastTurnDiscard {
    pub card: CardInstanceId,
    pub turn_number: u64,
}

// ---------------------------------------------------------------------------
// Specification.
// ---------------------------------------------------------------------------

/// The guards every command passes, in order: a finished game refuses everything, a game
/// in preparation refuses the base commands, a pending random draw refuses every
/// command, and a pending choice refuses every command but its answer.
pub open spec fn spec_command_gate(f: CommandFacts, answers_choice: bool) -> Result<(), GameError> {
    if f.status == GameStatusKind::Finished {
        Err(GameError::Validation(ValidationError::GameFinished))
    } else if f.status == GameStatusKind::Preparing {
        Err(GameError::Validation(ValidationError::GamePreparationInProgress))
    } else if f.pending_randomness is Some {
        Err(
            GameError::Validation(
                ValidationError::PendingRandomnessInProgress {
                    request_id: f.pending_randomness->0,
                },
            ),
        )
    } else if f.pending_choice is Some && !answers_choice {
        Err(
            GameError::Validation(
                ValidationError::PendingChoiceInProgress { player: f.pending_choice->0 },
            ),
        )
    } else {
        Ok(())
    }
}

/// Only the player whose turn it is may act.
pub open spec fn spec_current_player_check(current: Option<PlayerId>, actual: PlayerId) -> Result<
    (),
    GameError,
> {
    match current {
        None => Err(GameError::Validation(ValidationError::EmptyTurnOrder)),
        Some(expected) => if expected@ == actual@ {
            Ok(())
        } else {
            Err(GameError::Validation(ValidationError::WrongPlayer { expected, actual }))
        },
    }
}

/// A command is accepted only in the phase it belongs to.
pub open spec fn spec_phase_check(actual: Phase, expected: Phase) -> Result<(), GameError> {
    if actual == expected {
        Ok(())
    } else {
        Err(GameError::Validation(ValidationError::WrongPhase { expected, actual }))
    }
}

/// Whether a player is among the listed players.
pub open spec fn listed(players: Seq<PlayerId>, player: PlayerId) -> bool {
    exists|i: int| 0 <= i < players.len() && #[trigger] players[i]@ == player@
}

/// Whether the player holds a status of the kind. A protected player holds no status
/// that keeps them from acting or drawing.
pub open spec fn spec_has_status(f: CommandFacts, player: PlayerId, kind: Seq<char>) -> bool {
    if (kind == "CannotAct"@ || kind == "CannotDraw"@) && listed(f.protected_players@, player) {
        false
    } else {
        exists|i: int| 0 <= i < f.statuses@.len() && status_held(#[trigger] f.statuses@[i], player, kind)
    }
}

/// Whether the status is of the kind and held by the player.
pub open spec fn status_held(st: StatusFact, player: PlayerId, kind: Seq<char>) -> bool {
    &&& st.owner is Some
    &&& st.owner->0@ == player@
    &&& st.kind@ == kind
}

/// Whether a formation requirement of the player was applied this turn.
pub open spec fn requirement_pending(f: CommandFacts, player: PlayerId) -> bool {
    exists|i: int|
        0 <= i < f.formation_requirements@.len() && (#[trigger] f.formation_requirements@[i]).player@
            == player@ && f.formation_requirements@[i].applied_on_turn == f.turn_number
}

/// Whether a Confluence card obligation of the player was applied this turn.
pub open spec fn obligation_pending(f: CommandFacts, player: PlayerId) -> bool {
    exists|i: int|
        0 <= i < f.confluence_card_obligations@.len()
            && (#[trigger] f.confluence_card_obligations@[i]).owner@ == player@
            && f.confluence_card_obligations@[i].applied_on_turn == f.turn_number
}

/// The hand size of the first entry for the player, from position `i` on.
pub open spec fn hand_size_from(hands: Seq<(PlayerId, usize)>, player: PlayerId, i: int) -> Option<usize>
    decreases hands.len() - i,
{
    if i < 0 || i >= hands.len() {
        None
    } else if hands[i].0@ == player@ {
        Some(hands[i].1)
    } else {
        hand_size_from(hands, player, i + 1)
    }
}

/// The number of cards in the player's hand, if the player has a hand.
pub open spec fn spec_hand_size(f: CommandFacts, player: PlayerId) -> Option<usize> {
    hand_size_from(f.hand_sizes@, player, 0)
}

/// Whether the reason the player gives for passing holds.
pub open spec fn spec_pass_reason_check(
    f: CommandFacts,
    player: PlayerId,
    reason: PassActionReason,
) -> Result<(), GameError> {
    match reason {
        PassActionReason::NoCardsInHand => match spec_hand_size(f, player) {
            None => Err(GameError::Validation(ValidationError::UnknownPlayer(player))),
            Some(n) => if n == 0 {
                Ok(())
            } else {
                Err(GameError::Validation(ValidationError::CannotPassAction { reason }))
            },
        },
        PassActionReason::CannotActByStatus => if spec_has_status(f, player, "CannotAct"@) {
            Ok(())
        } else {
            Err(GameError::Validation(ValidationError::CannotPassAction { reason }))
        },
    }
}

/// The verdict of the base rules' guards on a command: accepted, refused with an error,
/// or refused because something the player must resolve this turn, or the named
/// ability, cannot be resolved by the command (its key is given).
pub enum GuardVerdict {
    Accepted,
    Refused(GameError),
    Unresolvable(Seq<char>),
}

/// Whether the base rules accept a player passing the action for the reason: the engine
/// invariants hold, the command guards let it through, it is the player's turn and the
/// active-effects phase, no formation requirement or Confluence obligation of the player
/// was applied this turn, and the reason holds.
pub open spec fn spec_decide_pass(f: CommandFacts, player: PlayerId, reason: PassActionReason) -> GuardVerdict {
    if spec_engine_invariants(f.players@, f.formation_area_owners@, f.profession_owners@) is Err {
        GuardVerdict::Refused(
            spec_engine_invariants(f.players@, f.formation_area_owners@, f.profession_owners@)->Err_0,
        )
    } else if spec_command_gate(f, false) is Err {
        GuardVerdict::Refused(spec_command_gate(f, false)->Err_0)
    } else if spec_current_player_check(f.current_player, player) is Err {
        GuardVerdict::Refused(spec_current_player_check(f.current_player, player)->Err_0)
    } else if spec_phase_check(f.phase, Phase::ActiveEffects) is Err {
        GuardVerdict::Refused(spec_phase_check(f.phase, Phase::ActiveEffects)->Err_0)
    } else if requirement_pending(f, player) {
        GuardVerdict::Unresolvable("formation-requirement"@)
    } else if obligation_pending(f, player) {
        GuardVerdict::Unresolvable("confluence:tuning-obligation"@)
    } else {
        match spec_pass_reason_check(f, player, reason) {
            Ok(_) => GuardVerdict::Accepted,
            Err(e) => GuardVerdict::Refused(e),
        }
    }
}

/// The result of a command's guards agrees with the verdict.
pub open spec fn guard_outcome(r: Result<(), GameError>, v: GuardVerdict) -> bool {
    match v {
        GuardVerdict::Accepted => r is Ok,
        GuardVerdict::Refused(e) => r == Err::<(), GameError>(e),
        GuardVerdict::Unresolvable(key) => r matches Err(
            GameError::Validation(ValidationError::ProfessionAbilityCannotResolve(m)),
        ) && m@ == key,
    }
}

/// The pass a player is offered: for an empty hand, or else for a status that keeps
/// the player from acting, and only where the base rules would accept that pass.
pub open spec fn spec_playable_pass_reason(f: CommandFacts, player: PlayerId) -> Option<
    PassActionReason,
> {
    let candidate = match spec_hand_size(f, player) {
        None => None,
        Some(n) => if n == 0 {
            Some(PassActionReason::NoCardsInHand)
        } else if spec_has_status(f, player, "CannotAct"@) {
            Some(PassActionReason::CannotActByStatus)
        } else {
            None
        },
    };
    match candidate {
        Some(reason) => if spec_decide_pass(f, player, reason) is Accepted {
            Some(reason)
        } else {
            None
        },
        None => None,
    }
}

/// Whether the player may ask which actions are playable now: the engine invariants
/// hold, the game is not over, nothing is pending, and it is the player's turn and the
/// active-effects phase.
pub open spec fn spec_can_query_playable_actions(f: CommandFacts, player: PlayerId) -> Result<
    (),
    GameError,
> {
    if spec_engine_invariants(f.players@, f.formation_area_owners@, f.profession_owners@) is Err {
        spec_engine_invariants(f.players@, f.formation_area_owners@, f.profession_owners@)
    } else if f.status == GameStatusKind::Finished {
        Err(GameError::Validation(ValidationError::GameFinished))
    } else if f.pending_choice is Some {
        Err(
            GameError::Validation(
                ValidationError::CannotPerformFormation {
                    reason: CannotPerformFormationReason::PendingChoiceInProgress {
                        player: f.pending_choice->0,
                    },
                },
            ),
        )
    } else if f.pending_randomness is Some {
        Err(
            GameError::Validation(
                ValidationError::PendingRandomnessInProgress {
                    request_id: f.pending_randomness->0,
                },
            ),
        )
    } else {
        match f.current_player {
            None => Err(GameError::Validation(ValidationError::EmptyTurnOrder)),
            Some(expected) => if expected@ != player@ {
                Err(
                    GameError::Validation(
                        ValidationError::CannotPerformFormation {
                            reason: CannotPerformFormationReason::WrongPlayer {
                                expected,
                                actual: player,
                            },
                        },
                    ),
                )
            } else if f.phase != Phase::ActiveEffects {
                Err(
                    GameError::Validation(
                        ValidationError::CannotPerformFormation {
                            reason: CannotPerformFormationReason::WrongPhase {
                                expected: Phase::ActiveEffects,
                                actual: f.phase,
                            },
                        },
                    ),
                )
            } else {
                Ok(())
            },
        }
    }
}

// ---------------------------------------------------------------------------
// Implementation.
// ---------------------------------------------------------------------------

/// The guards every command passes; `answers_choice` tells whether the command answers
/// the pending choice.
pub fn command_gate(f: &CommandFacts, answers_choice: bool) -> (r: Result<(), GameError>)
    ensures
        r == spec_command_gate(*f, answers_choice),
{
    if f.status == GameStatusKind::Finished {
        return Err(GameError::Validation(ValidationError::GameFinished));
    }
    if f.status == GameStatusKind::Preparing {
        return Err(GameError::Validation(ValidationError::GamePreparationInProgress));
    }
    match &f.pending_randomness {
        Some(id) => {
            return Err(
                GameError::Validation(
                    ValidationError::PendingRandomnessInProgress { request_id: id.clone() },
                ),
            );
        },
        None => {},
    }
    match &f.pending_choice {
        Some(p) => {
            if !answers_choice {
                return Err(
                    GameError::Validation(ValidationError::PendingChoiceInProgress { player: p.clone() }),
                );
            }
        },
        None => {},
    }
    Ok(())
}

/// Only the player whose turn it is may act.
pub fn ensure_current_player(current: &Option<PlayerId>, actual: &PlayerId) -> (r: Result<
    (),
    GameError,
>)
    ensures
        r == spec_current_player_check(*current, *actual),
{
    match current {
        None => Err(GameError::Validation(ValidationError::EmptyTurnOrder)),
        Some(expected) => if expected.same(actual) {
            Ok(())
        } else {
            Err(
                GameError::Validation(
                    ValidationError::WrongPlayer { expected: expected.clone(), actual: actual.clone() },
                ),
            )
        },
    }
}

/// A command is accepted only in the phase it belongs to.
pub fn ensure_phase(actual: Phase, expected: Phase) -> (r: Result<(), GameError>)
    ensures
        r == spec_phase_check(actual, expected),
{
    if actual == expected {
        Ok(())
    } else {
        Err(GameError::Validation(ValidationError::WrongPhase { expected, actual }))
    }
}

fn is_listed(players: &Vec<PlayerId>, player: &PlayerId) -> (r: bool)
    ensures
        r == listed(players@, *player),
{
    let mut i: usize = 0;
    while i < players.len()
        invariant
            i <= players.len(),
            forall|k: int| 0 <= k < i ==> (#[trigger] players@[k])@ != player@,
        decreases players.len() - i,
    {
        if players[i].same(player) {
            return true;
        }
        i = i + 1;
    }
    false
}

/// Whether the player holds a status of the kind; a protected player holds no status
/// that keeps them from acting or drawing.
pub fn player_has_status(f: &CommandFacts, player: &PlayerId, kind: &str) -> (r: bool)
    ensures
        r == spec_has_status(*f, *player, kind@),
{
    if (str_eq(kind, "CannotAct") || str_eq(kind, "CannotDraw")) && is_listed(
        &f.protected_players,
        player,
    ) {
        return false;
    }
    let mut i: usize = 0;
    while i < f.statuses.len()
        invariant
            i <= f.statuses@.len(),
            !((kind@ == "CannotAct"@ || kind@ == "CannotDraw"@) && listed(f.protected_players@, *player)),
            forall|k: int|
                0 <= k < i ==> !status_held(#[trigger] f.statuses@[k], *player, kind@),
        decreases f.statuses@.len() - i,
    {
        let status = &f.statuses[i];
        match &status.owner {
            Some(o) => {
                if o.same(player) && str_eq(status.kind.as_str(), kind) {
                    assert(status_held(f.statuses@[i as int], *player, kind@));
                    return true;
                }
            },
            None => {},
        }
        i = i + 1;
    }
    false
}

fn has_pending_requirement(f: &CommandFacts, player: &PlayerId) -> (r: bool)
    ensures
        r == requirement_pending(*f, *player),
{
    let mut i: usize = 0;
    while i < f.formation_requirements.len()
        invariant
            i <= f.formation_requirements@.len(),
            forall|k: int|
                0 <= k < i ==> !((#[trigger] f.formation_requirements@[k]).player@ == player@
                    && f.formation_requirements@[k].applied_on_turn == f.turn_number),
        decreases f.formation_requirements@.len() - i,
    {
        let q = &f.formation_requirements[i];
        if q.player.same(player) && q.applied_on_turn == f.turn_number {
            return true;
        }
        i = i + 1;
    }
    false
}

fn has_pending_obligation(f: &CommandFacts, player: &PlayerId) -> (r: bool)
    ensures
        r == obligation_pending(*f, *player),
{
    let mut i: usize = 0;
    while i < f.confluence_card_obligations.len()
        invariant
            i <= f.confluence_card_obligations@.len(),
            forall|k: int|
                0 <= k < i ==> !((#[trigger] f.confluence_card_obligations@[k]).owner@ == player@
                    && f.confluence_card_obligations@[k].applied_on_turn == f.turn_number),
        decreases f.confluence_card_obligations@.len() - i,
    {
        let q = &f.confluence_card_obligations[i];
        if q.owner.same(player) && q.applied_on_turn == f.turn_number {
            return true;
        }
        i = i + 1;
    }
    false
}

/// The number of cards in the player's hand, if the player has a hand.
pub fn hand_size(f: &CommandFacts, player: &PlayerId) -> (r: Option<usize>)
    ensures
        r == spec_hand_size(*f, *player),
{
    let mut i: usize = 0;
    while i < f.hand_sizes.len()
        invariant
            i <= f.hand_sizes@.len(),
            hand_size_from(f.hand_sizes@, *player, 0) == hand_size_from(f.hand_sizes@, *player, i as int),
        decreases f.hand_sizes@.len() - i,
    {
        if f.hand_sizes[i].0.same(player) {
            return Some(f.hand_sizes[i].1);
        }
        i = i + 1;
    }
    None
}

/// Whether the base rules accept the player passing the action for the reason.
pub fn decide_pass_action(f: &CommandFacts, player: &PlayerId, reason: PassActionReason) -> (r: Result<
    (),
    GameError,
>)
    ensures
        guard_outcome(r, spec_decide_pass(*f, *player, reason)),
{
    ensure_engine_invariants(&f.players, &f.formation_area_owners, &f.profession_owners)?;
    command_gate(f, false)?;
    ensure_current_player(&f.current_player, player)?;
    ensure_phase(f.phase, Phase::ActiveEffects)?;
    if has_pending_requirement(f, player) {
        return Err(
            GameError::Validation(
                ValidationError::ProfessionAbilityCannotResolve(owned("formation-requirement")),
            ),
        );
    }
    if has_pending_obligation(f, player) {
        return Err(
            GameError::Validation(
                ValidationError::ProfessionAbilityCannotResolve(owned("confluence:tuning-obligation")),
            ),
        );
    }
    match reason {
        PassActionReason::NoCardsInHand => match hand_size(f, player) {
            None => Err(GameError::Validation(ValidationError::UnknownPlayer(player.clone()))),
            Some(n) => if n == 0 {
                Ok(())
            } else {
                Err(GameError::Validation(ValidationError::CannotPassAction { reason }))
            },
        },
        PassActionReason::CannotActByStatus => if player_has_status(f, player, "CannotAct") {
            Ok(())
        } else {
            Err(GameError::Validation(ValidationError::CannotPassAction { reason }))
        },
    }
}

/// The pass the player is offered, if any: for an empty hand, or else for a status that
/// keeps the player from acting, and only where the base rules accept that pass. An
/// offered pass is always accepted.
pub fn playable_pass_reason(f: &CommandFacts, player: &PlayerId) -> (r: Option<PassActionReason>)
    ensures
        r == spec_playable_pass_reason(*f, *player),
        r matches Some(reason) ==> spec_decide_pass(*f, *player, reason) is Accepted,
{
    let candidate = match hand_size(f, player) {
        None => None,
        Some(n) => if n == 0 {
            Some(PassActionReason::NoCardsInHand)
        } else if player_has_status(f, player, "CannotAct") {
            Some(PassActionReason::CannotActByStatus)
        } else {
            None
        },
    };
    match candidate {
        Some(reason) => match decide_pass_action(f, player, reason) {
            Ok(()) => Some(reason),
            Err(_) => None,
        },
        None => None,
    }
}

/// Whether the player may ask which actions are playable now.
pub fn ensure_can_query_playable_actions(f: &CommandFacts, player: &PlayerId) -> (r: Result<
    (),
    GameError,
>)
    ensures
        r == spec_can_query_playable_actions(*f, *player),
{
    ensure_engine_invariants(&f.players, &f.formation_area_owners, &f.profession_owners)?;
    if f.status == GameStatusKind::Finished {
        return Err(GameError::Validation(ValidationError::GameFinished));
    }
    match &f.pending_choice {
        Some(p) => {
            return Err(
                GameError::Validation(
                    ValidationError::CannotPerformFormation {
                        reason: CannotPerformFormationReason::PendingChoiceInProgress {
                            player: p.clone(),
                        },
                    },
                ),
            );
        },
        None => {},
    }
    match &f.pending_randomness {
        Some(id) => {
            return Err(
                GameError::Validation(
                    ValidationError::PendingRandomnessInProgress { request_id: id.clone() },
                ),
            );
        },
        None => {},
    }
    match &f.current_player {
        None => Err(GameError::Validation(ValidationError::EmptyTurnOrder)),
        Some(expected) => if !expected.same(player) {
            Err(
                GameError::Validation(
                    ValidationError::CannotPerformFormation {
                        reason: CannotPerformFormationReason::WrongPlayer {
                            expected: expected.clone(),
                            actual: player.clone(),
                        },
                    },
                ),
            )
        } else if f.phase != Phase::ActiveEffects {
            Err(
                GameError::Validation(
                    ValidationError::CannotPerformFormation {
                        reason: CannotPerformFormationReason::WrongPhase {
                            expected: Phase::ActiveEffects,
                            actual: f.phase,
                        },
                    },
                ),
            )
        } else {
            Ok(())
        },
    }
}


/// Whether a profession change with the cards keeps the player's Confluence obligation
/// of this turn: it uses the obligated card, or there is none.
pub open spec fn change_keeps_obligation(f: CommandFacts, player: PlayerId, cards: Seq<CardInstanceId>) -> bool {
    match obligation_from(f.confluence_card_obligations@, player@, f.turn_number, 0) {
        Some(k) => cards.contains(f.confluence_card_obligations@[k].card),
        None => true,
    }
}

/// The guards of a profession change, before the profession's own requirements: the
/// engine invariants, the command guards, the player's turn and the active-effects
/// phase, no formation requirement applied this turn, the Confluence obligation kept,
/// and no status that keeps the player from acting.
pub open spec fn spec_profession_change_guards(
    f: CommandFacts,
    player: PlayerId,
    cards: Seq<CardInstanceId>,
) -> GuardVerdict {
    if spec_engine_invariants(f.players@, f.formation_area_owners@, f.profession_owners@) is Err {
        GuardVerdict::Refused(
            spec_engine_invariants(f.players@, f.formation_area_owners@, f.profession_owners@)->Err_0,
        )
    } else if spec_command_gate(f, false) is Err {
        GuardVerdict::Refused(spec_command_gate(f, false)->Err_0)
    } else if spec_current_player_check(f.current_player, player) is Err {
        GuardVerdict::Refused(spec_current_player_check(f.current_player, player)->Err_0)
    } else if spec_phase_check(f.phase, Phase::ActiveEffects) is Err {
        GuardVerdict::Refused(spec_phase_check(f.phase, Phase::ActiveEffects)->Err_0)
    } else if requirement_pending(f, player) {
        GuardVerdict::Unresolvable("formation-requirement"@)
    } else if !change_keeps_obligation(f, player, cards) {
        GuardVerdict::Unresolvable("confluence:tuning-obligation"@)
    } else if spec_has_status(f, player, "CannotAct"@) {
        GuardVerdict::Refused(
            GameError::Validation(
                ValidationError::CannotChangeProfession {
                    reason: CannotPerformFormationReason::CannotActByStatus { player },
                },
            ),
        )
    } else {
        GuardVerdict::Accepted
    }
}

/// The guards of activating a profession ability, before the ability itself: the engine
/// invariants, the command guards, the player's turn and the active-effects phase, and no
/// status that keeps the player from acting (which leaves the ability unresolvable).
pub open spec fn spec_ability_guards(f: CommandFacts, player: PlayerId, ability_id: Seq<char>) -> GuardVerdict {
    if spec_engine_invariants(f.players@, f.formation_area_owners@, f.profession_owners@) is Err {
        GuardVerdict::Refused(
            spec_engine_invariants(f.players@, f.formation_area_owners@, f.profession_owners@)->Err_0,
        )
    } else if spec_command_gate(f, false) is Err {
        GuardVerdict::Refused(spec_command_gate(f, false)->Err_0)
    } else if spec_current_player_check(f.current_player, player) is Err {
        GuardVerdict::Refused(spec_current_player_check(f.current_player, player)->Err_0)
    } else if spec_phase_check(f.phase, Phase::ActiveEffects) is Err {
        GuardVerdict::Refused(spec_phase_check(f.phase, Phase::ActiveEffects)->Err_0)
    } else if spec_has_status(f, player, "CannotAct"@) {
        GuardVerdict::Unresolvable(ability_id)
    } else {
        GuardVerdict::Accepted
    }
}

/// The guards of a profession change, before the profession's own requirements.
pub fn profession_change_guards(f: &CommandFacts, player: &PlayerId, cards: &[CardInstanceId]) -> (r: Result<
    (),
    GameError,
>)
    ensures
        guard_outcome(r, spec_profession_change_guards(*f, *player, cards@)),
{
    ensure_engine_invariants(&f.players, &f.formation_area_owners, &f.profession_owners)?;
    command_gate(f, false)?;
    ensure_current_player(&f.current_player, player)?;
    ensure_phase(f.phase, Phase::ActiveEffects)?;
    if has_pending_requirement(f, player) {
        return Err(
            GameError::Validation(
                ValidationError::ProfessionAbilityCannotResolve(owned("formation-requirement")),
            ),
        );
    }
    if !profession_change_satisfies_obligation(
        f.confluence_card_obligations.as_slice(),
        player,
        f.turn_number,
        cards,
    ) {
        return Err(
            GameError::Validation(
                ValidationError::ProfessionAbilityCannotResolve(owned("confluence:tuning-obligation")),
            ),
        );
    }
    if player_has_status(f, player, "CannotAct") {
        return Err(
            GameError::Validation(
                ValidationError::CannotChangeProfession {
                    reason: CannotPerformFormationReason::CannotActByStatus { player: player.clone() },
                },
            ),
        );
    }
    Ok(())
}

/// The guards of activating a profession ability, before the ability itself.
pub fn ability_guards(f: &CommandFacts, player: &PlayerId, ability_id: &str) -> (r: Result<(), GameError>)
    ensures
        guard_outcome(r, spec_ability_guards(*f, *player, ability_id@)),
{
    ensure_engine_invariants(&f.players, &f.formation_area_owners, &f.profession_owners)?;
    command_gate(f, false)?;
    ensure_current_player(&f.current_player, player)?;
    ensure_phase(f.phase, Phase::ActiveEffects)?;
    if player_has_status(f, player, "CannotAct") {
        return Err(GameError::Validation(ValidationError::ProfessionAbilityCannotResolve(owned(ability_id))));
    }
    Ok(())
}

/// The last discard recorded for the player, from position `i` on.
pub open spec fn discard_from(discards: Seq<(PlayerId, LastTurnDiscard)>, player: PlayerId, i: int) -> Option<
    LastTurnDiscard,
>
    decreases discards.len() - i,
{
    if i < 0 || i >= discards.len() {
        None
    } else if discards[i].0@ == player@ {
        Some(discards[i].1)
    } else {
        discard_from(discards, player, i + 1)
    }
}

/// The card the player may take back from the discard: the one the previous player in
/// the turn order discarded on the previous turn. The guards come first: the engine
/// invariants, the command guards, the player's turn and the active-effects phase, and
/// the discard-retrieval module enabled.
pub open spec fn spec_retrievable_discard(f: CommandFacts, player: PlayerId) -> Result<
    CardInstanceId,
    GameError,
> {
    if spec_engine_invariants(f.players@, f.formation_area_owners@, f.profession_owners@) is Err {
        Err(spec_engine_invariants(f.players@, f.formation_area_owners@, f.profession_owners@)->Err_0)
    } else if spec_command_gate(f, false) is Err {
        Err(spec_command_gate(f, false)->Err_0)
    } else if spec_current_player_check(f.current_player, player) is Err {
        Err(spec_current_player_check(f.current_player, player)->Err_0)
    } else if spec_phase_check(f.phase, Phase::ActiveEffects) is Err {
        Err(spec_phase_check(f.phase, Phase::ActiveEffects)->Err_0)
    } else if !module_enabled(f.enabled_rule_modules@, DISCARD_RETRIEVAL_MODULE_ID@) {
        Err(GameError::Validation(ValidationError::DiscardRetrievalDisabled))
    } else {
        match spec_previous_player(f.turn_order@, player) {
            Err(e) => Err(e),
            Ok(previous) => match discard_from(f.last_turn_discards@, previous, 0) {
                Some(d) => if d.turn_number + 1 == f.turn_number {
                    Ok(d.card)
                } else {
                    Err(GameError::Validation(ValidationError::NoRetrievableDiscard { previous_player: previous }))
                },
                None => Err(
                    GameError::Validation(ValidationError::NoRetrievableDiscard { previous_player: previous }),
                ),
            },
        }
    }
}

/// The card the player may take back from the discard, after the guards of the command.
pub fn retrievable_discard(f: &CommandFacts, player: &PlayerId) -> (r: Result<CardInstanceId, GameError>)
    ensures
        r == spec_retrievable_discard(*f, *player),
{
    ensure_engine_invariants(&f.players, &f.formation_area_owners, &f.profession_owners)?;
    command_gate(f, false)?;
    ensure_current_player(&f.current_player, player)?;
    ensure_phase(f.phase, Phase::ActiveEffects)?;
    if !modules_contain(&f.enabled_rule_modules, DISCARD_RETRIEVAL_MODULE_ID) {
        return Err(GameError::Validation(ValidationError::DiscardRetrievalDisabled));
    }
    let previous = previous_player(f.turn_order.as_slice(), player)?;
    let mut i: usize = 0;
    while i < f.last_turn_discards.len()
        invariant
            i <= f.last_turn_discards@.len(),
            spec_engine_invariants(f.players@, f.formation_area_owners@, f.profession_owners@) is Ok,
            spec_command_gate(*f, false) is Ok,
            spec_current_player_check(f.current_player, *player) is Ok,
            spec_phase_check(f.phase, Phase::ActiveEffects) is Ok,
            module_enabled(f.enabled_rule_modules@, DISCARD_RETRIEVAL_MODULE_ID@),
            spec_previous_player(f.turn_order@, *player) == Ok::<PlayerId, GameError>(previous),
            discard_from(f.last_turn_discards@, previous, 0) == discard_from(
                f.last_turn_discards@,
                previous,
                i as int,
            ),
        decreases f.last_turn_discards@.len() - i,
    {
        if f.last_turn_discards[i].0.same(&previous) {
            let d = &f.last_turn_discards[i].1;
            if f.turn_number > 0 && d.turn_number == f.turn_number - 1 {
                return Ok(d.card);
            } else {
                return Err(
                    GameError::Validation(ValidationError::NoRetrievableDiscard { previous_player: previous }),
                );
            }
        }
        i = i + 1;
    }
    Err(GameError::Validation(ValidationError::NoRetrievableDiscard { previous_player: previous }))
}

/// The level of the first entry for the card, from position `i` on.
pub open spec fn level_from(levels: Seq<(CardInstanceId, u32)>, card: CardInstanceId, i: int) -> Option<u32>
    decreases levels.len() - i,
{
    if i < 0 || i >= levels.len() {
        None
    } else if levels[i].0 == card {
        Some(levels[i].1)
    } else {
        level_from(levels, card, i + 1)
    }
}

/// The life a retrieval costs: twice the card's level, halved, rounding half up, by the
/// Seeker discount.
pub open spec fn spec_retrieval_cost(abilities: Seq<ProfessionAbility>, level: u32) -> int {
    if abilities.contains(ProfessionAbility::SeekerDiscount) {
        half_toward_zero(2 * level + 1)
    } else {
        2 * level
    }
}

/// The retrieval a player is offered: where the command's guards accept it and the
/// retrievable card's level is known, the detail of moving it to the top of the deck
/// for its life cost.
pub open spec fn spec_playable_discard_retrieval(
    f: CommandFacts,
    player: PlayerId,
    card_levels: Seq<(CardInstanceId, u32)>,
    abilities: Seq<ProfessionAbility>,
) -> Option<Seq<crate::rules::detail::RuleConsequence>> {
    match spec_retrievable_discard(f, player) {
        Err(_) => None,
        Ok(card) => match level_from(card_levels, card, 0) {
            None => None,
            Some(level) => Some(
                discard_retrieval_consequences(spec_retrieval_cost(abilities, level) as i32),
            ),
        },
    }
}

/// The retrieval of the previous turn's discard the player is offered, if any; an
/// offered retrieval is always accepted by the command's guards. `card_levels` gives the
/// level of each card instance, and `abilities` the player's profession abilities.
pub fn playable_discard_retrieval(
    f: &CommandFacts,
    player: &PlayerId,
    card_levels: &[(CardInstanceId, u32)],
    abilities: &[ProfessionAbility],
) -> (r: Option<PlayerFacingActionDetail>)
    requires
        spec_retrievable_discard(*f, *player) matches Ok(card) ==> (level_from(card_levels@, card, 0) matches Some(
            l,
        ) ==> 2 * l <= i32::MAX),
    ensures
        match r {
            Some(d) => spec_playable_discard_retrieval(*f, *player, card_levels@, abilities@)
                == Some(d.consequences@),
            None => spec_playable_discard_retrieval(*f, *player, card_levels@, abilities@) is None,
        },
        r is Some ==> spec_retrievable_discard(*f, *player) is Ok,
{
    let card = match retrievable_discard(f, player) {
        Ok(card) => card,
        Err(_) => {
            return None;
        },
    };
    let mut i: usize = 0;
    while i < card_levels.len()
        invariant
            i <= card_levels@.len(),
            spec_retrievable_discard(*f, *player) == Ok::<CardInstanceId, GameError>(card),
            level_from(card_levels@, card, 0) matches Some(l) ==> 2 * l <= i32::MAX,
            level_from(card_levels@, card, 0) == level_from(card_levels@, card, i as int),
        decreases card_levels@.len() - i,
    {
        if card_levels[i].0 == card {
            let level = card_levels[i].1;
            let cost = discard_retrieval_cost(abilities, (level * 2) as i32);
            return Some(discard_retrieval_detail(cost));
        }
        i = i + 1;
    }
    None
}

// ---------------------------------------------------------------------------
// The events of a passed action.
// ---------------------------------------------------------------------------

/// What a passed action records: the action starts, the covered passive and counter
/// effects it meets are resolved, and the action is passed.
#[derive(Debug, PartialEq, Eq)]
pub enum ActionEvent {
    ActionStarted { player: PlayerId },
    Passive(PassiveTriggerEvent),
    ActionPassed { player: PlayerId, reason: PassActionReason },
}

/// The request a passing player makes of the previous player's covered passive: a
/// pass that ignores nothing but what the pouch's protection lets it ignore.
pub open spec fn pass_trigger_request(f: CommandFacts, player: PlayerId) -> TriggerRequest {
    TriggerRequest {
        incoming_player: player,
        incoming_kind: IncomingActionKind::Pass,
        ignores_formation_effects: false,
        ignores_counter_effects_by_profession_ability: false,
        ignores_counter_effects_by_golden_cicada: listed(f.protected_players@, player),
        attack_points: None,
    }
}

/// The resolved passive events among recorded events, between the first and the last.
pub open spec fn passive_part(evs: Seq<ActionEvent>) -> Seq<PassiveTriggerEvent> {
    Seq::new((evs.len() - 2) as nat, |i: int| evs[i + 1]->Passive_0)
}

/// The events a passed action records, given the passive events it meets.
pub open spec fn spec_pass_events(
    player: PlayerId,
    reason: PassActionReason,
    passive: Seq<PassiveTriggerEvent>,
) -> Seq<ActionEvent> {
    seq![ActionEvent::ActionStarted { player }] + passive.map_values(
        |e: PassiveTriggerEvent| ActionEvent::Passive(e),
    ) + seq![ActionEvent::ActionPassed { player, reason }]
}

/// A passed action: refused as `decide_pass_action` refuses it, or else its events: the
/// action starts, the previous player's covered passive and counter effects meet it (as
/// `covered_passive::trigger` resolves them for a pass), and the action is passed.
/// `previous` is the player before the passing player, `covered` that player's covered
/// passive, and `counters` the counter effects that player holds.
pub fn pass_action(
    f: &CommandFacts,
    player: &PlayerId,
    reason: PassActionReason,
    previous: Option<&PlayerId>,
    covered: Option<&CoveredPassive>,
    five_directions: bool,
    environment: Option<Element>,
    counters: &[CounterEffect],
) -> (r: Result<Vec<ActionEvent>, GameError>)
    requires
        trigger_defined(
            pass_trigger_request(*f, *player),
            match previous {
                Some(p) => Some(*p),
                None => None,
            },
            match covered {
                Some(c) => Some(*c),
                None => None,
            },
            five_directions,
            environment,
            counters@,
        ),
    ensures
        match r {
            Ok(evs) => {
                &&& spec_decide_pass(*f, *player, reason) is Accepted
                &&& evs@.len() >= 2
                &&& evs@ == spec_pass_events(*player, reason, passive_part(evs@))
                &&& trigger_event_views(passive_part(evs@)) == spec_trigger_events(
                    pass_trigger_request(*f, *player),
                    match previous {
                        Some(p) => Some(*p),
                        None => None,
                    },
                    match covered {
                        Some(c) => Some(*c),
                        None => None,
                    },
                    five_directions,
                    environment,
                    counters@,
                )
            },
            Err(e) => !(spec_decide_pass(*f, *player, reason) is Accepted) && guard_outcome(
                Err(e),
                spec_decide_pass(*f, *player, reason),
            ),
        },
{
    match decide_pass_action(f, player, reason) {
        Ok(()) => {},
        Err(e) => {
            return Err(e);
        },
    }
    let protected = is_listed(&f.protected_players, player);
    let request = TriggerRequest {
        incoming_player: player.clone(),
        incoming_kind: IncomingActionKind::Pass,
        ignores_formation_effects: false,
        ignores_counter_effects_by_profession_ability: false,
        ignores_counter_effects_by_golden_cicada: protected,
        attack_points: None,
    };
    let passive = crate::rules::covered_passive::trigger(&request, previous, covered, five_directions, environment, counters).events();
    let ghost pv = passive@;
    let mut events: Vec<ActionEvent> = Vec::new();
    events.push(ActionEvent::ActionStarted { player: player.clone() });
    let mut passive = passive;
    let ghost f_wrap = |e: PassiveTriggerEvent| ActionEvent::Passive(e);
    let ghost mut k: int = 0;
    while passive.len() > 0
        invariant
            0 <= k <= pv.len(),
            passive@ == pv.skip(k),
            events@ == seq![ActionEvent::ActionStarted { player: *player }] + pv.take(k).map_values(
                f_wrap,
            ),
            f_wrap == (|e: PassiveTriggerEvent| ActionEvent::Passive(e)),
        decreases passive.len(),
    {
        let e = passive.remove(0);
        proof {
            assert(pv.take(k + 1) =~= pv.take(k).push(e));
            assert(pv.skip(k + 1) =~= pv.skip(k).subrange(1, pv.skip(k).len() as int));
        }
        events.push(ActionEvent::Passive(e));
        proof {
            k = k + 1;
        }
        assert(events@ =~= seq![ActionEvent::ActionStarted { player: *player }] + pv.take(k).map_values(
            f_wrap,
        ));
    }
    assert(pv.take(k) =~= pv);
    events.push(ActionEvent::ActionPassed { player: player.clone(), reason });
    proof {
        let evs = events@;
        assert(passive_part(evs) =~= pv);
        assert(evs =~= spec_pass_events(*player, reason, pv));
    }
    Ok(events)
}

// ---------------------------------------------------------------------------
// The automatic steps of a turn.
// ---------------------------------------------------------------------------

/// An automatic step of a turn, taken without a command.
#[derive(Debug, PartialEq, Eq)]
pub enum AutomaticStep {
    /// A status of the current player that lasts until the start of their turn expires.
    ExpireTurnStartStatus,
    /// The current player's turn starts.
    StartTurn { player: PlayerId },
    /// The current player draws for the turn.
    DrawForTurn,
    /// A status of the current player that lasts until the end of their turn expires.
    ExpireTurnEndStatus,
    /// An Echo effect that lasts until the end of the turn expires.
    ExpireEchoEffect,
    /// The current player's turn ends.
    EndTurn { player: PlayerId },
}

/// Whether automatic advancing has anything to do: the engine invariants must hold, and
/// a finished game, a game in preparation, a pending choice or a pending random draw
/// leave nothing to advance (`Ok(false)`).
pub open spec fn spec_advance_gate(f: CommandFacts) -> Result<bool, GameError> {
    if spec_engine_invariants(f.players@, f.formation_area_owners@, f.profession_owners@) is Err {
        Err(spec_engine_invariants(f.players@, f.formation_area_owners@, f.profession_owners@)->Err_0)
    } else if f.status == GameStatusKind::Finished || f.status == GameStatusKind::Preparing {
        Ok(false)
    } else if f.pending_choice is Some || f.pending_randomness is Some {
        Ok(false)
    } else {
        Ok(true)
    }
}

/// The next automatic step in the phase: at the start of a turn a due status expires
/// before the turn starts; in the draw phase the player draws when a draw is due; at the
/// end of a turn a due status, then a due Echo effect, expires before the turn ends; the
/// phases in which players act have no automatic step.
pub open spec fn spec_next_automatic_step(
    phase: Phase,
    current: Option<PlayerId>,
    turn_start_expiry_due: bool,
    draw_due: bool,
    turn_end_expiry_due: bool,
    echo_expiry_due: bool,
) -> Result<Option<AutomaticStep>, GameError> {
    match phase {
        Phase::TurnStart => match current {
            None => Err(GameError::Validation(ValidationError::EmptyTurnOrder)),
            Some(player) => if turn_start_expiry_due {
                Ok(Some(AutomaticStep::ExpireTurnStartStatus))
            } else {
                Ok(Some(AutomaticStep::StartTurn { player }))
            },
        },
        Phase::TurnDraw => if draw_due {
            Ok(Some(AutomaticStep::DrawForTurn))
        } else {
            Ok(None)
        },
        Phase::TurnEnd => if turn_end_expiry_due {
            Ok(Some(AutomaticStep::ExpireTurnEndStatus))
        } else if echo_expiry_due {
            Ok(Some(AutomaticStep::ExpireEchoEffect))
        } else {
            Ok(Some(AutomaticStep::EndTurn { player: current->0 }))
        },
        Phase::ActiveEffects | Phase::Action => Ok(None),
    }
}

/// Whether automatic advancing has anything to do.
pub fn advance_gate(f: &CommandFacts) -> (r: Result<bool, GameError>)
    ensures
        r == spec_advance_gate(*f),
{
    ensure_engine_invariants(&f.players, &f.formation_area_owners, &f.profession_owners)?;
    if f.status == GameStatusKind::Finished || f.status == GameStatusKind::Preparing {
        return Ok(false);
    }
    if f.pending_choice.is_some() || f.pending_randomness.is_some() {
        return Ok(false);
    }
    Ok(true)
}

/// The next automatic step in the phase, given which expiries and draws are due. The
/// end of a turn always has a current player.
pub fn next_automatic_step(
    phase: Phase,
    current: &Option<PlayerId>,
    turn_start_expiry_due: bool,
    draw_due: bool,
    turn_end_expiry_due: bool,
    echo_expiry_due: bool,
) -> (r: Result<Option<AutomaticStep>, GameError>)
    requires
        phase == Phase::TurnEnd ==> current is Some,
    ensures
        r == spec_next_automatic_step(
            phase,
            *current,
            turn_start_expiry_due,
            draw_due,
            turn_end_expiry_due,
            echo_expiry_due,
        ),
        r matches Ok(None) ==> phase == Phase::ActiveEffects || phase == Phase::Action || (phase
            == Phase::TurnDraw && !draw_due),
{
    match phase {
        Phase::TurnStart => match current {
            None => Err(GameError::Validation(ValidationError::EmptyTurnOrder)),
            Some(player) => if turn_start_expiry_due {
                Ok(Some(AutomaticStep::ExpireTurnStartStatus))
            } else {
                Ok(Some(AutomaticStep::StartTurn { player: player.clone() }))
            },
        },
        Phase::TurnDraw => if draw_due {
            Ok(Some(AutomaticStep::DrawForTurn))
        } else {
            Ok(None)
        },
        Phase::TurnEnd => if turn_end_expiry_due {
            Ok(Some(AutomaticStep::ExpireTurnEndStatus))
        } else if echo_expiry_due {
            Ok(Some(AutomaticStep::ExpireEchoEffect))
        } else {
            match current {
                Some(player) => Ok(Some(AutomaticStep::EndTurn { player: player.clone() })),
                None => Ok(None),
            }
        },
        Phase::ActiveEffects | Phase::Action => Ok(None),
    }
}

} // verus!
