//! Player-facing action details: the closed vocabulary of consequences an
//! offered action commits to, and the composition of those consequences.
use crate::domain::{CardInstanceId, Element, PlayerId, ProfessionId, owned, str_eq};
use vstd::prelude::*;

verus! {

/// Optional player-visible, state-specific facts supplementing an offered action.
///
/// It models commitments, not the canonical events that will eventually be
/// emitted: it never contains a choice identity, a continuation, a hidden card,
/// or a prediction of trusted randomness.
#[derive(Debug, PartialEq, Eq)]
pub struct PlayerFacingActionDetail {
    pub consequences: Vec<RuleConsequence>,
}

/// The certainty of a clause, kept apart from its kind so a choice, a random outcome
/// or a delayed result is never presented as a guaranteed final state.
#[derive(Clone, Copy, Debug, PartialEq, Eq, Structural)]
pub enum ConsequenceCertainty {
    Guaranteed,
    Conditional,
    Random,
    FollowUp,
    Scheduled,
}

#[derive(Debug, PartialEq, Eq)]
pub enum RuleConsequence {
    Cost { certainty: ConsequenceCertainty, cost: ActionCost },
    ImmediateEffect { certainty: ConsequenceCertainty, effect: ImmediateEffect },
    FollowUpChoice { certainty: ConsequenceCertainty, choice: FollowUpChoice },
    TrustedRandomness { certainty: ConsequenceCertainty, operation: TrustedRandomness },
    DelayedEffect { certainty: ConsequenceCertainty, timing: DelayedTiming, effect: DelayedEffect },
    RuleException { certainty: ConsequenceCertainty, exception: RuleException },
}

#[derive(Debug, PartialEq, Eq)]
pub enum ActionCost {
    DiscardSelectedCards,
    SpendSpiritPower { amount: u32 },
    LoseHp { amount: i32 },
    OptionalDiscardByPrintedElement { allowed_printed_elements: Vec<Element> },
    ConsumePouch,
}

#[derive(Clone, Copy, Debug, PartialEq, Eq, Structural)]
pub enum ImmediateEffect {
    Attack { target: ActionTarget, category: ActionAttackCategory, points: EffectAmount },
    ResolveFormationEffect { effect: FormationEffect },
    ActivateProfessionAbility { effect: ProfessionAbilityEffect },
    UseSpiritSkill { effect: SpiritSkillEffect },
    TriggerSecretStrategy { effect: SecretStrategyEffect },
    MovePreviousTurnDiscardToDeckTop,
}

#[derive(Clone, Copy, Debug, PartialEq, Eq, Structural)]
pub enum ActionTarget {
    SelfPlayer,
    SelfTeam,
    PreviousPlayer,
    PreviousTeam,
    NextPlayer,
    NextTeam,
    SelectedPlayer,
    AllPlayers,
    OtherPlayers,
    EachTeam,
}

#[derive(Clone, Copy, Debug, PartialEq, Eq, Structural)]
pub enum ActionAttackCategory {
    Elemental,
    Physical,
    Special,
}

#[derive(Clone, Copy, Debug, PartialEq, Eq, Structural)]
pub enum EffectAmount {
    Fixed { value: u32 },
    Formula { formula: EffectFormula },
}

#[derive(Clone, Copy, Debug, PartialEq, Eq, Structural)]
pub enum EffectFormula {
    LevelPlus { amount: u32 },
    LevelSumTimes { multiplier: u32 },
    TargetHandCountTimes { multiplier: u32 },
    ElementProductTimes { element: Element, multiplier: u32 },
}

/// Semantic main-effect facts reused by every action family.  A spell plan
/// must choose one explicit fact; there is deliberately no generic
/// "resolve spell" fallback.
#[derive(Clone, Copy, Debug, PartialEq, Eq, Structural)]
pub enum FormationEffect {
    CoverCounter,
    CopyPreviousTurnFormation,
    RecoverHp,
    ReduceShield,
    InspectHand,
    CreateShield,
    ReturnTeamHp,
    DrawCards,
    SwapTeamHp,
    SummonSpirit,
    ClearEnvironment,
    ApplyStatus,
    ChangeEnvironment,
    BreakProfession,
    LimitedUseRecovery,
    ResolveMelodyMainEffect,
    BeginChainChoice,
    ShatterSpirits,
    BreakStars,
    DamageEachTeamBy15,
    ApplyGaleRain,
    ReduceEveryShieldBy20,
    AttackIncreasesTo80IfShieldReduced,
    ChooseEnvironmentAndRequireMatchingCardOrRevealHand,
    RevealTopEightDiscardLevelThreeOrHigherThenShuffle,
    TransferEnvironmentToUsedElement,
    DamagePreviousTeamByLevelSumTimes { multiplier: u32 },
    HalvePreviousTeamHp,
    DamageNextTeamAndTakeHighestLevelHandCard { damage: u32 },
    PreventOtherPlayersFromActingOrDrawing { duration_turns: u32 },
    DamagePreviousTeam { amount: u32 },
    ResolveResonances,
    HalveBothTeamsHpThenDamageOpponent { amount: u32 },
    WinIfOpponentHpAtMost { threshold: u32 },
}

#[derive(Clone, Copy, Debug, PartialEq, Eq, Structural)]
pub enum SecretStrategyEffect {
    ProtectTriggeringPlayer,
    IncreaseHandLevels,
    IncreaseTurnDraw,
    NegateNextPlayerFormationHpChanges,
    SuppressPlayerAbilitiesAndSpiritPower,
    SummonSpiritFromPouch,
    SwapDeckAndDiscard,
    DirectProfessionChange,
    BreakOrGainStar,
    ClearOrChangeEnvironment,
}

/// The semantic commitment made by an activated profession ability.
#[derive(Clone, Copy, Debug, PartialEq, Eq, Structural)]
pub enum ProfessionAbilityEffect {
    DamagePreviousTeamByCardLevelTimes { multiplier: u32 },
    IncreaseTurnDraw { amount: u32 },
    DrawThreeThenChooseOne,
    CreateVirtualFormationCard { scope: VirtualFormationScope },
    ApplyYangAura,
    PrepareFormationDrawBonus,
    PrepareCardWithLevelBonus { amount: u32, maximum: u32 },
    PrepareMeteorEffect,
    DrawTwoThenReturnOne,
    RetrievePreviousPlayerDiscardForProfessionUse,
    RetrievePreviousPlayerDiscard,
    RevealDeckTopAndChooseDiscard,
    ApplyShuffleRecovery,
    PrepareCardAtDeclaredLevel,
}

#[derive(Clone, Copy, Debug, PartialEq, Eq, Structural)]
pub enum VirtualFormationScope {
    ElementalStrike,
    BaseFormation,
    AnyFormation,
}

/// The semantic main effect of a spirit skill.
#[derive(Clone, Copy, Debug, PartialEq, Eq, Structural)]
pub enum SpiritSkillEffect {
    DamagePreviousTeam { amount: u32 },
    RecoverOwnTeam { amount: u32 },
    DiscardSelectedCardAndIncreaseTurnDraw { amount: u32 },
    IncreaseTurnDraw { amount: u32 },
    InterpretSelectedCardLevel,
    ProtectNextPlayerFromAttack,
    SetOwnShield { amount: u32 },
    InspectRandomNextPlayerHandCards { count: usize },
    DiscardNextPlayerDeckAndDamageByHighestLevel { count: usize, multiplier: u32 },
}

#[derive(Clone, Copy, Debug, PartialEq, Eq, Structural)]
pub enum FollowUpChoice {
    SelectPlayer,
    SelectFormation,
    SelectDeckCard,
    SelectEnvironment,
    SelectPouchOwnerAndOptionalStrategy,
    SelectCards { minimum: usize, maximum: usize },
}

#[derive(Clone, Copy, Debug, PartialEq, Eq, Structural)]
pub enum TrustedRandomness {
    ShuffleDeck,
    ShuffleDiscardIntoDeck,
    SelectHiddenHandCards { count: usize },
}

#[derive(Clone, Copy, Debug, PartialEq, Eq, Structural)]
pub enum DelayedTiming {
    NextTurnStart,
    NextPlayerTurn,
}

#[derive(Clone, Copy, Debug, PartialEq, Eq, Structural)]
pub enum DelayedEffect {
    RepeatMelodyMainEffect,
    SelectAndPerformMelodyMainEffect,
}

#[derive(Debug, PartialEq, Eq)]
pub enum RuleException {
    IgnoresOtherFormationEffects,
    LimitedUse { key: String, remaining: u32, maximum: u32 },
}

/// The pouch secret strategies.
#[derive(Clone, Copy, Debug, PartialEq, Eq, Structural)]
pub enum SecretStrategy {
    GoldenCicada,
    StealTheBeam,
    MuddyWaters,
    WatchTheFire,
    LureTheTigerAway,
    ReturnSoul,
    SheepStealing,
    DarkCrossing,
    DeceiveHeaven,
    Retreat,
}

/// The identity of a spirit skill.
#[derive(Debug, PartialEq, Eq)]
pub struct SpiritSkill(pub String);

/// A declared target of a formation.
#[derive(Debug, PartialEq, Eq)]
pub enum TargetDecl {
    /// The card fills the named role of the formation.
    FormationRole { role: String, card: CardInstanceId },
    /// The card counts as this many cards of the formation.
    CardMultiplicity { card: CardInstanceId, slots: usize },
}

#[derive(Clone, Copy, Debug, PartialEq, Eq, Structural)]
pub enum FormationCategory {
    Attack,
    Spell,
}

#[derive(Debug, PartialEq, Eq)]
pub struct FormationCandidate {
    pub formation_id: String,
    pub formation_name: String,
    pub category: FormationCategory,
    pub cards: Vec<CardInstanceId>,
    pub declared_targets: Vec<TargetDecl>,
    pub preview: Option<String>,
    pub detail: PlayerFacingActionDetail,
}

#[derive(Debug, PartialEq, Eq)]
pub enum PlayableAction {
    PerformFormation(FormationCandidate),
    ChangeProfession(ProfessionChangeCandidate),
    ActivateProfessionAbility(ProfessionAbilityCandidate),
    UseSpiritSkill(SpiritSkillCandidate),
}

#[derive(Debug, PartialEq, Eq)]
pub enum ActionInputRequirement {
    VirtualFormationCard { elements: Vec<Element>, levels: Vec<u32> },
}

#[derive(Debug, PartialEq, Eq)]
pub struct ProfessionChangeCandidate {
    pub profession_id: ProfessionId,
    pub profession_name: String,
    pub cards: Vec<CardInstanceId>,
    pub detail: PlayerFacingActionDetail,
}

#[derive(Debug, PartialEq, Eq)]
pub struct ProfessionAbilityCandidate {
    pub ability_id: String,
    pub ability_name: String,
    pub cards: Vec<CardInstanceId>,
    pub target_card: Option<CardInstanceId>,
    pub declared_element: Option<Element>,
    pub declared_level: Option<u32>,
    pub input_requirement: Option<ActionInputRequirement>,
    pub detail: PlayerFacingActionDetail,
}

#[derive(Debug, PartialEq, Eq)]
pub struct SpiritSkillCandidate {
    pub skill: SpiritSkill,
    pub skill_name: String,
    pub selected_card: Option<CardInstanceId>,
    pub declared_level: Option<u32>,
    pub detail: PlayerFacingActionDetail,
}

impl PlayerFacingActionDetail {
    /// A detail made of the given consequences.
    pub fn composed(consequences: Vec<RuleConsequence>) -> (r: Self)
        ensures
            r.consequences@ == consequences@,
    {
        PlayerFacingActionDetail { consequences }
    }

    /// The empty detail a rule module attaches before the detail composer completes it.
    pub fn pending_composition() -> (r: Self)
        ensures
            r.consequences@.len() == 0,
    {
        PlayerFacingActionDetail { consequences: Vec::new() }
    }

    /// The detail, or nothing when it holds no consequence.
    pub fn into_optional(self) -> (r: Option<Self>)
        ensures
            self.consequences@.len() == 0 ==> r is None,
            self.consequences@.len() > 0 ==> r == Some(self),
    {
        if self.consequences.len() == 0 {
            None
        } else {
            Some(self)
        }
    }
}

/// The player-facing effect of a pouch secret strategy.
pub open spec fn spec_secret_strategy_effect(strategy: SecretStrategy) -> SecretStrategyEffect {
    match strategy {
        SecretStrategy::GoldenCicada => SecretStrategyEffect::ProtectTriggeringPlayer,
        SecretStrategy::StealTheBeam => SecretStrategyEffect::IncreaseHandLevels,
        SecretStrategy::MuddyWaters => SecretStrategyEffect::IncreaseTurnDraw,
        SecretStrategy::WatchTheFire => SecretStrategyEffect::NegateNextPlayerFormationHpChanges,
        SecretStrategy::LureTheTigerAway =>
            SecretStrategyEffect::SuppressPlayerAbilitiesAndSpiritPower,
        SecretStrategy::ReturnSoul => SecretStrategyEffect::SummonSpiritFromPouch,
        SecretStrategy::SheepStealing => SecretStrategyEffect::SwapDeckAndDiscard,
        SecretStrategy::DarkCrossing => SecretStrategyEffect::DirectProfessionChange,
        SecretStrategy::DeceiveHeaven => SecretStrategyEffect::BreakOrGainStar,
        SecretStrategy::Retreat => SecretStrategyEffect::ClearOrChangeEnvironment,
    }
}

/// The player-facing effect of a pouch secret strategy.
pub fn secret_strategy_effect(strategy: SecretStrategy) -> (r: SecretStrategyEffect)
    ensures
        r == spec_secret_strategy_effect(strategy),
{
    match strategy {
        SecretStrategy::GoldenCicada => SecretStrategyEffect::ProtectTriggeringPlayer,
        SecretStrategy::StealTheBeam => SecretStrategyEffect::IncreaseHandLevels,
        SecretStrategy::MuddyWaters => SecretStrategyEffect::IncreaseTurnDraw,
        SecretStrategy::WatchTheFire => SecretStrategyEffect::NegateNextPlayerFormationHpChanges,
        SecretStrategy::LureTheTigerAway =>
            SecretStrategyEffect::SuppressPlayerAbilitiesAndSpiritPower,
        SecretStrategy::ReturnSoul => SecretStrategyEffect::SummonSpiritFromPouch,
        SecretStrategy::SheepStealing => SecretStrategyEffect::SwapDeckAndDiscard,
        SecretStrategy::DarkCrossing => SecretStrategyEffect::DirectProfessionChange,
        SecretStrategy::DeceiveHeaven => SecretStrategyEffect::BreakOrGainStar,
        SecretStrategy::Retreat => SecretStrategyEffect::ClearOrChangeEnvironment,
    }
}

/// A guaranteed immediate effect.
pub open spec fn guaranteed_effect(effect: ImmediateEffect) -> RuleConsequence {
    RuleConsequence::ImmediateEffect { certainty: ConsequenceCertainty::Guaranteed, effect }
}

/// A guaranteed cost.
pub open spec fn guaranteed_cost(cost: ActionCost) -> RuleConsequence {
    RuleConsequence::Cost { certainty: ConsequenceCertainty::Guaranteed, cost }
}

/// The consequences of triggering a secret strategy: its effect, paid for by the pouch.
pub open spec fn secret_strategy_consequences(strategy: SecretStrategy) -> Seq<RuleConsequence> {
    seq![
        guaranteed_effect(
            ImmediateEffect::TriggerSecretStrategy {
                effect: spec_secret_strategy_effect(strategy),
            },
        ),
        guaranteed_cost(ActionCost::ConsumePouch),
    ]
}

/// The consequences of retrieving the previous turn's discard for a life cost.
pub open spec fn discard_retrieval_consequences(hp_cost: i32) -> Seq<RuleConsequence> {
    seq![
        guaranteed_effect(ImmediateEffect::MovePreviousTurnDiscardToDeckTop),
        guaranteed_cost(ActionCost::LoseHp { amount: hp_cost }),
    ]
}

/// The detail of triggering a secret strategy: its effect, paid for by the pouch.
pub fn secret_strategy_detail(strategy: SecretStrategy) -> (r: PlayerFacingActionDetail)
    ensures
        r.consequences@ == secret_strategy_consequences(strategy),
{
    let consequences = vec![
        RuleConsequence::ImmediateEffect {
            certainty: ConsequenceCertainty::Guaranteed,
            effect: ImmediateEffect::TriggerSecretStrategy {
                effect: secret_strategy_effect(strategy),
            },
        },
        RuleConsequence::Cost {
            certainty: ConsequenceCertainty::Guaranteed,
            cost: ActionCost::ConsumePouch,
        },
    ];
    PlayerFacingActionDetail::composed(consequences)
}

/// The detail of retrieving the previous turn's discard: it returns to the deck top for
/// the given life cost.
pub fn discard_retrieval_detail(hp_cost: i32) -> (r: PlayerFacingActionDetail)
    ensures
        r.consequences@ == discard_retrieval_consequences(hp_cost),
{
    PlayerFacingActionDetail::composed(
        vec![
            RuleConsequence::ImmediateEffect {
                certainty: ConsequenceCertainty::Guaranteed,
                effect: ImmediateEffect::MovePreviousTurnDiscardToDeckTop,
            },
            RuleConsequence::Cost {
                certainty: ConsequenceCertainty::Guaranteed,
                cost: ActionCost::LoseHp { amount: hp_cost },
            },
        ],
    )
}

/// A profession change commits to nothing beyond the change itself.
pub fn profession_change_detail() -> (r: PlayerFacingActionDetail)
    ensures
        r.consequences@.len() == 0,
{
    PlayerFacingActionDetail::composed(Vec::new())
}

/// Whether a formation identity names one of the five sacred beasts.
pub open spec fn is_sacred_beast_id(id: Seq<char>) -> bool {
    id == "east-azure-dragon"@ || id == "west-white-tiger"@ || id == "south-vermilion-bird"@
        || id == "north-black-tortoise"@ || id == "center-yellow-serpent"@
}

/// The clause of Chaos: one or two cards are chosen afterwards.
pub open spec fn chaos_consequences() -> Seq<RuleConsequence> {
    seq![
        RuleConsequence::FollowUpChoice {
            certainty: ConsequenceCertainty::FollowUp,
            choice: FollowUpChoice::SelectCards { minimum: 1, maximum: 2 },
        },
    ]
}

/// The clauses of a sacred beast: the environment is transferred, and the formation
/// ignores other formation effects.
pub open spec fn sacred_beast_consequences() -> Seq<RuleConsequence> {
    seq![
        guaranteed_effect(
            ImmediateEffect::ResolveFormationEffect {
                effect: FormationEffect::TransferEnvironmentToUsedElement,
            },
        ),
        RuleConsequence::RuleException {
            certainty: ConsequenceCertainty::Guaranteed,
            exception: RuleException::IgnoresOtherFormationEffects,
        },
    ]
}

/// The base rules' formation-specific clauses: Chaos asks for one or two cards; a
/// sacred beast transfers the environment and ignores other formation effects.
pub fn base_formation_detail_consequences(id: &str) -> (r: Option<Vec<RuleConsequence>>)
    ensures
        id@ == "chaos"@ ==> (r matches Some(v) && v@ == chaos_consequences()),
        id@ != "chaos"@ && is_sacred_beast_id(id@) ==> (r matches Some(v) && v@
            == sacred_beast_consequences()),
        id@ != "chaos"@ && !is_sacred_beast_id(id@) ==> r is None,
{
    if str_eq(id, "chaos") {
        Some(
            vec![
                RuleConsequence::FollowUpChoice {
                    certainty: ConsequenceCertainty::FollowUp,
                    choice: FollowUpChoice::SelectCards { minimum: 1, maximum: 2 },
                },
            ],
        )
    } else if str_eq(id, "east-azure-dragon") || str_eq(id, "west-white-tiger") || str_eq(
        id,
        "south-vermilion-bird",
    ) || str_eq(id, "north-black-tortoise") || str_eq(id, "center-yellow-serpent") {
        Some(
            vec![
                RuleConsequence::ImmediateEffect {
                    certainty: ConsequenceCertainty::Guaranteed,
                    effect: ImmediateEffect::ResolveFormationEffect {
                        effect: FormationEffect::TransferEnvironmentToUsedElement,
                    },
                },
                RuleConsequence::RuleException {
                    certainty: ConsequenceCertainty::Guaranteed,
                    exception: RuleException::IgnoresOtherFormationEffects,
                },
            ],
        )
    } else {
        None
    }
}

} // verus!
