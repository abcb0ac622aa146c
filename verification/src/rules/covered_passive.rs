//! Covered passive spells and counter effects: when an incoming action flips the
//! previous player's face-down passive, what it does to the action, and why it does
//! nothing when it does nothing.
use crate::domain::{CardInstanceId, Element, PlayerId, copy_cards, owned, str_eq};
use crate::rules::jianghu::{FLOWING_SHADOW_SWORD, POISON_SMOKE};
use crate::rules::official_formations::{
    environment_makes_formation_ineffective, spec_environment_makes_ineffective,
};
use vstd::prelude::*;

verus! {

/// The kind of the action that flips a covered passive.
#[derive(Clone, Copy, Debug, PartialEq, Eq, Structural)]
pub enum IncomingActionKind {
    Attack,
    ActiveSpell,
    PassiveSpell,
    ProfessionChange,
    Pass,
}

/// What a passive does to the incoming action.
#[derive(Clone, Copy, Debug, PartialEq, Eq, Structural)]
pub enum ActionModification {
    PreventDamage,
    SplitAttackDamage,
    CancelSpell,
    SealCoveredPassive,
    RevealCoveredPassive,
}

/// Why a flipped passive does nothing.
#[derive(Clone, Copy, Debug, PartialEq, Eq, Structural)]
pub enum PassiveNoEffectGround {
    NotAnAttack,
    NotASpell,
    AttackPointsExceedLimit { maximum: i32 },
    Neutralized,
    IgnoredBySacredBeast,
    IgnoredByProfessionAbility,
    IgnoredByGoldenCicada,
    IneffectiveInEnvironment { environment: Element },
    Sealed,
    EmptyCity,
}

/// The outcome of a flipped passive or a resolved counter effect.
#[derive(Debug, PartialEq, Eq)]
pub enum PassiveFlipOutcome {
    NoEffect { grounds: Vec<PassiveNoEffectGround> },
    Applied { effect_id: String, modifications: Vec<ActionModification> },
}

/// An outcome as plain values.
pub enum OutcomeView {
    NoEffect(Seq<PassiveNoEffectGround>),
    Applied(Seq<char>, Seq<ActionModification>),
}

pub open spec fn outcome_view(o: PassiveFlipOutcome) -> OutcomeView {
    match o {
        PassiveFlipOutcome::NoEffect { grounds } => OutcomeView::NoEffect(grounds@),
        PassiveFlipOutcome::Applied { effect_id, modifications } => OutcomeView::Applied(
            effect_id@,
            modifications@,
        ),
    }
}

/// The modification a passive makes to an action of the kind: Defense and Dao Defense
/// prevent an attack's damage, as the Flowing Shadow sword does for an attack of at most
/// forty points; Countershock and Magic Shock split it; Seal and Magic Seal cancel an
/// active spell; Seal seals a covered passive; Holy Light Break reveals one.
pub open spec fn spec_modification(id: Seq<char>, kind: IncomingActionKind, attack_points: Option<i32>) -> Option<
    ActionModification,
> {
    if (id == "defense"@ || id == "dao-defense"@) && kind == IncomingActionKind::Attack {
        Some(ActionModification::PreventDamage)
    } else if id == FLOWING_SHADOW_SWORD@ && kind == IncomingActionKind::Attack && (
    attack_points matches Some(p) && p <= 40) {
        Some(ActionModification::PreventDamage)
    } else if (id == "countershock"@ || id == "magic-shock"@) && kind == IncomingActionKind::Attack {
        Some(ActionModification::SplitAttackDamage)
    } else if (id == "seal"@ || id == "magic-seal"@) && kind == IncomingActionKind::ActiveSpell {
        Some(ActionModification::CancelSpell)
    } else if id == "seal"@ && kind == IncomingActionKind::PassiveSpell {
        Some(ActionModification::SealCoveredPassive)
    } else if id == "holy-light-break"@ && kind == IncomingActionKind::PassiveSpell {
        Some(ActionModification::RevealCoveredPassive)
    } else {
        None
    }
}

/// The modifications of a passive: none when it is sealed, ignored or made ineffective by
/// the environment; otherwise its modification for the action, if it has one.
pub open spec fn spec_modifications(
    id: Seq<char>,
    kind: IncomingActionKind,
    sealed: bool,
    ignores_formation_effects: bool,
    ignored_by_ability: bool,
    ignored_by_golden_cicada: bool,
    ineffective_environment: Option<Element>,
    attack_points: Option<i32>,
) -> Seq<ActionModification> {
    if sealed || ignores_formation_effects || ignored_by_ability || ignored_by_golden_cicada
        || ineffective_environment is Some {
        seq![]
    } else {
        match spec_modification(id, kind, attack_points) {
            Some(m) => seq![m],
            None => seq![],
        }
    }
}

/// The modifications a passive makes to an incoming action.
pub fn passive_spell_modifications(
    passive_id: &str,
    incoming_kind: IncomingActionKind,
    sealed: bool,
    ignores_formation_effects: bool,
    ignored_by_ability: bool,
    ignored_by_golden_cicada: bool,
    ineffective_environment: Option<Element>,
    attack_points: Option<i32>,
) -> (r: Vec<ActionModification>)
    ensures
        r@ == spec_modifications(
            passive_id@,
            incoming_kind,
            sealed,
            ignores_formation_effects,
            ignored_by_ability,
            ignored_by_golden_cicada,
            ineffective_environment,
            attack_points,
        ),
{
    if sealed || ignores_formation_effects || ignored_by_ability || ignored_by_golden_cicada
        || ineffective_environment.is_some() {
        return Vec::new();
    }
    let attack = incoming_kind == IncomingActionKind::Attack;
    let modification = if (str_eq(passive_id, "defense") || str_eq(passive_id, "dao-defense"))
        && attack {
        ActionModification::PreventDamage
    } else if str_eq(passive_id, FLOWING_SHADOW_SWORD) && attack && match attack_points {
        Some(p) => p <= 40,
        None => false,
    } {
        ActionModification::PreventDamage
    } else if (str_eq(passive_id, "countershock") || str_eq(passive_id, "magic-shock")) && attack {
        ActionModification::SplitAttackDamage
    } else if (str_eq(passive_id, "seal") || str_eq(passive_id, "magic-seal")) && incoming_kind
        == IncomingActionKind::ActiveSpell {
        ActionModification::CancelSpell
    } else if str_eq(passive_id, "seal") && incoming_kind == IncomingActionKind::PassiveSpell {
        ActionModification::SealCoveredPassive
    } else if str_eq(passive_id, "holy-light-break") && incoming_kind
        == IncomingActionKind::PassiveSpell {
        ActionModification::RevealCoveredPassive
    } else {
        return Vec::new();
    };
    let v = vec![modification];
    assert(v@ =~= seq![modification]);
    v
}

/// Why a passive cannot apply to an action at all: the defenses and shocks need an
/// attack, the Flowing Shadow sword an attack of at most forty points, the seals and Holy
/// Light Break the spells they answer. The Empty City always applies.
pub open spec fn spec_inapplicability(id: Seq<char>, kind: IncomingActionKind, attack_points: Option<i32>) -> Option<
    PassiveNoEffectGround,
> {
    if id == "empty-city"@ {
        None
    } else if (id == "defense"@ || id == "dao-defense"@ || id == "countershock"@ || id
        == "magic-shock"@) && kind != IncomingActionKind::Attack {
        Some(PassiveNoEffectGround::NotAnAttack)
    } else if id == FLOWING_SHADOW_SWORD@ && kind != IncomingActionKind::Attack {
        Some(PassiveNoEffectGround::NotAnAttack)
    } else if id == FLOWING_SHADOW_SWORD@ && !(attack_points matches Some(p) && p <= 40) {
        Some(PassiveNoEffectGround::AttackPointsExceedLimit { maximum: 40 })
    } else if id == "seal"@ && kind != IncomingActionKind::ActiveSpell && kind
        != IncomingActionKind::PassiveSpell {
        Some(PassiveNoEffectGround::NotASpell)
    } else if id == "magic-seal"@ && kind != IncomingActionKind::ActiveSpell {
        Some(PassiveNoEffectGround::NotASpell)
    } else if id == "holy-light-break"@ && kind != IncomingActionKind::PassiveSpell {
        Some(PassiveNoEffectGround::NotASpell)
    } else {
        None
    }
}

/// Why a passive cannot apply to an action at all, if it cannot.
pub fn inapplicability_ground(
    passive_id: &str,
    incoming_kind: IncomingActionKind,
    attack_points: Option<i32>,
) -> (r: Option<PassiveNoEffectGround>)
    ensures
        r == spec_inapplicability(passive_id@, incoming_kind, attack_points),
{
    let attack = incoming_kind == IncomingActionKind::Attack;
    let small_attack = match attack_points {
        Some(p) => p <= 40,
        None => false,
    };
    if str_eq(passive_id, "empty-city") {
        None
    } else if (str_eq(passive_id, "defense") || str_eq(passive_id, "dao-defense") || str_eq(
        passive_id,
        "countershock",
    ) || str_eq(passive_id, "magic-shock")) && !attack {
        Some(PassiveNoEffectGround::NotAnAttack)
    } else if str_eq(passive_id, FLOWING_SHADOW_SWORD) && !attack {
        Some(PassiveNoEffectGround::NotAnAttack)
    } else if str_eq(passive_id, FLOWING_SHADOW_SWORD) && !small_attack {
        Some(PassiveNoEffectGround::AttackPointsExceedLimit { maximum: 40 })
    } else if str_eq(passive_id, "seal") && incoming_kind != IncomingActionKind::ActiveSpell
        && incoming_kind != IncomingActionKind::PassiveSpell {
        Some(PassiveNoEffectGround::NotASpell)
    } else if str_eq(passive_id, "magic-seal") && incoming_kind != IncomingActionKind::ActiveSpell {
        Some(PassiveNoEffectGround::NotASpell)
    } else if str_eq(passive_id, "holy-light-break") && incoming_kind
        != IncomingActionKind::PassiveSpell {
        Some(PassiveNoEffectGround::NotASpell)
    } else {
        None
    }
}

/// The grounds on which an applicable passive still does nothing, in the order they are
/// reported: neutralized, ignored by a sacred beast, by a profession ability or by the
/// Golden Cicada, ineffective in the environment, sealed, and the Empty City.
pub open spec fn spec_grounds(
    id: Seq<char>,
    sealed: bool,
    neutralized: bool,
    ignores_formation_effects: bool,
    ignored_by_ability: bool,
    ignored_by_golden_cicada: bool,
    ineffective_environment: Option<Element>,
) -> Seq<PassiveNoEffectGround> {
    (if neutralized {
        seq![PassiveNoEffectGround::Neutralized]
    } else {
        seq![]
    }) + (if ignores_formation_effects {
        seq![PassiveNoEffectGround::IgnoredBySacredBeast]
    } else {
        seq![]
    }) + (if ignored_by_ability {
        seq![PassiveNoEffectGround::IgnoredByProfessionAbility]
    } else {
        seq![]
    }) + (if ignored_by_golden_cicada {
        seq![PassiveNoEffectGround::IgnoredByGoldenCicada]
    } else {
        seq![]
    }) + (match ineffective_environment {
        Some(e) => seq![PassiveNoEffectGround::IneffectiveInEnvironment { environment: e }],
        None => seq![],
    }) + (if sealed {
        seq![PassiveNoEffectGround::Sealed]
    } else {
        seq![]
    }) + (if id == "empty-city"@ {
        seq![PassiveNoEffectGround::EmptyCity]
    } else {
        seq![]
    })
}

/// The outcome of a flipped passive: the ground on which it cannot apply; otherwise the
/// grounds on which it does nothing; otherwise its modifications.
pub open spec fn spec_outcome(
    id: Seq<char>,
    kind: IncomingActionKind,
    sealed: bool,
    neutralized: bool,
    ignores_formation_effects: bool,
    ignored_by_ability: bool,
    ignored_by_golden_cicada: bool,
    ineffective_environment: Option<Element>,
    attack_points: Option<i32>,
    modifications: Seq<ActionModification>,
) -> OutcomeView {
    match spec_inapplicability(id, kind, attack_points) {
        Some(g) => OutcomeView::NoEffect(seq![g]),
        None => {
            let grounds = spec_grounds(
                id,
                sealed,
                neutralized,
                ignores_formation_effects,
                ignored_by_ability,
                ignored_by_golden_cicada,
                ineffective_environment,
            );
            if grounds.len() > 0 {
                OutcomeView::NoEffect(grounds)
            } else {
                OutcomeView::Applied(id, modifications)
            }
        },
    }
}

/// The outcome is defined: a passive that applies and has no ground to do nothing either
/// modifies the action or is the Poison Smoke.
pub open spec fn outcome_defined(
    id: Seq<char>,
    kind: IncomingActionKind,
    sealed: bool,
    neutralized: bool,
    ignores_formation_effects: bool,
    ignored_by_ability: bool,
    ignored_by_golden_cicada: bool,
    ineffective_environment: Option<Element>,
    attack_points: Option<i32>,
    modifications: Seq<ActionModification>,
) -> bool {
    ||| spec_inapplicability(id, kind, attack_points) is Some
    ||| spec_grounds(
        id,
        sealed,
        neutralized,
        ignores_formation_effects,
        ignored_by_ability,
        ignored_by_golden_cicada,
        ineffective_environment,
    ).len() > 0
    ||| modifications.len() > 0
    ||| id == POISON_SMOKE@
}


fn push_if(v: &mut Vec<PassiveNoEffectGround>, cond: bool, g: PassiveNoEffectGround)
    ensures
        final(v)@ == old(v)@ + if cond {
            seq![g]
        } else {
            seq![]
        },
{
    if cond {
        v.push(g);
    }
    assert(v@ =~= old(v)@ + if cond {
        seq![g]
    } else {
        seq![]
    });
}

fn grounds_for(
    passive_id: &str,
    sealed: bool,
    neutralized: bool,
    ignores_formation_effects: bool,
    ignored_by_ability: bool,
    ignored_by_golden_cicada: bool,
    ineffective_environment: Option<Element>,
) -> (r: Vec<PassiveNoEffectGround>)
    ensures
        r@ == spec_grounds(
            passive_id@,
            sealed,
            neutralized,
            ignores_formation_effects,
            ignored_by_ability,
            ignored_by_golden_cicada,
            ineffective_environment,
        ),
{
    let mut grounds: Vec<PassiveNoEffectGround> = Vec::new();
    push_if(&mut grounds, neutralized, PassiveNoEffectGround::Neutralized);
    push_if(&mut grounds, ignores_formation_effects, PassiveNoEffectGround::IgnoredBySacredBeast);
    push_if(&mut grounds, ignored_by_ability, PassiveNoEffectGround::IgnoredByProfessionAbility);
    push_if(&mut grounds, ignored_by_golden_cicada, PassiveNoEffectGround::IgnoredByGoldenCicada);
    match ineffective_environment {
        Some(environment) => push_if(
            &mut grounds,
            true,
            PassiveNoEffectGround::IneffectiveInEnvironment { environment },
        ),
        None => {},
    }
    push_if(&mut grounds, sealed, PassiveNoEffectGround::Sealed);
    push_if(&mut grounds, str_eq(passive_id, "empty-city"), PassiveNoEffectGround::EmptyCity);
    assert(grounds@ =~= spec_grounds(
        passive_id@,
        sealed,
        neutralized,
        ignores_formation_effects,
        ignored_by_ability,
        ignored_by_golden_cicada,
        ineffective_environment,
    ));
    grounds
}

fn copy_modifications(modifications: &[ActionModification]) -> (r: Vec<ActionModification>)
    ensures
        r@ == modifications@,
{
    let mut mods: Vec<ActionModification> = Vec::new();
    let mut i: usize = 0;
    while i < modifications.len()
        invariant
            i <= modifications.len(),
            mods@ == modifications@.subrange(0, i as int),
        decreases modifications.len() - i,
    {
        mods.push(modifications[i]);
        assert(mods@ =~= modifications@.subrange(0, i as int + 1));
        i = i + 1;
    }
    assert(mods@ =~= modifications@);
    mods
}

/// The outcome of a flipped passive, given the modifications it makes.
pub fn passive_outcome(
    passive_id: &str,
    incoming_kind: IncomingActionKind,
    sealed: bool,
    neutralized: bool,
    ignores_formation_effects: bool,
    ignored_by_ability: bool,
    ignored_by_golden_cicada: bool,
    ineffective_environment: Option<Element>,
    attack_points: Option<i32>,
    modifications: &[ActionModification],
) -> (r: PassiveFlipOutcome)
    requires
        outcome_defined(
            passive_id@,
            incoming_kind,
            sealed,
            neutralized,
            ignores_formation_effects,
            ignored_by_ability,
            ignored_by_golden_cicada,
            ineffective_environment,
            attack_points,
            modifications@,
        ),
    ensures
        outcome_view(r) == spec_outcome(
            passive_id@,
            incoming_kind,
            sealed,
            neutralized,
            ignores_formation_effects,
            ignored_by_ability,
            ignored_by_golden_cicada,
            ineffective_environment,
            attack_points,
            modifications@,
        ),
{
    if let Some(ground) = inapplicability_ground(passive_id, incoming_kind, attack_points) {
        let grounds = vec![ground];
        assert(grounds@ =~= seq![ground]);
        return PassiveFlipOutcome::NoEffect { grounds };
    }
    let grounds = grounds_for(
        passive_id,
        sealed,
        neutralized,
        ignores_formation_effects,
        ignored_by_ability,
        ignored_by_golden_cicada,
        ineffective_environment,
    );
    if grounds.len() > 0 {
        return PassiveFlipOutcome::NoEffect { grounds };
    }
    let mods = copy_modifications(modifications);
    PassiveFlipOutcome::Applied { effect_id: owned(passive_id), modifications: mods }
}


// ---------------------------------------------------------------------------
// Flipping the previous player's passives.
// ---------------------------------------------------------------------------

/// An incoming action that flips the covered passive and the counter effects of the
/// player seated before its author.
#[derive(Debug, PartialEq, Eq)]
pub struct TriggerRequest {
    pub incoming_player: PlayerId,
    pub incoming_kind: IncomingActionKind,
    pub ignores_formation_effects: bool,
    pub ignores_counter_effects_by_profession_ability: bool,
    pub ignores_counter_effects_by_golden_cicada: bool,
    pub attack_points: Option<i32>,
}

/// A covered passive: its formation, its cards and, while it waits face down, whether
/// it is sealed and whether it is neutralized.
#[derive(Debug, PartialEq, Eq)]
pub struct CoveredPassive {
    pub formation_id: String,
    pub cards: Vec<CardInstanceId>,
    pub waiting: Option<(bool, bool)>,
}

/// A counter effect a player holds.
#[derive(Debug, PartialEq, Eq)]
pub struct CounterEffect {
    pub owner: PlayerId,
    pub effect_id: String,
}

/// What flipping reports: the covered passive flipped, or a counter effect resolved.
#[derive(Debug, PartialEq, Eq)]
pub enum PassiveTriggerEvent {
    PassiveFlipped {
        owner: PlayerId,
        incoming_player: PlayerId,
        passive_id: String,
        cards: Vec<CardInstanceId>,
        outcome: PassiveFlipOutcome,
    },
    CounterEffectResolved {
        owner: PlayerId,
        incoming_player: PlayerId,
        effect_id: String,
        outcome: PassiveFlipOutcome,
    },
}

/// A reported event as plain values.
pub enum TriggerEventView {
    PassiveFlipped(Seq<char>, Seq<char>, Seq<char>, Seq<CardInstanceId>, OutcomeView),
    CounterEffectResolved(Seq<char>, Seq<char>, Seq<char>, OutcomeView),
}

pub open spec fn trigger_event_view(e: PassiveTriggerEvent) -> TriggerEventView {
    match e {
        PassiveTriggerEvent::PassiveFlipped { owner, incoming_player, passive_id, cards, outcome } =>
            TriggerEventView::PassiveFlipped(
            owner@,
            incoming_player@,
            passive_id@,
            cards@,
            outcome_view(outcome),
        ),
        PassiveTriggerEvent::CounterEffectResolved { owner, incoming_player, effect_id, outcome } =>
            TriggerEventView::CounterEffectResolved(
            owner@,
            incoming_player@,
            effect_id@,
            outcome_view(outcome),
        ),
    }
}

pub open spec fn trigger_event_views(s: Seq<PassiveTriggerEvent>) -> Seq<TriggerEventView> {
    s.map_values(|e: PassiveTriggerEvent| trigger_event_view(e))
}

/// The events and the modifications of the incoming action that flipping produced.
#[derive(Debug, PartialEq, Eq)]
pub struct PassiveTriggerResult {
    events: Vec<PassiveTriggerEvent>,
    modifications: Vec<ActionModification>,
}

impl PassiveTriggerResult {
    /// The reported events, in order.
    pub closed spec fn event_seq(&self) -> Seq<PassiveTriggerEvent> {
        self.events@
    }

    /// The modifications of the incoming action, in order.
    pub closed spec fn modification_seq(&self) -> Seq<ActionModification> {
        self.modifications@
    }

    /// The reported events.
    pub fn events(self) -> (r: Vec<PassiveTriggerEvent>)
        ensures
            r@ == self.event_seq(),
    {
        self.events
    }

    fn has(&self, m: ActionModification) -> (r: bool)
        ensures
            r == self.modification_seq().contains(m),
    {
        let mut i: usize = 0;
        while i < self.modifications.len()
            invariant
                i <= self.modifications.len(),
                forall|j: int| 0 <= j < i ==> self.modifications@[j] != m,
            decreases self.modifications.len() - i,
        {
            if self.modifications[i] == m {
                assert(self.modification_seq()[i as int] == m);
                return true;
            }
            i = i + 1;
        }
        false
    }

    /// The incoming attack's damage is prevented.
    pub fn prevents_damage(&self) -> (r: bool)
        ensures
            r == self.modification_seq().contains(ActionModification::PreventDamage),
    {
        self.has(ActionModification::PreventDamage)
    }

    /// The incoming attack's damage is split.
    pub fn splits_attack_damage(&self) -> (r: bool)
        ensures
            r == self.modification_seq().contains(ActionModification::SplitAttackDamage),
    {
        self.has(ActionModification::SplitAttackDamage)
    }

    /// The incoming spell is cancelled.
    pub fn cancels_spell(&self) -> (r: bool)
        ensures
            r == self.modification_seq().contains(ActionModification::CancelSpell),
    {
        self.has(ActionModification::CancelSpell)
    }

    /// The incoming covered passive is sealed.
    pub fn seals_covered_passive(&self) -> (r: bool)
        ensures
            r == self.modification_seq().contains(ActionModification::SealCoveredPassive),
    {
        self.has(ActionModification::SealCoveredPassive)
    }

    /// The incoming covered passive is revealed.
    pub fn reveals_covered_passive(&self) -> (r: bool)
        ensures
            r == self.modification_seq().contains(ActionModification::RevealCoveredPassive),
    {
        self.has(ActionModification::RevealCoveredPassive)
    }
}

/// The environment that makes the covered passive ineffective, if it does.
pub open spec fn ineffective_environment_of(five_directions: bool, environment: Option<Element>, id: Seq<char>) -> Option<
    Element,
> {
    if spec_environment_makes_ineffective(five_directions, environment, id) {
        environment
    } else {
        None
    }
}

/// The modifications of a waiting covered passive: none when it is neutralized.
pub open spec fn covered_modifications(
    req: TriggerRequest,
    id: Seq<char>,
    sealed: bool,
    neutralized: bool,
    ineffective: Option<Element>,
) -> Seq<ActionModification> {
    if neutralized {
        seq![]
    } else {
        spec_modifications(
            id,
            req.incoming_kind,
            sealed,
            req.ignores_formation_effects,
            req.ignores_counter_effects_by_profession_ability,
            req.ignores_counter_effects_by_golden_cicada,
            ineffective,
            req.attack_points,
        )
    }
}

/// The modifications of a counter effect.
pub open spec fn counter_modifications(req: TriggerRequest, id: Seq<char>) -> Seq<ActionModification> {
    spec_modifications(
        id,
        req.incoming_kind,
        false,
        req.ignores_formation_effects,
        req.ignores_counter_effects_by_profession_ability,
        req.ignores_counter_effects_by_golden_cicada,
        None,
        req.attack_points,
    )
}

/// The outcome of a counter effect.
pub open spec fn counter_outcome(req: TriggerRequest, id: Seq<char>) -> OutcomeView {
    spec_outcome(
        id,
        req.incoming_kind,
        false,
        false,
        req.ignores_formation_effects,
        req.ignores_counter_effects_by_profession_ability,
        req.ignores_counter_effects_by_golden_cicada,
        None,
        req.attack_points,
        counter_modifications(req, id),
    )
}

/// The counter effect's outcome is defined.
pub open spec fn counter_defined(req: TriggerRequest, id: Seq<char>) -> bool {
    outcome_defined(
        id,
        req.incoming_kind,
        false,
        false,
        req.ignores_formation_effects,
        req.ignores_counter_effects_by_profession_ability,
        req.ignores_counter_effects_by_golden_cicada,
        None,
        req.attack_points,
        counter_modifications(req, id),
    )
}

/// The events of the first `n` counter effects that the owner holds.
pub open spec fn counter_events(
    req: TriggerRequest,
    counters: Seq<CounterEffect>,
    owner: Seq<char>,
    n: int,
) -> Seq<TriggerEventView>
    decreases n,
{
    if n <= 0 || n > counters.len() {
        seq![]
    } else {
        counter_events(req, counters, owner, n - 1) + if counters[n - 1].owner@ == owner {
            seq![
                TriggerEventView::CounterEffectResolved(
                    owner,
                    req.incoming_player@,
                    counters[n - 1].effect_id@,
                    counter_outcome(req, counters[n - 1].effect_id@),
                ),
            ]
        } else {
            seq![]
        }
    }
}

/// The modifications of the first `n` counter effects that the owner holds.
pub open spec fn counter_modifications_of(
    req: TriggerRequest,
    counters: Seq<CounterEffect>,
    owner: Seq<char>,
    n: int,
) -> Seq<ActionModification>
    decreases n,
{
    if n <= 0 || n > counters.len() {
        seq![]
    } else {
        counter_modifications_of(req, counters, owner, n - 1) + if counters[n - 1].owner@ == owner {
            counter_modifications(req, counters[n - 1].effect_id@)
        } else {
            seq![]
        }
    }
}

/// Flipping is defined: the covered passive's outcome, when it waits, and the outcome of
/// each counter effect of the previous player.
pub open spec fn trigger_defined(
    req: TriggerRequest,
    previous: Option<PlayerId>,
    covered: Option<CoveredPassive>,
    five_directions: bool,
    environment: Option<Element>,
    counters: Seq<CounterEffect>,
) -> bool {
    match previous {
        None => true,
        Some(prev) => {
            &&& match covered {
                Some(p) => match p.waiting {
                    Some((sealed, neutralized)) => {
                        let ineffective = ineffective_environment_of(
                            five_directions,
                            environment,
                            p.formation_id@,
                        );
                        outcome_defined(
                            p.formation_id@,
                            req.incoming_kind,
                            sealed,
                            neutralized,
                            req.ignores_formation_effects,
                            req.ignores_counter_effects_by_profession_ability,
                            req.ignores_counter_effects_by_golden_cicada,
                            ineffective,
                            req.attack_points,
                            covered_modifications(req, p.formation_id@, sealed, neutralized, ineffective),
                        )
                    },
                    None => true,
                },
                None => true,
            }
            &&& forall|k: int|
                0 <= k < counters.len() && #[trigger] counters[k].owner@ == prev@ ==> counter_defined(
                    req,
                    counters[k].effect_id@,
                )
        },
    }
}

/// The events flipping reports: nothing without a previous player, or when its covered
/// passive is not waiting face down; otherwise the flipped passive, if there is one, then
/// each counter effect the previous player holds.
pub open spec fn spec_trigger_events(
    req: TriggerRequest,
    previous: Option<PlayerId>,
    covered: Option<CoveredPassive>,
    five_directions: bool,
    environment: Option<Element>,
    counters: Seq<CounterEffect>,
) -> Seq<TriggerEventView> {
    match previous {
        None => seq![],
        Some(prev) => match covered {
            Some(p) => match p.waiting {
                None => seq![],
                Some((sealed, neutralized)) => {
                    let ineffective = ineffective_environment_of(
                        five_directions,
                        environment,
                        p.formation_id@,
                    );
                    let mods = covered_modifications(req, p.formation_id@, sealed, neutralized, ineffective);
                    seq![
                        TriggerEventView::PassiveFlipped(
                            prev@,
                            req.incoming_player@,
                            p.formation_id@,
                            p.cards@,
                            spec_outcome(
                                p.formation_id@,
                                req.incoming_kind,
                                sealed,
                                neutralized,
                                req.ignores_formation_effects,
                                req.ignores_counter_effects_by_profession_ability,
                                req.ignores_counter_effects_by_golden_cicada,
                                ineffective,
                                req.attack_points,
                                mods,
                            ),
                        ),
                    ] + counter_events(req, counters, prev@, counters.len() as int)
                },
            },
            None => counter_events(req, counters, prev@, counters.len() as int),
        },
    }
}

/// The modifications flipping makes to the incoming action, in the order of the events.
pub open spec fn spec_trigger_modifications(
    req: TriggerRequest,
    previous: Option<PlayerId>,
    covered: Option<CoveredPassive>,
    five_directions: bool,
    environment: Option<Element>,
    counters: Seq<CounterEffect>,
) -> Seq<ActionModification> {
    match previous {
        None => seq![],
        Some(prev) => match covered {
            Some(p) => match p.waiting {
                None => seq![],
                Some((sealed, neutralized)) => covered_modifications(
                    req,
                    p.formation_id@,
                    sealed,
                    neutralized,
                    ineffective_environment_of(five_directions, environment, p.formation_id@),
                ) + counter_modifications_of(req, counters, prev@, counters.len() as int),
            },
            None => counter_modifications_of(req, counters, prev@, counters.len() as int),
        },
    }
}

fn append_modifications(v: &mut Vec<ActionModification>, more: Vec<ActionModification>)
    ensures
        final(v)@ == old(v)@ + more@,
{
    let mut more = more;
    v.append(&mut more);
}

fn counter_effects_of(
    request: &TriggerRequest,
    previous: &PlayerId,
    counters: &[CounterEffect],
    events: &mut Vec<PassiveTriggerEvent>,
    modifications: &mut Vec<ActionModification>,
)
    requires
        forall|k: int|
            0 <= k < counters@.len() && #[trigger] counters@[k].owner@ == previous@ ==> counter_defined(
                *request,
                counters@[k].effect_id@,
            ),
    ensures
        trigger_event_views(final(events)@) == trigger_event_views(old(events)@) + counter_events(
            *request,
            counters@,
            previous@,
            counters@.len() as int,
        ),
        final(modifications)@ == old(modifications)@ + counter_modifications_of(
            *request,
            counters@,
            previous@,
            counters@.len() as int,
        ),
{
    let ghost events0 = trigger_event_views(events@);
    let ghost mods0 = modifications@;
    let mut i: usize = 0;
    while i < counters.len()
        invariant
            i <= counters.len(),
            forall|k: int|
                0 <= k < counters@.len() && #[trigger] counters@[k].owner@ == previous@ ==> counter_defined(
                    *request,
                    counters@[k].effect_id@,
                ),
            trigger_event_views(events@) == events0 + counter_events(*request, counters@, previous@, i as int),
            modifications@ == mods0 + counter_modifications_of(*request, counters@, previous@, i as int),
        decreases counters.len() - i,
    {
        let counter = &counters[i];
        if counter.owner.same(previous) {
            let id = counter.effect_id.as_str();
            let mods = passive_spell_modifications(
                id,
                request.incoming_kind,
                false,
                request.ignores_formation_effects,
                request.ignores_counter_effects_by_profession_ability,
                request.ignores_counter_effects_by_golden_cicada,
                None,
                request.attack_points,
            );
            assert(counter_defined(*request, counters@[i as int].effect_id@));
            let outcome = passive_outcome(
                id,
                request.incoming_kind,
                false,
                false,
                request.ignores_formation_effects,
                request.ignores_counter_effects_by_profession_ability,
                request.ignores_counter_effects_by_golden_cicada,
                None,
                request.attack_points,
                mods.as_slice(),
            );
            let ghost before_events = events@;
            let ghost before_mods = modifications@;
            events.push(
                PassiveTriggerEvent::CounterEffectResolved {
                    owner: counter.owner.clone(),
                    incoming_player: request.incoming_player.clone(),
                    effect_id: owned(id),
                    outcome,
                },
            );
            assert(trigger_event_views(events@) =~= trigger_event_views(before_events) + seq![
                trigger_event_view(events@[events@.len() - 1]),
            ]);
            append_modifications(modifications, mods);
            assert(modifications@ =~= before_mods + counter_modifications(*request, id@));
            assert(events0 + counter_events(*request, counters@, previous@, i as int + 1) =~= events0
                + counter_events(*request, counters@, previous@, i as int) + seq![
                trigger_event_view(events@[events@.len() - 1]),
            ]);
            assert(mods0 + counter_modifications_of(*request, counters@, previous@, i as int + 1)
                =~= mods0 + counter_modifications_of(*request, counters@, previous@, i as int)
                + counter_modifications(*request, id@));
        } else {
            assert(counter_events(*request, counters@, previous@, i as int + 1) =~= counter_events(
                *request,
                counters@,
                previous@,
                i as int,
            ));
            assert(counter_modifications_of(*request, counters@, previous@, i as int + 1)
                =~= counter_modifications_of(*request, counters@, previous@, i as int));
        }
        i = i + 1;
    }
}

/// Flips a waiting covered passive of `previous`.
fn flip_covered(
    request: &TriggerRequest,
    previous: &PlayerId,
    passive: &CoveredPassive,
    sealed: bool,
    neutralized: bool,
    five_directions: bool,
    environment: Option<Element>,
) -> (r: (PassiveTriggerEvent, Vec<ActionModification>))
    requires
        ({
            let ineffective = ineffective_environment_of(
                five_directions,
                environment,
                passive.formation_id@,
            );
            outcome_defined(
                passive.formation_id@,
                request.incoming_kind,
                sealed,
                neutralized,
                request.ignores_formation_effects,
                request.ignores_counter_effects_by_profession_ability,
                request.ignores_counter_effects_by_golden_cicada,
                ineffective,
                request.attack_points,
                covered_modifications(*request, passive.formation_id@, sealed, neutralized, ineffective),
            )
        }),
    ensures
        ({
            let ineffective = ineffective_environment_of(
                five_directions,
                environment,
                passive.formation_id@,
            );
            let mods = covered_modifications(*request, passive.formation_id@, sealed, neutralized, ineffective);
            &&& r.1@ == mods
            &&& trigger_event_view(r.0) == TriggerEventView::PassiveFlipped(
                previous@,
                request.incoming_player@,
                passive.formation_id@,
                passive.cards@,
                spec_outcome(
                    passive.formation_id@,
                    request.incoming_kind,
                    sealed,
                    neutralized,
                    request.ignores_formation_effects,
                    request.ignores_counter_effects_by_profession_ability,
                    request.ignores_counter_effects_by_golden_cicada,
                    ineffective,
                    request.attack_points,
                    mods,
                ),
            )
        }),
{
    let id = passive.formation_id.as_str();
    let ineffective = if environment_makes_formation_ineffective(five_directions, environment, id) {
        environment
    } else {
        None
    };
    let mods = if neutralized {
        Vec::new()
    } else {
        passive_spell_modifications(
            id,
            request.incoming_kind,
            sealed,
            request.ignores_formation_effects,
            request.ignores_counter_effects_by_profession_ability,
            request.ignores_counter_effects_by_golden_cicada,
            ineffective,
            request.attack_points,
        )
    };
    assert(mods@ =~= covered_modifications(*request, id@, sealed, neutralized, ineffective));
    let outcome = passive_outcome(
        id,
        request.incoming_kind,
        sealed,
        neutralized,
        request.ignores_formation_effects,
        request.ignores_counter_effects_by_profession_ability,
        request.ignores_counter_effects_by_golden_cicada,
        ineffective,
        request.attack_points,
        mods.as_slice(),
    );
    let event = PassiveTriggerEvent::PassiveFlipped {
        owner: previous.clone(),
        incoming_player: request.incoming_player.clone(),
        passive_id: owned(id),
        cards: copy_cards(passive.cards.as_slice()),
        outcome,
    };
    (event, mods)
}

/// Flips the covered passive of the player seated before the incoming player, and
/// resolves the counter effects that player holds. `previous` is that player, when the
/// turn order knows one; the environment and whether the Five Directions Legend is
/// enabled decide whether the environment makes the passive ineffective.
pub fn trigger(
    request: &TriggerRequest,
    previous: Option<&PlayerId>,
    covered: Option<&CoveredPassive>,
    five_directions: bool,
    environment: Option<Element>,
    counters: &[CounterEffect],
) -> (r: PassiveTriggerResult)
    requires
        trigger_defined(
            *request,
            match previous {
                Some(p) => Some(*p),
                None => None,
            },
            match covered {
                Some(c) => Some(*c),
                None => None,
            },
            five_directions,
            environment,
            counters@,
        ),
    ensures
        trigger_event_views(r.event_seq()) == spec_trigger_events(
            *request,
            match previous {
                Some(p) => Some(*p),
                None => None,
            },
            match covered {
                Some(c) => Some(*c),
                None => None,
            },
            five_directions,
            environment,
            counters@,
        ),
        r.modification_seq() == spec_trigger_modifications(
            *request,
            match previous {
                Some(p) => Some(*p),
                None => None,
            },
            match covered {
                Some(c) => Some(*c),
                None => None,
            },
            five_directions,
            environment,
            counters@,
        ),
{
    let mut events: Vec<PassiveTriggerEvent> = Vec::new();
    let mut modifications: Vec<ActionModification> = Vec::new();
    let prev = match previous {
        Some(p) => p,
        None => {
            return PassiveTriggerResult { events, modifications };
        },
    };
    match covered {
        Some(passive) => {
            let (sealed, neutralized) = match passive.waiting {
                Some(w) => w,
                None => {
                    assert(trigger_event_views(events@) =~= seq![]);
                    return PassiveTriggerResult { events, modifications };
                },
            };
            let (event, mods) = flip_covered(
                request,
                prev,
                passive,
                sealed,
                neutralized,
                five_directions,
                environment,
            );
            events.push(event);
            assert(trigger_event_views(events@) =~= seq![trigger_event_view(event)]);
            modifications = mods;
        },
        None => {},
    }
    counter_effects_of(request, prev, counters, &mut events, &mut modifications);
    PassiveTriggerResult { events, modifications }
}


proof fn lemma_inapplicable_passive_modifies_nothing(
    id: Seq<char>,
    kind: IncomingActionKind,
    attack_points: Option<i32>,
)
    ensures
        spec_inapplicability(id, kind, attack_points) is Some ==> spec_modification(
            id,
            kind,
            attack_points,
        ) is None,
        id == "empty-city"@ ==> spec_modification(id, kind, attack_points) is None,
{
    reveal_strlit("defense");
    reveal_strlit("dao-defense");
    reveal_strlit("countershock");
    reveal_strlit("magic-shock");
    reveal_strlit("seal");
    reveal_strlit("magic-seal");
    reveal_strlit("holy-light-break");
    reveal_strlit("empty-city");
    reveal_strlit("jianghu:flowing-shadow-remnant-light-sword");
    assert("defense"@.len() == 7);
    assert("dao-defense"@.len() == 11);
    assert("countershock"@.len() == 12);
    assert("magic-shock"@.len() == 11);
    assert("seal"@.len() == 4);
    assert("magic-seal"@.len() == 10);
    assert("holy-light-break"@.len() == 16);
    assert("empty-city"@.len() == 10);
    assert(FLOWING_SHADOW_SWORD@.len() == 42);
    assert("dao-defense"@[0] != "magic-shock"@[0]);
    assert("magic-seal"@[0] != "empty-city"@[0]);
}

/// A flipped passive that reports no effect makes no modification, and one that makes a
/// modification reports it applied: the outcome never contradicts what the passive does to
/// the action.
pub proof fn lemma_outcome_matches_modifications(
    id: Seq<char>,
    kind: IncomingActionKind,
    sealed: bool,
    neutralized: bool,
    ignores_formation_effects: bool,
    ignored_by_ability: bool,
    ignored_by_golden_cicada: bool,
    ineffective_environment: Option<Element>,
    attack_points: Option<i32>,
)
    ensures
        ({
            let mods = if neutralized {
                seq![]
            } else {
                spec_modifications(
                    id,
                    kind,
                    sealed,
                    ignores_formation_effects,
                    ignored_by_ability,
                    ignored_by_golden_cicada,
                    ineffective_environment,
                    attack_points,
                )
            };
            let outcome = spec_outcome(
                id,
                kind,
                sealed,
                neutralized,
                ignores_formation_effects,
                ignored_by_ability,
                ignored_by_golden_cicada,
                ineffective_environment,
                attack_points,
                mods,
            );
            &&& outcome is NoEffect ==> mods.len() == 0
            &&& mods.len() > 0 ==> outcome == OutcomeView::Applied(id, mods)
        }),
{
    lemma_inapplicable_passive_modifies_nothing(id, kind, attack_points);
}


/// What each passive does to an incoming action it meets with nothing stopping it (not
/// sealed, not ignored, not made ineffective by the environment): Defense and Dao Defense
/// prevent an attack's damage, and the Flowing Shadow sword prevents that of an attack of
/// at most forty points; Countershock and Magic Shock share an attack's damage between
/// its target and its caster and never prevent it; Seal and Magic Seal cancel an active
/// spell; Seal seals a covered passive, and Holy Light Break reveals one. Each makes at
/// most one modification, none to the kinds of action it does not answer, and a passive
/// that anything stops makes none.
pub proof fn lemma_passive_modifications(
    id: Seq<char>,
    kind: IncomingActionKind,
    sealed: bool,
    ignores_formation_effects: bool,
    ignored_by_ability: bool,
    ignored_by_golden_cicada: bool,
    ineffective_environment: Option<Element>,
    attack_points: Option<i32>,
)
    ensures
        ({
            let stopped = sealed || ignores_formation_effects || ignored_by_ability
                || ignored_by_golden_cicada || ineffective_environment is Some;
            let m = spec_modifications(
                id,
                kind,
                sealed,
                ignores_formation_effects,
                ignored_by_ability,
                ignored_by_golden_cicada,
                ineffective_environment,
                attack_points,
            );
            let attack = kind == IncomingActionKind::Attack;
            &&& m.len() <= 1
            &&& stopped ==> m.len() == 0
            &&& !stopped && attack && (id == "defense"@ || id == "dao-defense"@) ==> m
                == seq![ActionModification::PreventDamage]
            &&& !stopped && attack && id == FLOWING_SHADOW_SWORD@ ==> m == if attack_points matches Some(
                p,
            ) && p <= 40 {
                seq![ActionModification::PreventDamage]
            } else {
                seq![]
            }
            &&& !stopped && attack && (id == "countershock"@ || id == "magic-shock"@) ==> m
                == seq![ActionModification::SplitAttackDamage]
            &&& (id == "countershock"@ || id == "magic-shock"@) ==> !m.contains(
                ActionModification::PreventDamage,
            )
            &&& !stopped && kind == IncomingActionKind::ActiveSpell && (id == "seal"@ || id
                == "magic-seal"@) ==> m == seq![ActionModification::CancelSpell]
            &&& !stopped && kind == IncomingActionKind::PassiveSpell && id == "seal"@ ==> m
                == seq![ActionModification::SealCoveredPassive]
            &&& !stopped && kind == IncomingActionKind::PassiveSpell && id == "holy-light-break"@
                ==> m == seq![ActionModification::RevealCoveredPassive]
            &&& (kind == IncomingActionKind::Pass || kind == IncomingActionKind::ProfessionChange)
                ==> m.len() == 0
            &&& m.contains(ActionModification::PreventDamage) ==> attack && (id == "defense"@ || id
                == "dao-defense"@ || id == FLOWING_SHADOW_SWORD@)
            &&& m.contains(ActionModification::SplitAttackDamage) ==> attack && (id == "countershock"@
                || id == "magic-shock"@)
            &&& m.contains(ActionModification::CancelSpell) ==> kind
                == IncomingActionKind::ActiveSpell && (id == "seal"@ || id == "magic-seal"@)
        }),
{
    reveal_strlit("defense");
    reveal_strlit("dao-defense");
    reveal_strlit("countershock");
    reveal_strlit("magic-shock");
    reveal_strlit("seal");
    reveal_strlit("magic-seal");
    reveal_strlit("holy-light-break");
    reveal_strlit("jianghu:flowing-shadow-remnant-light-sword");
    assert("magic-shock"@[0] != "dao-defense"@[0]);
    assert("countershock"@[0] != "defense"@[0]);
    assert("holy-light-break"@.len() != "seal"@.len());
}

} // verus!
