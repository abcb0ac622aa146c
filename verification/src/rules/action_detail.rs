//! The player-facing detail of offered actions: what a formation, a profession change
//! or a profession ability commits to, composed from the clauses the rule modules keep
//! beside their logic.
use crate::domain::{LimitedUse, PlayerId};
use crate::rules::confluence::{limited_use, limited_use_from};
use crate::rules::detail::{
    ActionAttackCategory, ActionCost, ActionTarget, ConsequenceCertainty, EffectAmount,
    EffectFormula, ImmediateEffect, PlayerFacingActionDetail, ProfessionAbilityCandidate,
    ProfessionAbilityEffect, RuleConsequence, RuleException, base_formation_detail_consequences,
    chaos_consequences, is_sacred_beast_id, sacred_beast_consequences,
};
use crate::rules::registry::{
    AttackCategory, DamageTarget, EffectPlan, FormationRegistry, PointFormula, effect_lookup,
};
use vstd::prelude::*;

verus! {

/// The amount a point formula shows to the player.
pub open spec fn spec_point_amount(formula: PointFormula) -> EffectAmount {
    match formula {
        PointFormula::Fixed(value) => EffectAmount::Fixed { value },
        PointFormula::LevelPlus(amount) => EffectAmount::Formula {
            formula: EffectFormula::LevelPlus { amount },
        },
        PointFormula::LevelSumTimes(multiplier) => EffectAmount::Formula {
            formula: EffectFormula::LevelSumTimes { multiplier },
        },
        PointFormula::TargetHandCountTimes(multiplier) => EffectAmount::Formula {
            formula: EffectFormula::TargetHandCountTimes { multiplier },
        },
        PointFormula::ElementProductTimes { element, multiplier } => EffectAmount::Formula {
            formula: EffectFormula::ElementProductTimes { element, multiplier },
        },
    }
}

/// The amount a point formula shows to the player.
pub fn point_amount(formula: PointFormula) -> (r: EffectAmount)
    ensures
        r == spec_point_amount(formula),
{
    match formula {
        PointFormula::Fixed(value) => EffectAmount::Fixed { value },
        PointFormula::LevelPlus(amount) => EffectAmount::Formula {
            formula: EffectFormula::LevelPlus { amount },
        },
        PointFormula::LevelSumTimes(multiplier) => EffectAmount::Formula {
            formula: EffectFormula::LevelSumTimes { multiplier },
        },
        PointFormula::TargetHandCountTimes(multiplier) => EffectAmount::Formula {
            formula: EffectFormula::TargetHandCountTimes { multiplier },
        },
        PointFormula::ElementProductTimes { element, multiplier } => EffectAmount::Formula {
            formula: EffectFormula::ElementProductTimes { element, multiplier },
        },
    }
}

/// The category of an attack as the player sees it.
pub open spec fn spec_action_category(category: AttackCategory) -> ActionAttackCategory {
    match category {
        AttackCategory::Elemental(_) => ActionAttackCategory::Elemental,
        AttackCategory::Physical => ActionAttackCategory::Physical,
        AttackCategory::Special => ActionAttackCategory::Special,
    }
}

/// The main clause of an effect plan: an attack on the previous player with the
/// formula's amount, or the spell's committed effect.
pub open spec fn spec_plan_consequence(plan: EffectPlan) -> RuleConsequence {
    RuleConsequence::ImmediateEffect {
        certainty: ConsequenceCertainty::Guaranteed,
        effect: match plan {
            EffectPlan::Attack(p) => ImmediateEffect::Attack {
                target: ActionTarget::PreviousPlayer,
                category: spec_action_category(p.category),
                points: spec_point_amount(p.point_formula),
            },
            EffectPlan::ActiveSpell(p) => ImmediateEffect::ResolveFormationEffect {
                effect: p.player_facing_effect,
            },
            EffectPlan::PassiveSpell(p) => ImmediateEffect::ResolveFormationEffect {
                effect: p.player_facing_effect,
            },
        },
    }
}

/// The clauses the base rules add to a formation.
pub open spec fn spec_base_clauses(id: Seq<char>) -> Seq<RuleConsequence> {
    if id == "chaos"@ {
        chaos_consequences()
    } else if is_sacred_beast_id(id) {
        sacred_beast_consequences()
    } else {
        seq![]
    }
}

/// The clauses Dark Glimmer adds to a formation.
pub open spec fn spec_dark_clauses(id: Seq<char>) -> Seq<RuleConsequence> {
    match crate::rules::dark::spec_detail_consequences(id) {
        Some(s) => s,
        None => seq![],
    }
}

/// The detail of a formation registered in `registry`: the main clause of its effect
/// plan, then the formation-specific clauses of the base rules and of Dark Glimmer.
pub open spec fn spec_formation_detail(registry: FormationRegistry, id: Seq<char>) -> Seq<
    RuleConsequence,
> {
    let f = registry.spec_formation(id).unwrap();
    let e = effect_lookup(registry.effect_seq(), f.effect_id@).unwrap();
    seq![spec_plan_consequence(e.plan)] + spec_base_clauses(id) + spec_dark_clauses(id)
}

fn plan_consequence(plan: &EffectPlan) -> (r: RuleConsequence)
    ensures
        r == spec_plan_consequence(*plan),
{
    let effect = match plan {
        EffectPlan::Attack(p) => ImmediateEffect::Attack {
            target: match p.damage_target {
                DamageTarget::PreviousPlayer => ActionTarget::PreviousPlayer,
            },
            category: match p.category {
                AttackCategory::Elemental(_) => ActionAttackCategory::Elemental,
                AttackCategory::Physical => ActionAttackCategory::Physical,
                AttackCategory::Special => ActionAttackCategory::Special,
            },
            points: point_amount(p.point_formula),
        },
        EffectPlan::ActiveSpell(p) => ImmediateEffect::ResolveFormationEffect {
            effect: p.player_facing_effect,
        },
        EffectPlan::PassiveSpell(p) => ImmediateEffect::ResolveFormationEffect {
            effect: p.player_facing_effect,
        },
    };
    RuleConsequence::ImmediateEffect { certainty: ConsequenceCertainty::Guaranteed, effect }
}

/// The detail of a formation candidate whose formation is registered in `registry`.
pub fn formation_detail(registry: &FormationRegistry, formation_id: &str) -> (r:
    PlayerFacingActionDetail)
    requires
        registry.wf(),
        registry.spec_formation(formation_id@) is Some,
    ensures
        r.consequences@ == spec_formation_detail(*registry, formation_id@),
{
    let formation = match registry.formation(formation_id) {
        Some(f) => f,
        None => {
            assert(false);
            return PlayerFacingActionDetail::pending_composition();
        },
    };
    let ghost f = registry.spec_formation(formation_id@).unwrap();
    let effect = match registry.effect(formation.effect_id.as_str()) {
        Some(e) => e,
        None => {
            proof {
                let i = choose|i: int|
                    0 <= i < registry.formation_seq().len() && registry.formation_seq()[i].id@
                        == formation_id@;
                assert(effect_lookup(registry.effect_seq(), registry.formation_seq()[i].effect_id@)
                    is Some);
            }
            assert(false);
            return PlayerFacingActionDetail::pending_composition();
        },
    };
    let mut consequences: Vec<RuleConsequence> = Vec::new();
    consequences.push(plan_consequence(&effect.plan));
    let ghost first = consequences@;
    match base_formation_detail_consequences(formation_id) {
        Some(mut v) => {
            consequences.append(&mut v);
        },
        None => {},
    }
    assert(consequences@ =~= first + spec_base_clauses(formation_id@));
    let ghost second = consequences@;
    match crate::rules::dark::formation_action_detail_consequences(formation_id) {
        Some(mut v) => {
            consequences.append(&mut v);
        },
        None => {},
    }
    assert(consequences@ =~= second + spec_dark_clauses(formation_id@));
    PlayerFacingActionDetail::composed(consequences)
}

// ---------------------------------------------------------------------------
// Profession abilities.
// ---------------------------------------------------------------------------

/// The effect of an offered profession ability, from the module that defines it.
pub open spec fn spec_profession_ability_effect(id: Seq<char>) -> Option<ProfessionAbilityEffect> {
    match crate::rules::hero::spec_ability_effect(id) {
        Some(e) => Some(e),
        None => crate::rules::dark::spec_ability_effect(id),
    }
}

/// The effect of an offered profession ability.
pub fn profession_ability_effect(ability_id: &str) -> (r: ProfessionAbilityEffect)
    requires
        spec_profession_ability_effect(ability_id@) is Some,
    ensures
        Some(r) == spec_profession_ability_effect(ability_id@),
{
    match crate::rules::hero::player_facing_ability_effect(ability_id) {
        Some(e) => e,
        None => match crate::rules::dark::player_facing_ability_effect(ability_id) {
            Some(e) => e,
            None => {
                assert(false);
                ProfessionAbilityEffect::IncreaseTurnDraw { amount: 0 }
            },
        },
    }
}

/// The ability discards the cards selected with it: an activated Hero Schools ability
/// offered with cards.
pub open spec fn discards_selected(id: Seq<char>, card_count: int) -> bool {
    card_count > 0 && crate::rules::hero::spec_ability_effect(id) is Some
}

/// The clause that shows a limited use of the player under the ability's key.
pub open spec fn limited_use_clause(c: RuleConsequence, u: LimitedUse) -> bool {
    c matches RuleConsequence::RuleException {
        certainty: ConsequenceCertainty::Guaranteed,
        exception: RuleException::LimitedUse { key, remaining, maximum },
    } && key@ == u.key@ && remaining == u.remaining && maximum == u.maximum
}

/// The detail of an offered profession ability: its effect; the discard of the selected
/// cards where the ability discards them; and the player's limited use under the
/// ability's key, when the player holds one.
pub fn profession_ability_detail(
    candidate: &ProfessionAbilityCandidate,
    player: &PlayerId,
    uses: &[LimitedUse],
) -> (r: PlayerFacingActionDetail)
    requires
        spec_profession_ability_effect(candidate.ability_id@) is Some,
    ensures
        ({
            let c = r.consequences@;
            let d: int = if discards_selected(candidate.ability_id@, candidate.cards@.len() as int) {
                1
            } else {
                0
            };
            &&& c[0] == RuleConsequence::ImmediateEffect {
                certainty: ConsequenceCertainty::Guaranteed,
                effect: ImmediateEffect::ActivateProfessionAbility {
                    effect: spec_profession_ability_effect(candidate.ability_id@).unwrap(),
                },
            }
            &&& d == 1 ==> c[1] == RuleConsequence::Cost {
                certainty: ConsequenceCertainty::Guaranteed,
                cost: ActionCost::DiscardSelectedCards,
            }
            &&& match limited_use_from(uses@, player@, candidate.ability_id@, 0) {
                Some(k) => c.len() == 2 + d && limited_use_clause(c[1 + d], uses@[k]),
                None => c.len() == 1 + d,
            }
        }),
{
    let mut consequences: Vec<RuleConsequence> = Vec::new();
    consequences.push(
        RuleConsequence::ImmediateEffect {
            certainty: ConsequenceCertainty::Guaranteed,
            effect: ImmediateEffect::ActivateProfessionAbility {
                effect: profession_ability_effect(candidate.ability_id.as_str()),
            },
        },
    );
    if candidate.cards.len() > 0 && crate::rules::hero::player_facing_ability_discards_selected_cards(
        candidate.ability_id.as_str(),
    ) {
        consequences.push(
            RuleConsequence::Cost {
                certainty: ConsequenceCertainty::Guaranteed,
                cost: ActionCost::DiscardSelectedCards,
            },
        );
    }
    match limited_use(uses, player, candidate.ability_id.as_str()) {
        Some(u) => {
            consequences.push(
                RuleConsequence::RuleException {
                    certainty: ConsequenceCertainty::Guaranteed,
                    exception: RuleException::LimitedUse {
                        key: u.key.clone(),
                        remaining: u.remaining,
                        maximum: u.maximum,
                    },
                },
            );
        },
        None => {},
    }
    PlayerFacingActionDetail::composed(consequences)
}

} // verus!
