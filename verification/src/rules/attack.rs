//! How an attack's points are computed and transformed: the point formulas, the
//! environment of the Five Directions Legend, the element the target's previous
//! formation left, and the shields that absorb the damage.
use crate::domain::{CardInstanceId, Element, GameError, PlayerId, TeamId, ValidationError};
use crate::rules::hero::{IncomingDamageModifier, ProfessionAbility, half_toward_zero};
use crate::rules::jianghu::UsedCardLevel;
use crate::rules::matcher::SubmittedCardFacts;
use crate::rules::registry::{AttackCategory, PointFormula};
use vstd::prelude::*;

verus! {

// ---------------------------------------------------------------------------
// Elements.
// ---------------------------------------------------------------------------

/// The element of an elemental attack; physical and special attacks have none.
pub open spec fn spec_attack_element(category: AttackCategory) -> Option<Element> {
    match category {
        AttackCategory::Elemental(e) => Some(e),
        _ => None,
    }
}

/// The element of an elemental attack.
pub fn elemental_attack_element(category: AttackCategory) -> (r: Option<Element>)
    ensures
        r == spec_attack_element(category),
{
    match category {
        AttackCategory::Elemental(e) => Some(e),
        _ => None,
    }
}

/// `current` generates `previous`: Metal generates Water, Water Wood, Wood Fire, Fire
/// Earth and Earth Metal.
pub open spec fn spec_generates(current: Element, previous: Element) -> bool {
    ||| current == Element::Metal && previous == Element::Water
    ||| current == Element::Water && previous == Element::Wood
    ||| current == Element::Wood && previous == Element::Fire
    ||| current == Element::Fire && previous == Element::Earth
    ||| current == Element::Earth && previous == Element::Metal
}

/// `current` overcomes `previous`: Metal overcomes Wood, Wood Earth, Earth Water, Water
/// Fire and Fire Metal.
pub open spec fn spec_overcomes(current: Element, previous: Element) -> bool {
    ||| current == Element::Metal && previous == Element::Wood
    ||| current == Element::Wood && previous == Element::Earth
    ||| current == Element::Earth && previous == Element::Water
    ||| current == Element::Water && previous == Element::Fire
    ||| current == Element::Fire && previous == Element::Metal
}

/// Whether `current` generates `previous`.
pub fn generates(current: Element, previous: Element) -> (r: bool)
    ensures
        r == spec_generates(current, previous),
{
    match (current, previous) {
        (Element::Metal, Element::Water) | (Element::Water, Element::Wood) | (
            Element::Wood,
            Element::Fire,
        ) | (Element::Fire, Element::Earth) | (Element::Earth, Element::Metal) => true,
        _ => false,
    }
}

/// Whether `current` overcomes `previous`.
pub fn overcomes(current: Element, previous: Element) -> (r: bool)
    ensures
        r == spec_overcomes(current, previous),
{
    match (current, previous) {
        (Element::Metal, Element::Wood) | (Element::Wood, Element::Earth) | (
            Element::Earth,
            Element::Water,
        ) | (Element::Water, Element::Fire) | (Element::Fire, Element::Metal) => true,
        _ => false,
    }
}

// ---------------------------------------------------------------------------
// The breakdown of an attack's points.
// ---------------------------------------------------------------------------

/// What the environment did to an elemental attack.
#[derive(Clone, Copy, Debug, PartialEq, Eq, Structural)]
pub enum EnvironmentAttackEffect {
    Unaffected,
    MatchingElementDamageDoubled { environment: Element },
    GeneratingElementDamageConvertedToHealing { environment: Element },
}

/// How the attack's element relates to the element of the target's previous formation.
#[derive(Clone, Copy, Debug, PartialEq, Eq, Structural)]
pub enum ElementInteraction {
    Unrelated,
    Same,
    Generating,
    Overcoming,
}

/// What finally happens to the target's life.
#[derive(Clone, Copy, Debug, PartialEq, Eq, Structural)]
pub enum DamageTransform {
    NormalDamage,
    HalfDamageRoundUp,
    DoubleDamage,
    HealTarget,
}

/// The steps from an attack's base points to the amount that reaches the target.
#[derive(Clone, Copy, Debug, PartialEq, Eq, Structural)]
pub struct AttackPointBreakdown {
    pub base_points: i32,
    pub environment_effect: EnvironmentAttackEffect,
    pub interaction: ElementInteraction,
    pub damage_transform: DamageTransform,
    pub final_amount: i32,
}

/// With the Five Directions Legend enabled and an environment in place, an attack of
/// the environment's element is doubled (unless doubling is prevented), and an attack
/// whose element generates the environment turns into healing (unless the element
/// interaction is skipped or that recovery is prevented).
pub open spec fn spec_environment_effect(
    current: Element,
    five_directions: bool,
    environment: Option<Element>,
    skip_interaction: bool,
    prevent_recovery: bool,
    prevent_doubling: bool,
) -> EnvironmentAttackEffect {
    match environment {
        Some(env) if five_directions => if current == env && !prevent_doubling {
            EnvironmentAttackEffect::MatchingElementDamageDoubled { environment: env }
        } else if !skip_interaction && !prevent_recovery && spec_generates(current, env) {
            EnvironmentAttackEffect::GeneratingElementDamageConvertedToHealing { environment: env }
        } else {
            EnvironmentAttackEffect::Unaffected
        },
        _ => EnvironmentAttackEffect::Unaffected,
    }
}

/// The interaction of the attack's element with the element the target's previous
/// formation left: the same element, one it generates, one it overcomes, or none.
pub open spec fn spec_interaction(current: Element, previous: Option<Element>) -> ElementInteraction {
    match previous {
        Some(p) => if current == p {
            ElementInteraction::Same
        } else if spec_generates(current, p) {
            ElementInteraction::Generating
        } else if spec_overcomes(current, p) {
            ElementInteraction::Overcoming
        } else {
            ElementInteraction::Unrelated
        },
        None => ElementInteraction::Unrelated,
    }
}

/// The amount after the environment: doubled when the environment doubles it.
pub open spec fn environment_amount(effect: EnvironmentAttackEffect, base_points: int) -> int {
    if effect is MatchingElementDamageDoubled {
        2 * base_points
    } else {
        base_points
    }
}

/// What the interaction does to the target: the same element halves the damage (rounding
/// up) and the overcoming element doubles it, unless the environment turned the attack
/// into healing; a generating element heals.
pub open spec fn spec_transform(interaction: ElementInteraction, heals: bool) -> DamageTransform {
    match interaction {
        ElementInteraction::Same => if heals {
            DamageTransform::HealTarget
        } else {
            DamageTransform::HalfDamageRoundUp
        },
        ElementInteraction::Generating => DamageTransform::HealTarget,
        ElementInteraction::Overcoming => if heals {
            DamageTransform::HealTarget
        } else {
            DamageTransform::DoubleDamage
        },
        ElementInteraction::Unrelated => if heals {
            DamageTransform::HealTarget
        } else {
            DamageTransform::NormalDamage
        },
    }
}

/// The amount after the interaction: halved rounding up for the same element, doubled
/// for the overcoming one.
pub open spec fn interaction_amount(interaction: ElementInteraction, amount: int) -> int {
    match interaction {
        ElementInteraction::Same => half_toward_zero(amount + 1),
        ElementInteraction::Overcoming => 2 * amount,
        _ => amount,
    }
}

/// The breakdown of an attack, as the rules define it.
pub open spec fn spec_breakdown(
    category: AttackCategory,
    five_directions: bool,
    environment: Option<Element>,
    previous: Option<Element>,
    base_points: i32,
    skip_interaction: bool,
    prevent_recovery: bool,
    prevent_doubling: bool,
) -> (EnvironmentAttackEffect, ElementInteraction, DamageTransform, int) {
    match spec_attack_element(category) {
        None => (
            EnvironmentAttackEffect::Unaffected,
            ElementInteraction::Unrelated,
            DamageTransform::NormalDamage,
            base_points as int,
        ),
        Some(current) => {
            let effect = spec_environment_effect(
                current,
                five_directions,
                environment,
                skip_interaction,
                prevent_recovery,
                prevent_doubling,
            );
            let amount = environment_amount(effect, base_points as int);
            if skip_interaction {
                (effect, ElementInteraction::Unrelated, DamageTransform::NormalDamage, amount)
            } else {
                let interaction = spec_interaction(current, previous);
                let heals = effect is GeneratingElementDamageConvertedToHealing;
                (effect, interaction, spec_transform(interaction, heals), interaction_amount(interaction, amount))
            }
        },
    }
}

/// Every step of the breakdown stays within the range of the point type.
pub open spec fn breakdown_in_range(
    category: AttackCategory,
    five_directions: bool,
    environment: Option<Element>,
    previous: Option<Element>,
    base_points: i32,
    skip_interaction: bool,
    prevent_recovery: bool,
    prevent_doubling: bool,
) -> bool {
    match spec_attack_element(category) {
        None => true,
        Some(current) => {
            let effect = spec_environment_effect(
                current,
                five_directions,
                environment,
                skip_interaction,
                prevent_recovery,
                prevent_doubling,
            );
            let amount = environment_amount(effect, base_points as int);
            &&& i32::MIN <= amount <= i32::MAX
            &&& !skip_interaction ==> match spec_interaction(current, previous) {
                ElementInteraction::Same => amount + 1 <= i32::MAX,
                ElementInteraction::Overcoming => i32::MIN <= 2 * amount <= i32::MAX,
                _ => true,
            }
        },
    }
}

/// The breakdown of an attack's points: the environment first, then the interaction with
/// the element the target's previous formation left (`previous`), unless the interaction
/// is skipped. Only elemental attacks are affected.
pub fn attack_point_breakdown(
    category: AttackCategory,
    five_directions: bool,
    environment: Option<Element>,
    previous: Option<Element>,
    base_points: i32,
    skip_interaction: bool,
    prevent_recovery: bool,
    prevent_doubling: bool,
) -> (r: AttackPointBreakdown)
    requires
        breakdown_in_range(
            category,
            five_directions,
            environment,
            previous,
            base_points,
            skip_interaction,
            prevent_recovery,
            prevent_doubling,
        ),
    ensures
        r.base_points == base_points,
        (r.environment_effect, r.interaction, r.damage_transform, r.final_amount as int) == spec_breakdown(
            category,
            five_directions,
            environment,
            previous,
            base_points,
            skip_interaction,
            prevent_recovery,
            prevent_doubling,
        ),
{
    let current = match elemental_attack_element(category) {
        Some(e) => e,
        None => {
            return AttackPointBreakdown {
                base_points,
                environment_effect: EnvironmentAttackEffect::Unaffected,
                interaction: ElementInteraction::Unrelated,
                damage_transform: DamageTransform::NormalDamage,
                final_amount: base_points,
            };
        },
    };
    let mut amount = base_points;
    let mut environment_effect = EnvironmentAttackEffect::Unaffected;
    let mut heals = false;
    if five_directions {
        if let Some(env) = environment {
            if current == env && !prevent_doubling {
                amount = amount * 2;
                environment_effect = EnvironmentAttackEffect::MatchingElementDamageDoubled {
                    environment: env,
                };
            } else if !skip_interaction && !prevent_recovery && generates(current, env) {
                heals = true;
                environment_effect =
                    EnvironmentAttackEffect::GeneratingElementDamageConvertedToHealing {
                    environment: env,
                };
            }
        }
    }
    if skip_interaction {
        return AttackPointBreakdown {
            base_points,
            environment_effect,
            interaction: ElementInteraction::Unrelated,
            damage_transform: DamageTransform::NormalDamage,
            final_amount: amount,
        };
    }
    let interaction = match previous {
        Some(p) => if current == p {
            ElementInteraction::Same
        } else if generates(current, p) {
            ElementInteraction::Generating
        } else if overcomes(current, p) {
            ElementInteraction::Overcoming
        } else {
            ElementInteraction::Unrelated
        },
        None => ElementInteraction::Unrelated,
    };
    let (damage_transform, final_amount) = match interaction {
        ElementInteraction::Same => (
            if heals {
                DamageTransform::HealTarget
            } else {
                DamageTransform::HalfDamageRoundUp
            },
            (amount + 1) / 2,
        ),
        ElementInteraction::Generating => (DamageTransform::HealTarget, amount),
        ElementInteraction::Overcoming => (
            if heals {
                DamageTransform::HealTarget
            } else {
                DamageTransform::DoubleDamage
            },
            amount * 2,
        ),
        ElementInteraction::Unrelated => if heals {
            (DamageTransform::HealTarget, amount)
        } else {
            (DamageTransform::NormalDamage, amount)
        },
    };
    AttackPointBreakdown {
        base_points,
        environment_effect,
        interaction,
        damage_transform,
        final_amount,
    }
}

// ---------------------------------------------------------------------------
// Shields, life and the elemental context.
// ---------------------------------------------------------------------------

/// How a player's shield changes.
#[derive(Debug, PartialEq, Eq)]
pub struct ShieldChangeDelta {
    pub player: PlayerId,
    pub old_value: i32,
    pub delta: i32,
    pub new_value: i32,
}

/// A positive shield absorbs the incoming damage: it loses the damage, never going below
/// zero. A player without a shield, or with none left, absorbs nothing.
pub fn shield_absorption(player: &PlayerId, shield: Option<i32>, incoming_damage: i32) -> (r: Option<
    ShieldChangeDelta,
>)
    requires
        match shield {
            Some(s) => s > 0 ==> i32::MIN < incoming_damage && i32::MIN <= s - incoming_damage
                <= i32::MAX,
            None => true,
        },
    ensures
        match shield {
            Some(s) if s > 0 => r matches Some(d) && d.player@ == player@ && d.old_value == s
                && d.delta == -incoming_damage && d.new_value == if s - incoming_damage < 0 {
                0
            } else {
                s - incoming_damage
            },
            _ => r is None,
        },
{
    let old_value = match shield {
        Some(s) => s,
        None => {
            return None;
        },
    };
    if old_value <= 0 {
        return None;
    }
    let left = old_value - incoming_damage;
    Some(
        ShieldChangeDelta {
            player: player.clone(),
            old_value,
            delta: -incoming_damage,
            new_value: if left < 0 {
                0
            } else {
                left
            },
        },
    )
}

/// How an attack asks to change the target team's life: healing is prevented while the
/// team is poisoned, and every other transform takes the amount away.
#[derive(Clone, Copy, Debug, PartialEq, Eq, Structural)]
pub enum HpChangeRequest {
    By(i32),
    Prevented(i32),
}

/// The life change an attack of the given amount and transform asks of the target team.
pub fn attack_hp_request(transform: DamageTransform, team_poisoned: bool, amount: i32) -> (r:
    HpChangeRequest)
    requires
        transform != DamageTransform::HealTarget ==> amount > i32::MIN,
    ensures
        r == match transform {
            DamageTransform::HealTarget => if team_poisoned {
                HpChangeRequest::Prevented(amount)
            } else {
                HpChangeRequest::By(amount)
            },
            _ => HpChangeRequest::By((-amount) as i32),
        },
{
    match transform {
        DamageTransform::HealTarget => if team_poisoned {
            HpChangeRequest::Prevented(amount)
        } else {
            HpChangeRequest::By(amount)
        },
        _ => HpChangeRequest::By(-amount),
    }
}

/// The last elemental attack a player made, and the turn it resolved on.
#[derive(Clone, Copy, Debug, PartialEq, Eq, Structural)]
pub struct LastElementalAttack {
    pub element: Element,
    pub resolved_turn: u64,
}

/// An elemental attack becomes the player's last elemental attack; other attacks leave
/// it as it was.
pub fn elemental_context_update(category: AttackCategory, resolved_turn: u64) -> (r: Option<
    LastElementalAttack,
>)
    ensures
        r == match spec_attack_element(category) {
            Some(e) => Some(LastElementalAttack { element: e, resolved_turn }),
            None => None,
        },
{
    match category {
        AttackCategory::Elemental(element) => Some(LastElementalAttack { element, resolved_turn }),
        _ => None,
    }
}


// ---------------------------------------------------------------------------
// Point formulas.
// ---------------------------------------------------------------------------

/// A count or level read as a signed point value: values above the signed range wrap
/// around, as the two's complement conversion does.
pub open spec fn as_i32(x: u32) -> int {
    if x <= i32::MAX {
        x as int
    } else {
        x - 0x1_0000_0000
    }
}

/// A length read as a signed point value: its low 32 bits, wrapped as `as_i32` does.
pub open spec fn len_as_i32(n: usize) -> int {
    as_i32((n as int % 0x1_0000_0000) as u32)
}

fn to_i32(x: u32) -> (r: i32)
    ensures
        r == as_i32(x),
{
    if x <= 2147483647 {
        x as i32
    } else {
        ((x - 2147483648u32) as i32) - 2147483647 - 1
    }
}

fn len_to_i32(n: usize) -> (r: i32)
    ensures
        r == len_as_i32(n),
{
    to_i32((n as u64 % 0x1_0000_0000u64) as u32)
}

/// What the point formulas read of one used card: the card, its printed element, its
/// level for the attacker and its effective element and level, where they are known.
#[derive(Clone, Copy, Debug, PartialEq, Eq, Structural)]
pub struct AttackCard {
    pub card: CardInstanceId,
    pub printed: Option<Element>,
    pub level: Option<u32>,
    pub effective: Option<SubmittedCardFacts>,
}

/// The first card, from position `k` on, whose level is unknown.
pub open spec fn first_unknown_level(cards: Seq<AttackCard>, k: int) -> Option<int>
    decreases cards.len() - k,
{
    if k < 0 || k >= cards.len() {
        None
    } else if cards[k].level is None {
        Some(k)
    } else {
        first_unknown_level(cards, k + 1)
    }
}

/// The sum of the levels of the first `n` cards (each read as `as_i32`; unknown levels
/// count nothing).
pub open spec fn level_sum_of(cards: Seq<AttackCard>, n: int) -> int
    decreases n,
{
    if n <= 0 || n > cards.len() {
        0
    } else {
        level_sum_of(cards, n - 1) + match cards[n - 1].level {
            Some(l) => as_i32(l),
            None => 0,
        }
    }
}

/// The level of the virtual card of the attacker's first formation requirement this
/// turn, if it has one.
pub open spec fn virtual_level(virtuals: Seq<Option<SubmittedCardFacts>>) -> int {
    if virtuals.len() > 0 && virtuals[0] is Some {
        as_i32(virtuals[0].unwrap().level)
    } else {
        0
    }
}

/// The level sum of a formation: the used cards' levels and the virtual card's; the first
/// card whose level is unknown when there is one.
pub open spec fn spec_level_sum(cards: Seq<AttackCard>, virtuals: Seq<Option<SubmittedCardFacts>>) -> Result<
    int,
    CardInstanceId,
> {
    match first_unknown_level(cards, 0) {
        Some(k) => Err(cards[k].card),
        None => Ok(level_sum_of(cards, cards.len() as int) + virtual_level(virtuals)),
    }
}

/// Every partial level sum the computation goes through lies in the point range.
pub open spec fn level_sums_fit(cards: Seq<AttackCard>, virtuals: Seq<Option<SubmittedCardFacts>>) -> bool {
    let stop = match first_unknown_level(cards, 0) {
        Some(k) => k,
        None => cards.len() as int,
    };
    &&& forall|j: int| 0 <= j <= stop ==> i32::MIN <= #[trigger] level_sum_of(cards, j) <= i32::MAX
    &&& spec_level_sum(cards, virtuals) matches Ok(s) ==> i32::MIN <= s <= i32::MAX
}

/// The effective levels of the used cards of element `e`, in order.
pub open spec fn element_levels(cards: Seq<AttackCard>, e: Element) -> Seq<int>
    decreases cards.len(),
{
    if cards.len() == 0 {
        seq![]
    } else {
        element_levels(cards.drop_last(), e) + match cards.last().effective {
            Some(f) => if f.element == e {
                seq![as_i32(f.level)]
            } else {
                seq![]
            },
            None => seq![],
        }
    }
}

/// The level of the first virtual card of element `e` among the attacker's formation
/// requirements this turn.
pub open spec fn virtual_level_of(virtuals: Seq<Option<SubmittedCardFacts>>, e: Element) -> Option<int>
    decreases virtuals.len(),
{
    if virtuals.len() == 0 {
        None
    } else {
        match virtual_level_of(virtuals.drop_last(), e) {
            Some(l) => Some(l),
            None => match virtuals.last() {
                Some(v) => if v.element == e {
                    Some(as_i32(v.level))
                } else {
                    None
                },
                None => None,
            },
        }
    }
}

/// The factors of an element product: the effective levels of the used cards of the
/// element, then the level of the first virtual card of the element.
pub open spec fn product_factors(
    cards: Seq<AttackCard>,
    virtuals: Seq<Option<SubmittedCardFacts>>,
    e: Element,
) -> Seq<int> {
    element_levels(cards, e) + match virtual_level_of(virtuals, e) {
        Some(l) => seq![l],
        None => seq![],
    }
}

/// The product of a sequence of factors (one for none).
pub open spec fn product(s: Seq<int>) -> int
    decreases s.len(),
{
    if s.len() == 0 {
        1
    } else {
        product(s.drop_last()) * s.last()
    }
}

/// Every partial product the computation goes through lies in the point range.
pub open spec fn products_fit(s: Seq<int>) -> bool {
    forall|j: int| 0 <= j <= s.len() ==> i32::MIN <= #[trigger] product(s.take(j)) <= i32::MAX
}

/// The base points of an attack made with the formula: a fixed number; the level sum
/// plus a bonus or times a multiplier; the target's hand size times a multiplier; or the
/// product of the levels of one element times a multiplier.
pub open spec fn spec_attack_points(
    formula: PointFormula,
    cards: Seq<AttackCard>,
    virtuals: Seq<Option<SubmittedCardFacts>>,
    target: PlayerId,
    target_hand: Option<usize>,
) -> Result<int, GameError> {
    match formula {
        PointFormula::Fixed(p) => Ok(as_i32(p)),
        PointFormula::LevelPlus(b) => match spec_level_sum(cards, virtuals) {
            Ok(s) => Ok(s + as_i32(b)),
            Err(c) => Err(GameError::Validation(ValidationError::MissingCardInstanceDefinition(c))),
        },
        PointFormula::LevelSumTimes(m) => match spec_level_sum(cards, virtuals) {
            Ok(s) => Ok(s * as_i32(m)),
            Err(c) => Err(GameError::Validation(ValidationError::MissingCardInstanceDefinition(c))),
        },
        PointFormula::TargetHandCountTimes(m) => match target_hand {
            Some(n) => Ok(len_as_i32(n) * as_i32(m)),
            None => Err(GameError::Validation(ValidationError::UnknownPlayer(target))),
        },
        PointFormula::ElementProductTimes { element, multiplier } => Ok(
            product(product_factors(cards, virtuals, element)) * as_i32(multiplier),
        ),
    }
}

/// Every step of the formula stays within the point range.
pub open spec fn attack_points_in_range(
    formula: PointFormula,
    cards: Seq<AttackCard>,
    virtuals: Seq<Option<SubmittedCardFacts>>,
    target_hand: Option<usize>,
) -> bool {
    match formula {
        PointFormula::Fixed(_) => true,
        PointFormula::LevelPlus(b) => level_sums_fit(cards, virtuals) && (spec_level_sum(
            cards,
            virtuals,
        ) matches Ok(s) ==> i32::MIN <= s + as_i32(b) <= i32::MAX),
        PointFormula::LevelSumTimes(m) => level_sums_fit(cards, virtuals) && (spec_level_sum(
            cards,
            virtuals,
        ) matches Ok(s) ==> i32::MIN <= s * as_i32(m) <= i32::MAX),
        PointFormula::TargetHandCountTimes(m) => match target_hand {
            Some(n) => i32::MIN <= len_as_i32(n) * as_i32(m) <= i32::MAX,
            None => true,
        },
        PointFormula::ElementProductTimes { element, multiplier } => {
            let f = product_factors(cards, virtuals, element);
            &&& products_fit(f)
            &&& i32::MIN <= product(f) * as_i32(multiplier) <= i32::MAX
        },
    }
}

fn level_sum(cards: &[AttackCard], virtuals: &[Option<SubmittedCardFacts>]) -> (r: Result<i32, CardInstanceId>)
    requires
        level_sums_fit(cards@, virtuals@),
    ensures
        match spec_level_sum(cards@, virtuals@) {
            Ok(s) => r == Ok::<i32, CardInstanceId>(s as i32),
            Err(c) => r == Err::<i32, CardInstanceId>(c),
        },
{
    let mut sum: i32 = 0;
    let mut i: usize = 0;
    while i < cards.len()
        invariant
            i <= cards.len(),
            level_sums_fit(cards@, virtuals@),
            first_unknown_level(cards@, 0) == first_unknown_level(cards@, i as int),
            sum == level_sum_of(cards@, i as int),
        decreases cards.len() - i,
    {
        match cards[i].level {
            None => {
                return Err(cards[i].card);
            },
            Some(l) => {
                assert(level_sum_of(cards@, i as int + 1) == level_sum_of(cards@, i as int) + as_i32(l));
                proof {
                    let stop = match first_unknown_level(cards@, 0) {
                        Some(k) => k,
                        None => cards@.len() as int,
                    };
                    lemma_first_unknown_after(cards@, i as int);
                    assert(i + 1 <= stop);
                    assert(i32::MIN <= level_sum_of(cards@, i as int + 1) <= i32::MAX);
                }
                sum = sum + to_i32(l);
            },
        }
        i = i + 1;
    }
    let v = if virtuals.len() > 0 {
        match virtuals[0] {
            Some(f) => to_i32(f.level),
            None => 0,
        }
    } else {
        0
    };
    Ok(sum + v)
}

proof fn lemma_first_unknown_after(cards: Seq<AttackCard>, i: int)
    requires
        0 <= i < cards.len(),
        cards[i].level is Some,
        first_unknown_level(cards, 0) == first_unknown_level(cards, i),
    ensures
        match first_unknown_level(cards, 0) {
            Some(k) => i < k,
            None => true,
        },
        first_unknown_level(cards, 0) == first_unknown_level(cards, i + 1),
{
    lemma_first_unknown_from(cards, i + 1);
}

proof fn lemma_first_unknown_from(cards: Seq<AttackCard>, k: int)
    requires
        0 <= k,
    ensures
        match first_unknown_level(cards, k) {
            Some(j) => k <= j < cards.len() && cards[j].level is None,
            None => true,
        },
    decreases cards.len() - k,
{
    if k < cards.len() && cards[k].level is Some {
        lemma_first_unknown_from(cards, k + 1);
    }
}

fn element_level_list(cards: &[AttackCard], virtuals: &[Option<SubmittedCardFacts>], e: Element) -> (r: Vec<i32>)
    ensures
        r@.map_values(|x: i32| x as int) == product_factors(cards@, virtuals@, e),
{
    let mut out: Vec<i32> = Vec::new();
    let mut i: usize = 0;
    while i < cards.len()
        invariant
            i <= cards.len(),
            out@.map_values(|x: i32| x as int) == element_levels(cards@.subrange(0, i as int), e),
        decreases cards.len() - i,
    {
        assert(cards@.subrange(0, i as int + 1).drop_last() =~= cards@.subrange(0, i as int));
        let ghost before = out@;
        match cards[i].effective {
            Some(f) => {
                if f.element == e {
                    out.push(to_i32(f.level));
                    assert(out@.map_values(|x: i32| x as int) =~= before.map_values(|x: i32| x as int)
                        + seq![as_i32(f.level)]);
                } else {
                    assert(out@.map_values(|x: i32| x as int) =~= before.map_values(|x: i32| x as int)
                        + seq![]);
                }
            },
            None => {
                assert(out@.map_values(|x: i32| x as int) =~= before.map_values(|x: i32| x as int)
                    + seq![]);
            },
        }
        i = i + 1;
    }
    assert(cards@.subrange(0, cards.len() as int) =~= cards@);
    let mut j: usize = 0;
    while j < virtuals.len()
        invariant
            j <= virtuals.len(),
            virtual_level_of(virtuals@.subrange(0, j as int), e) is None,
            out@.map_values(|x: i32| x as int) == element_levels(cards@, e),
        decreases virtuals.len() - j,
    {
        assert(virtuals@.subrange(0, j as int + 1).drop_last() =~= virtuals@.subrange(0, j as int));
        if let Some(v) = virtuals[j] {
            if v.element == e {
                proof {
                    lemma_virtual_level_prefix(virtuals@, j as int + 1, e);
                }
                let ghost before = out@;
                out.push(to_i32(v.level));
                assert(out@.map_values(|x: i32| x as int) =~= before.map_values(|x: i32| x as int)
                    + seq![as_i32(v.level)]);
                return out;
            }
        }
        j = j + 1;
    }
    assert(virtuals@.subrange(0, virtuals.len() as int) =~= virtuals@);
    assert(out@.map_values(|x: i32| x as int) =~= element_levels(cards@, e) + seq![]);
    out
}

proof fn lemma_virtual_level_prefix(virtuals: Seq<Option<SubmittedCardFacts>>, n: int, e: Element)
    requires
        0 <= n <= virtuals.len(),
        virtual_level_of(virtuals.subrange(0, n), e) is Some,
    ensures
        virtual_level_of(virtuals, e) == virtual_level_of(virtuals.subrange(0, n), e),
    decreases virtuals.len() - n,
{
    if n < virtuals.len() {
        assert(virtuals.subrange(0, n + 1).drop_last() =~= virtuals.subrange(0, n));
        lemma_virtual_level_prefix(virtuals, n + 1, e);
    } else {
        assert(virtuals.subrange(0, n) =~= virtuals);
    }
}

fn product_of(levels: &Vec<i32>) -> (r: i32)
    requires
        products_fit(levels@.map_values(|x: i32| x as int)),
    ensures
        r == product(levels@.map_values(|x: i32| x as int)),
{
    let ghost s = levels@.map_values(|x: i32| x as int);
    let mut p: i32 = 1;
    let mut i: usize = 0;
    assert(s.take(0) =~= seq![]);
    while i < levels.len()
        invariant
            i <= levels.len(),
            s == levels@.map_values(|x: i32| x as int),
            products_fit(s),
            p == product(s.take(i as int)),
        decreases levels.len() - i,
    {
        assert(s.take(i as int + 1).drop_last() =~= s.take(i as int));
        assert(i32::MIN <= product(s.take(i as int + 1)) <= i32::MAX);
        p = p * levels[i];
        i = i + 1;
    }
    assert(s.take(levels.len() as int) =~= s);
    p
}

/// The base points of an attack made with the formula. The used cards carry their levels
/// for the attacker and their effective element and level; `virtuals` are the virtual
/// cards of the attacker's formation requirements this turn, in order; `target_hand` is
/// the size of the target's hand, when the target is known. A card whose level is unknown
/// is refused by the level formulas, and an unknown target by the hand formula.
pub fn compute_attack_points(
    formula: PointFormula,
    cards: &[AttackCard],
    virtuals: &[Option<SubmittedCardFacts>],
    target: &PlayerId,
    target_hand: Option<usize>,
) -> (r: Result<i32, GameError>)
    requires
        attack_points_in_range(formula, cards@, virtuals@, target_hand),
    ensures
        match spec_attack_points(formula, cards@, virtuals@, *target, target_hand) {
            Ok(p) => r == Ok::<i32, GameError>(p as i32),
            Err(e) => r == Err::<i32, GameError>(e),
        },
{
    match formula {
        PointFormula::Fixed(points) => Ok(to_i32(points)),
        PointFormula::LevelPlus(bonus) => match level_sum(cards, virtuals) {
            Ok(s) => Ok(s + to_i32(bonus)),
            Err(c) => Err(GameError::Validation(ValidationError::MissingCardInstanceDefinition(c))),
        },
        PointFormula::LevelSumTimes(multiplier) => match level_sum(cards, virtuals) {
            Ok(s) => Ok(s * to_i32(multiplier)),
            Err(c) => Err(GameError::Validation(ValidationError::MissingCardInstanceDefinition(c))),
        },
        PointFormula::TargetHandCountTimes(multiplier) => match target_hand {
            Some(n) => Ok(len_to_i32(n) * to_i32(multiplier)),
            None => Err(GameError::Validation(ValidationError::UnknownPlayer(target.clone()))),
        },
        PointFormula::ElementProductTimes { element, multiplier } => {
            let levels = element_level_list(cards, virtuals, element);
            Ok(product_of(&levels) * to_i32(multiplier))
        },
    }
}


/// The five elements form two cycles: every element generates exactly one element and
/// overcomes exactly one, never itself and never the same one, so an attack's element
/// relates to a previous element in at most one way.
pub proof fn lemma_five_element_cycles(a: Element, b: Element, c: Element)
    ensures
        !spec_generates(a, a),
        !spec_overcomes(a, a),
        !(spec_generates(a, b) && spec_overcomes(a, b)),
        spec_generates(a, b) && spec_generates(a, c) ==> b == c,
        spec_overcomes(a, b) && spec_overcomes(a, c) ==> b == c,
        exists|g: Element| spec_generates(a, g),
        exists|o: Element| spec_overcomes(a, o),
{
    match a {
        Element::Metal => {
            assert(spec_generates(a, Element::Water));
            assert(spec_overcomes(a, Element::Wood));
        },
        Element::Wood => {
            assert(spec_generates(a, Element::Fire));
            assert(spec_overcomes(a, Element::Earth));
        },
        Element::Water => {
            assert(spec_generates(a, Element::Wood));
            assert(spec_overcomes(a, Element::Fire));
        },
        Element::Fire => {
            assert(spec_generates(a, Element::Earth));
            assert(spec_overcomes(a, Element::Metal));
        },
        Element::Earth => {
            assert(spec_generates(a, Element::Metal));
            assert(spec_overcomes(a, Element::Water));
        },
    }
}


/// A formation's life change is prevented while the performer is under an unprotected
/// Watch the Fire, and a recovery is prevented while the performer is under Gale Rain or,
/// when team poison counts, while the target team is poisoned.
pub open spec fn spec_formation_hp_request(
    watch_fire: bool,
    gale_rain: bool,
    team_poisoned: bool,
    prevent_team_poison_recovery: bool,
    delta: i32,
) -> HpChangeRequest {
    if watch_fire || (delta > 0 && (gale_rain || (prevent_team_poison_recovery && team_poisoned))) {
        HpChangeRequest::Prevented(delta)
    } else {
        HpChangeRequest::By(delta)
    }
}

/// How a formation asks to change a team's life by `delta`. `watch_fire` tells whether
/// the performer is under Watch the Fire without protection, `gale_rain` whether it is
/// under Gale Rain, and `team_poisoned` whether the target team is poisoned.
pub fn formation_hp_request_with_poison(
    watch_fire: bool,
    gale_rain: bool,
    team_poisoned: bool,
    prevent_team_poison_recovery: bool,
    delta: i32,
) -> (r: HpChangeRequest)
    ensures
        r == spec_formation_hp_request(
            watch_fire,
            gale_rain,
            team_poisoned,
            prevent_team_poison_recovery,
            delta,
        ),
{
    if watch_fire || (delta > 0 && (gale_rain || (prevent_team_poison_recovery && team_poisoned))) {
        HpChangeRequest::Prevented(delta)
    } else {
        HpChangeRequest::By(delta)
    }
}

/// How a formation asks to change a team's life, counting the target team's poison.
pub fn formation_hp_request(watch_fire: bool, gale_rain: bool, team_poisoned: bool, delta: i32) -> (r:
    HpChangeRequest)
    ensures
        r == spec_formation_hp_request(watch_fire, gale_rain, team_poisoned, true, delta),
{
    formation_hp_request_with_poison(watch_fire, gale_rain, team_poisoned, true, delta)
}

/// How a formation asks to change a team's life when only the performer's own poison
/// counts: the target team's poison does not prevent the recovery.
pub fn formation_hp_request_without_team_poison(watch_fire: bool, gale_rain: bool, delta: i32) -> (r:
    HpChangeRequest)
    ensures
        r == spec_formation_hp_request(watch_fire, gale_rain, false, false, delta),
{
    formation_hp_request_with_poison(watch_fire, gale_rain, false, false, delta)
}


// ---------------------------------------------------------------------------
// The previewed points of an attack.
// ---------------------------------------------------------------------------

/// What the profession bonuses read of the attacker: the Jianghu abilities in effect and
/// whether it holds the Thousand Blades state, whether its Berserk Shadow is active,
/// whether its profession is suppressed, and its Hero Schools abilities.
#[derive(Debug)]
pub struct AttackerBonuses {
    pub jianghu_abilities: Vec<&'static str>,
    pub thousand_blades: bool,
    pub berserk: bool,
    pub suppressed: bool,
    pub hero_abilities: Vec<ProfessionAbility>,
}

/// The printed elements of the used cards.
pub open spec fn printed_elements(cards: Seq<AttackCard>) -> Seq<Option<Element>> {
    cards.map_values(|c: AttackCard| c.printed)
}

/// The printed elements and levels the Jianghu bonuses read.
pub open spec fn used_levels(cards: Seq<AttackCard>) -> Seq<UsedCardLevel> {
    cards.map_values(|c: AttackCard| UsedCardLevel { element: c.printed, level: c.level })
}

/// The points after the Jianghu bonuses.
pub open spec fn after_jianghu(
    formula: PointFormula,
    formation_id: Seq<char>,
    cards: Seq<AttackCard>,
    attacker: AttackerBonuses,
    points: int,
) -> int {
    crate::rules::jianghu::spec_modified_attack_points(
        crate::rules::profession::text_views(attacker.jianghu_abilities@),
        attacker.thousand_blades,
        formation_id,
        formula,
        used_levels(cards),
        points,
    )
}

/// The points after the Dark Glimmer bonus.
pub open spec fn after_dark(formation_id: Seq<char>, cards: Seq<AttackCard>, berserk: bool, points: int) -> int {
    if crate::rules::dark::spec_berserk_doubles(berserk, formation_id, printed_elements(cards)) {
        2 * points
    } else {
        points
    }
}

/// The previewed points of an attack: the formula's base points, then the Jianghu, Dark
/// Glimmer and Hero Schools bonuses, in that order.
pub open spec fn spec_preview_points(
    formula: PointFormula,
    formation_id: Seq<char>,
    cards: Seq<AttackCard>,
    virtuals: Seq<Option<SubmittedCardFacts>>,
    target: PlayerId,
    target_hand: Option<usize>,
    attacker: AttackerBonuses,
) -> Result<int, GameError> {
    match spec_attack_points(formula, cards, virtuals, target, target_hand) {
        Err(e) => Err(e),
        Ok(p) => {
            let p1 = after_jianghu(formula, formation_id, cards, attacker, p);
            let p2 = after_dark(formation_id, cards, attacker.berserk, p1);
            Ok(
                crate::rules::hero::spec_modified_attack_points(
                    attacker.suppressed,
                    attacker.hero_abilities@,
                    formation_id,
                    printed_elements(cards),
                    p2,
                ),
            )
        },
    }
}

/// Every step of the preview stays within the point range.
pub open spec fn preview_in_range(
    formula: PointFormula,
    formation_id: Seq<char>,
    cards: Seq<AttackCard>,
    virtuals: Seq<Option<SubmittedCardFacts>>,
    target: PlayerId,
    target_hand: Option<usize>,
    attacker: AttackerBonuses,
) -> bool {
    &&& cards.len() <= u32::MAX
    &&& attack_points_in_range(formula, cards, virtuals, target_hand)
    &&& spec_attack_points(formula, cards, virtuals, target, target_hand) matches Ok(p) ==> {
        let p1 = after_jianghu(formula, formation_id, cards, attacker, p);
        &&& i32::MIN <= p1 <= i32::MAX
        &&& p + crate::rules::jianghu::spec_yang_bonus(
            formation_id,
            crate::rules::profession::text_views(attacker.jianghu_abilities@),
        ) <= i32::MAX
        &&& i32::MIN <= after_dark(formation_id, cards, attacker.berserk, p1) <= i32::MAX
    }
}

fn printed_of(cards: &[AttackCard]) -> (r: Vec<Option<Element>>)
    ensures
        r@ == printed_elements(cards@),
{
    let mut out: Vec<Option<Element>> = Vec::new();
    let mut i: usize = 0;
    while i < cards.len()
        invariant
            i <= cards.len(),
            out@ == printed_elements(cards@.subrange(0, i as int)),
        decreases cards.len() - i,
    {
        out.push(cards[i].printed);
        assert(printed_elements(cards@.subrange(0, i as int + 1)) =~= printed_elements(
            cards@.subrange(0, i as int),
        ).push(cards@[i as int].printed));
        i = i + 1;
    }
    assert(cards@.subrange(0, cards.len() as int) =~= cards@);
    out
}

fn used_levels_of(cards: &[AttackCard]) -> (r: Vec<UsedCardLevel>)
    ensures
        r@ == used_levels(cards@),
{
    let mut out: Vec<UsedCardLevel> = Vec::new();
    let mut i: usize = 0;
    while i < cards.len()
        invariant
            i <= cards.len(),
            out@ == used_levels(cards@.subrange(0, i as int)),
        decreases cards.len() - i,
    {
        out.push(UsedCardLevel { element: cards[i].printed, level: cards[i].level });
        assert(used_levels(cards@.subrange(0, i as int + 1)) =~= used_levels(
            cards@.subrange(0, i as int),
        ).push(UsedCardLevel { element: cards@[i as int].printed, level: cards@[i as int].level }));
        i = i + 1;
    }
    assert(cards@.subrange(0, cards.len() as int) =~= cards@);
    out
}

/// The points an attack would deal before the target's defenses: the formula's base
/// points, then the Jianghu, Dark Glimmer and Hero Schools bonuses of the attacker.
pub fn preview_attack_points(
    formula: PointFormula,
    formation_id: &str,
    cards: &[AttackCard],
    virtuals: &[Option<SubmittedCardFacts>],
    target: &PlayerId,
    target_hand: Option<usize>,
    attacker: &AttackerBonuses,
) -> (r: Result<i32, GameError>)
    requires
        preview_in_range(formula, formation_id@, cards@, virtuals@, *target, target_hand, *attacker),
    ensures
        match spec_preview_points(formula, formation_id@, cards@, virtuals@, *target, target_hand, *attacker) {
            Ok(p) => r == Ok::<i32, GameError>(p as i32),
            Err(e) => r == Err::<i32, GameError>(e),
        },
{
    let points = match compute_attack_points(formula, cards, virtuals, target, target_hand) {
        Ok(p) => p,
        Err(e) => {
            return Err(e);
        },
    };
    let used = used_levels_of(cards);
    let points = crate::rules::jianghu::modify_attack_points(
        attacker.jianghu_abilities.as_slice(),
        attacker.thousand_blades,
        formation_id,
        formula,
        used.as_slice(),
        points,
    );
    let printed = printed_of(cards);
    let points = crate::rules::dark::modify_attack_points(
        attacker.berserk,
        formation_id,
        printed.as_slice(),
        points,
    );
    Ok(
        crate::rules::hero::modify_attack_points(
            attacker.suppressed,
            attacker.hero_abilities.as_slice(),
            formation_id,
            printed.as_slice(),
            points,
        ),
    )
}


/// How a team's life changes: before, the requested change, after, and the change that
/// actually happened.
#[derive(Debug, PartialEq, Eq)]
pub struct HpChangeDelta {
    pub team: TeamId,
    pub old_hp: i32,
    pub delta: i32,
    pub new_hp: i32,
    pub effective_delta: i32,
}

/// A team's life after a change: never below zero and never above its initial life.
pub open spec fn clamped_hp(old_hp: int, delta: int, initial_hp: int) -> int {
    if old_hp + delta < 0 {
        0
    } else if old_hp + delta > initial_hp {
        initial_hp
    } else {
        old_hp + delta
    }
}

/// Changes a team's life by `delta`, keeping it between zero and the team's initial life.
/// `old_hp` and `initial_hp` are the team's current and initial life, when the game knows
/// the team; an unknown team is refused.
pub fn hp_change(team: &TeamId, old_hp: Option<i32>, initial_hp: Option<i32>, delta: i32) -> (r: Result<
    HpChangeDelta,
    GameError,
>)
    requires
        old_hp matches Some(o) ==> i32::MIN <= o + delta <= i32::MAX,
        initial_hp matches Some(i) ==> 0 <= i,
        match (old_hp, initial_hp) {
            (Some(o), Some(i)) => i32::MIN <= clamped_hp(o as int, delta as int, i as int) - o
                <= i32::MAX,
            _ => true,
        },
    ensures
        match (old_hp, initial_hp) {
            (Some(o), Some(i)) => r matches Ok(d) && d.team@ == team@ && d.old_hp == o && d.delta
                == delta && d.new_hp == clamped_hp(o as int, delta as int, i as int)
                && d.effective_delta == d.new_hp - o,
            _ => r == Err::<HpChangeDelta, GameError>(
                GameError::Validation(ValidationError::MissingTeamHp(*team)),
            ),
        },
{
    let old = match old_hp {
        Some(o) => o,
        None => {
            return Err(GameError::Validation(ValidationError::MissingTeamHp(team.clone())));
        },
    };
    let initial = match initial_hp {
        Some(i) => i,
        None => {
            return Err(GameError::Validation(ValidationError::MissingTeamHp(team.clone())));
        },
    };
    let sum = old + delta;
    let new_hp = if sum < 0 {
        0
    } else if sum > initial {
        initial
    } else {
        sum
    };
    Ok(HpChangeDelta { team: team.clone(), old_hp: old, delta, new_hp, effective_delta: new_hp - old })
}


/// The attack amount after the target's own protections, where the target has no
/// shield: a profession modifier halves it, rounding half up, or prevents it; a Jianghu
/// state that halves incoming damage halves it again unless the attack heals.
pub open spec fn spec_protected_amount(
    final_amount: int,
    transform: DamageTransform,
    has_target_shield: bool,
    incoming: IncomingDamageModifier,
    halves: bool,
) -> int {
    if has_target_shield {
        final_amount
    } else {
        let a = match incoming {
            IncomingDamageModifier::Unchanged => final_amount,
            IncomingDamageModifier::HalfRoundUp => half_toward_zero(final_amount + 1),
            IncomingDamageModifier::Prevent => 0,
        };
        if halves && transform != DamageTransform::HealTarget {
            half_toward_zero(a + 1)
        } else {
            a
        }
    }
}

/// The amount that reaches the defender: split with a totem in a doubling environment
/// (each half doubled unless its side is exempt), split in two by a shared-damage
/// effect, or whole; then, where the target has no shield and a tribulation reduces
/// the attack, twenty less, never below zero.
pub open spec fn spec_defender_amount(
    amount: int,
    has_target_shield: bool,
    split_attack_damage: bool,
    totem_split: bool,
    environment_doubled: bool,
    target_exempt: bool,
    tribulation_reduces: bool,
) -> int {
    let d = if totem_split && environment_doubled {
        half_toward_zero(amount + 1) * if target_exempt {
            1int
        } else {
            2int
        }
    } else if split_attack_damage {
        half_toward_zero(amount + 1)
    } else {
        amount
    };
    if !has_target_shield && tribulation_reduces {
        if d - 20 > 0 {
            d - 20
        } else {
            0
        }
    } else {
        d
    }
}

/// The damage a shield takes from an attack: twice the defender's amount for a physical
/// attack, the amount itself otherwise.
pub open spec fn spec_shield_damage(category: AttackCategory, defender_amount: int) -> int {
    match category {
        AttackCategory::Physical => defender_amount * 2,
        _ => defender_amount,
    }
}

/// Whether rounding an amount half up would step past the largest `i32`: it does so
/// only where an amount of `i32::MAX` is halved.
pub open spec fn spec_halving_overflows(
    final_amount: int,
    transform: DamageTransform,
    has_target_shield: bool,
    incoming: IncomingDamageModifier,
    halves: bool,
    split_attack_damage: bool,
    totem_split: bool,
    environment_doubled: bool,
) -> bool {
    let after_incoming = if has_target_shield {
        final_amount
    } else {
        match incoming {
            IncomingDamageModifier::Unchanged => final_amount,
            IncomingDamageModifier::HalfRoundUp => half_toward_zero(final_amount + 1),
            IncomingDamageModifier::Prevent => 0,
        }
    };
    let protected = spec_protected_amount(final_amount, transform, has_target_shield, incoming, halves);
    ||| !has_target_shield && incoming == IncomingDamageModifier::HalfRoundUp && final_amount
        == i32::MAX
    ||| !has_target_shield && halves && transform != DamageTransform::HealTarget && after_incoming
        == i32::MAX
    ||| ((totem_split && environment_doubled) || split_attack_damage) && protected == i32::MAX
}

/// The defender's share of an attack's final amount, and the damage a shield takes from
/// it. The facts of modules outside this library (a totem's exemption or split, a
/// tribulation's reduction) are given.
pub fn defender_damage(
    category: AttackCategory,
    final_amount: i32,
    transform: DamageTransform,
    has_target_shield: bool,
    incoming: IncomingDamageModifier,
    halves: bool,
    split_attack_damage: bool,
    totem_split: bool,
    environment_doubled: bool,
    target_exempt: bool,
    tribulation_reduces: bool,
) -> (r: (i32, i32))
    requires
        !spec_halving_overflows(
            final_amount as int,
            transform,
            has_target_shield,
            incoming,
            halves,
            split_attack_damage,
            totem_split,
            environment_doubled,
        ),
        i32::MIN <= spec_shield_damage(
            category,
            spec_defender_amount(
                spec_protected_amount(final_amount as int, transform, has_target_shield, incoming, halves),
                has_target_shield,
                split_attack_damage,
                totem_split,
                environment_doubled,
                target_exempt,
                tribulation_reduces,
            ),
        ) <= i32::MAX,
    ensures
        r.0 == spec_defender_amount(
            spec_protected_amount(final_amount as int, transform, has_target_shield, incoming, halves),
            has_target_shield,
            split_attack_damage,
            totem_split,
            environment_doubled,
            target_exempt,
            tribulation_reduces,
        ),
        r.1 == spec_shield_damage(category, r.0 as int),
{
    let mut a = final_amount;
    if !has_target_shield {
        match incoming {
            IncomingDamageModifier::Unchanged => {},
            IncomingDamageModifier::HalfRoundUp => {
                a = (a + 1) / 2;
            },
            IncomingDamageModifier::Prevent => {
                a = 0;
            },
        }
        if halves && transform != DamageTransform::HealTarget {
            a = (a + 1) / 2;
        }
    }
    assert(a == spec_protected_amount(final_amount as int, transform, has_target_shield, incoming, halves));
    let d = if totem_split && environment_doubled {
        let half = (a + 1) / 2;
        if target_exempt {
            half
        } else {
            half * 2
        }
    } else if split_attack_damage {
        (a + 1) / 2
    } else {
        a
    };
    let d = if !has_target_shield && tribulation_reduces {
        if d > 20 {
            d - 20
        } else {
            0
        }
    } else {
        d
    };
    let shield = match category {
        AttackCategory::Physical => d * 2,
        _ => d,
    };
    (d, shield)
}


/// The attacker's own share of an attack whose damage is shared: half of the amount
/// after the target's protections, rounding half up (doubled, in a doubling environment
/// with a totem split, unless the attacker is exempt), twenty less where a tribulation
/// reduces the attacker's damage, never below zero.
pub open spec fn spec_attacker_share(
    protected_amount: int,
    totem_split: bool,
    environment_doubled: bool,
    attacker_exempt: bool,
    tribulation_reduces: bool,
) -> int {
    let a = if totem_split && environment_doubled {
        half_toward_zero(protected_amount + 1) * if attacker_exempt {
            1int
        } else {
            2int
        }
    } else {
        half_toward_zero(protected_amount + 1)
    };
    if tribulation_reduces {
        if a - 20 > 0 {
            a - 20
        } else {
            0
        }
    } else {
        a
    }
}

/// The attacker's own share of an attack whose damage is shared.
pub fn attacker_share(
    protected_amount: i32,
    totem_split: bool,
    environment_doubled: bool,
    attacker_exempt: bool,
    tribulation_reduces: bool,
) -> (r: i32)
    requires
        protected_amount < i32::MAX,
    ensures
        r == spec_attacker_share(
            protected_amount as int,
            totem_split,
            environment_doubled,
            attacker_exempt,
            tribulation_reduces,
        ),
{
    let half = (protected_amount + 1) / 2;
    let a = if totem_split && environment_doubled && !attacker_exempt {
        half * 2
    } else {
        half
    };
    if tribulation_reduces {
        if a > 20 {
            a - 20
        } else {
            0
        }
    } else {
        a
    }
}


/// How an elemental attack's breakdown follows from the elements. With the Five
/// Directions Legend and an environment in place, an attack of the environment's element
/// is doubled (unless doubling is prevented); an attack whose element generates the
/// environment heals the target, whatever the target's previous formation was (unless the
/// interaction is skipped or that recovery is prevented). Otherwise, against the element
/// of the target's previous formation, the same element halves the amount, rounding half
/// up; an element it generates heals; an element it overcomes doubles the amount; and
/// any other, or none, leaves the attack as it is. A skipped interaction leaves only the
/// environment's doubling.
pub proof fn lemma_elemental_breakdown(
    element: Element,
    five_directions: bool,
    environment: Option<Element>,
    previous: Option<Element>,
    base_points: i32,
    skip_interaction: bool,
    prevent_recovery: bool,
    prevent_doubling: bool,
)
    ensures
        ({
            let b = spec_breakdown(
                AttackCategory::Elemental(element),
                five_directions,
                environment,
                previous,
                base_points,
                skip_interaction,
                prevent_recovery,
                prevent_doubling,
            );
            let doubled = five_directions && environment == Some(element) && !prevent_doubling;
            let heals = five_directions && environment is Some && environment->0 != element
                && spec_generates(element, environment->0) && !skip_interaction && !prevent_recovery;
            let amount: int = if doubled {
                2 * base_points
            } else {
                base_points as int
            };
            &&& doubled ==> b.0 == EnvironmentAttackEffect::MatchingElementDamageDoubled {
                environment: element,
            }
            &&& heals ==> b.0 == EnvironmentAttackEffect::GeneratingElementDamageConvertedToHealing {
                environment: environment->0,
            } && b.2 == DamageTransform::HealTarget
            &&& !doubled && !heals ==> b.0 == EnvironmentAttackEffect::Unaffected
            &&& skip_interaction ==> b.1 == ElementInteraction::Unrelated && b.2
                == DamageTransform::NormalDamage && b.3 == amount
            &&& !skip_interaction && previous == Some(element) ==> b.1 == ElementInteraction::Same
                && b.3 == half_toward_zero(amount + 1) && b.2 == if heals {
                DamageTransform::HealTarget
            } else {
                DamageTransform::HalfDamageRoundUp
            }
            &&& !skip_interaction && previous is Some && spec_generates(element, previous->0)
                ==> b.1 == ElementInteraction::Generating && b.2 == DamageTransform::HealTarget
                && b.3 == amount
            &&& !skip_interaction && previous is Some && spec_overcomes(element, previous->0) ==> b.1
                == ElementInteraction::Overcoming && b.3 == 2 * amount && b.2 == if heals {
                DamageTransform::HealTarget
            } else {
                DamageTransform::DoubleDamage
            }
            &&& !skip_interaction && (previous is None || (previous->0 != element && !spec_generates(
                element,
                previous->0,
            ) && !spec_overcomes(element, previous->0))) ==> b.1 == ElementInteraction::Unrelated
                && b.3 == amount && b.2 == if heals {
                DamageTransform::HealTarget
            } else {
                DamageTransform::NormalDamage
            }
        }),
{
    lemma_five_element_cycles(element, element, element);
    if let Some(p) = previous {
        lemma_five_element_cycles(element, p, p);
    }
    if let Some(x) = environment {
        lemma_five_element_cycles(element, x, x);
    }
}

/// A physical or special attack keeps its base points and meets neither the environment
/// nor the previous formation's element.
pub proof fn lemma_non_elemental_breakdown(
    category: AttackCategory,
    five_directions: bool,
    environment: Option<Element>,
    previous: Option<Element>,
    base_points: i32,
    skip_interaction: bool,
    prevent_recovery: bool,
    prevent_doubling: bool,
)
    requires
        !(category is Elemental),
    ensures
        spec_breakdown(
            category,
            five_directions,
            environment,
            previous,
            base_points,
            skip_interaction,
            prevent_recovery,
            prevent_doubling,
        ) == (
            EnvironmentAttackEffect::Unaffected,
            ElementInteraction::Unrelated,
            DamageTransform::NormalDamage,
            base_points as int,
        ),
{
}

} // verus!
