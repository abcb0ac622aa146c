//! The Dark Glimmer rule module: dark professions, their formations and the
//! rules that tie them to a player's current profession.
use crate::domain::{
    CardInstanceId, DARK_GLIMMER_MODULE_ID, copy_cards, Element, GameError, ProfessionId, ValidationError,
    owned, str_eq, str_starts_with,
};
use crate::rules::catalog::spec_views;
use crate::rules::detail::{
    ConsequenceCertainty, FormationCategory, FormationEffect, ProfessionAbilityEffect,
    RuleConsequence, TrustedRandomness,
};
use crate::rules::hero::{WARRIOR_ID, WINDWALKER_ID};
use crate::rules::matcher::{
    FormationPattern, PatternView, SubmittedCardFacts, all_elem, all_level, any_elem, all_of_element,
    all_of_level, elements_of, has_element, level_sum, level_sum_at_least, same_counts,
    same_element_counts, submitted_elements, element_level_sum, element_minimum,
    one_element_minimum, spec_one_element_minimum,
};
use crate::rules::profession::{
    CatalogEntryView, ProfessionCatalogEntry, change_offer, entry, entry_views, lineage_contains,
    lineage_has, opt_view, pair_views, text_views,
};
use crate::rules::registry::{
    AttackCategory, AttackPlanDef, BaseFormationSpec, DamageTarget, EffectDef, EffectDefView,
    EffectPlan, EffectPlanView, FormationDef, FormationDefView, PointFormula, SpecView,
    SpellPlanDef,
};
use vstd::prelude::*;

verus! {

pub const DARK_WALKER_ID: &'static str = "dark:dark-walker";
pub const DARK_SPIRIT_ENVOY_ID: &'static str = "dark:dark-spirit-envoy";
pub const SHADOW_WARRIOR_ID: &'static str = "dark:shadow-warrior";
pub const SHADOW_BERSERKER_ID: &'static str = "dark:shadow-berserker";
pub const DEMON_SPIRIT_MASTER_ID: &'static str = "dark:demon-spirit-master";

pub const DARK_RADIANCE: &'static str = "dark:dark-radiance";
pub const DARK_BARRIER: &'static str = "dark:dark-barrier";
pub const DARK_RETURN_TO_ORIGIN: &'static str = "dark:dark-return-to-origin";
pub const DARK_SHOCK_BURST: &'static str = "dark:dark-shock-burst";
pub const DARK_CHAOS: &'static str = "dark:dark-chaos";
pub const DARK_CYCLE: &'static str = "dark:dark-cycle";
pub const AFTERIMAGE_SLASH: &'static str = "dark:afterimage-slash";
pub const BERSERK_AFTERIMAGE_SLASH: &'static str = "dark:berserk-afterimage-slash";
pub const EVIL_SPIRIT_SUMMONING: &'static str = "dark:evil-spirit-summoning";
pub const DEATH_SPIRIT_SUMMONING: &'static str = "dark:death-spirit-summoning";

pub const DARK_SPIRIT_ABILITY_ID: &'static str = "dark:dark-spirit";
pub const BERSERK_SHADOW_ABILITY_ID: &'static str = "dark:berserk-shadow";

// ---------------------------------------------------------------------------
// Professions.
// ---------------------------------------------------------------------------

/// A Dark Glimmer catalog entry.
pub open spec fn spec_dark_entry(
    id: Seq<char>,
    name: Seq<char>,
    rule_text: Seq<char>,
    parents: Seq<Seq<char>>,
    ability_ids: Seq<Seq<char>>,
) -> CatalogEntryView {
    CatalogEntryView {
        id,
        module_id: DARK_GLIMMER_MODULE_ID@,
        name,
        rule_text,
        parents,
        ability_ids,
    }
}

/// The five Dark Glimmer professions, in catalog order.
pub open spec fn dark_entry_table() -> Seq<CatalogEntryView> {
    seq![
        spec_dark_entry(DARK_WALKER_ID@, "暗行者"@, "目前無職業；一張２級以下牌"@, seq![], seq!["dark:dark-walking"@]),
        spec_dark_entry(DARK_SPIRIT_ENVOY_ID@, "暗靈使"@, "僅能由暗行能力轉職"@, seq![DARK_WALKER_ID@], seq![DARK_SPIRIT_ABILITY_ID@, "dark:dark-realm"@]),
        spec_dark_entry(SHADOW_WARRIOR_ID@, "影戰士"@, "風行者以金行６，或戰士以土行６轉職"@, seq![WINDWALKER_ID@, WARRIOR_ID@], seq![]),
        spec_dark_entry(SHADOW_BERSERKER_ID@, "影戰狂"@, "目前為影戰士；土５金５"@, seq![SHADOW_WARRIOR_ID@], seq![BERSERK_SHADOW_ABILITY_ID@]),
        spec_dark_entry(DEMON_SPIRIT_MASTER_ID@, "魔靈師"@, "目前擁有精靈；以２２或４４轉職"@, seq![], seq!["dark:demon-spirit-possession"@, "dark:demon-spirit-revival"@]),
    ]
}

/// The catalog entries of the Dark Glimmer professions.
pub fn profession_catalog_entries() -> (r: Vec<ProfessionCatalogEntry>)
    ensures
        entry_views(r@) == dark_entry_table(),
{
    let e0 = entry(DARK_WALKER_ID, DARK_GLIMMER_MODULE_ID, "暗行者", "目前無職業；一張２級以下牌", &[], &["dark:dark-walking"]);
    let e1 = entry(DARK_SPIRIT_ENVOY_ID, DARK_GLIMMER_MODULE_ID, "暗靈使", "僅能由暗行能力轉職", &[DARK_WALKER_ID], &[DARK_SPIRIT_ABILITY_ID, "dark:dark-realm"]);
    let e2 = entry(SHADOW_WARRIOR_ID, DARK_GLIMMER_MODULE_ID, "影戰士", "風行者以金行６，或戰士以土行６轉職", &[WINDWALKER_ID, WARRIOR_ID], &[]);
    let e3 = entry(SHADOW_BERSERKER_ID, DARK_GLIMMER_MODULE_ID, "影戰狂", "目前為影戰士；土５金５", &[SHADOW_WARRIOR_ID], &[BERSERK_SHADOW_ABILITY_ID]);
    let e4 = entry(DEMON_SPIRIT_MASTER_ID, DARK_GLIMMER_MODULE_ID, "魔靈師", "目前擁有精靈；以２２或４４轉職", &[], &["dark:demon-spirit-possession", "dark:demon-spirit-revival"]);
    let v = vec![e0, e1, e2, e3, e4];
    proof {
        let t = dark_entry_table();
        assert(v@[0]@.parents =~= t[0].parents);
        assert(v@[0]@.ability_ids =~= t[0].ability_ids);
        assert(v@[1]@.parents =~= t[1].parents);
        assert(v@[1]@.ability_ids =~= t[1].ability_ids);
        assert(v@[2]@.parents =~= t[2].parents);
        assert(v@[2]@.ability_ids =~= t[2].ability_ids);
        assert(v@[3]@.parents =~= t[3].parents);
        assert(v@[3]@.ability_ids =~= t[3].ability_ids);
        assert(v@[4]@.parents =~= t[4].parents);
        assert(v@[4]@.ability_ids =~= t[4].ability_ids);
        assert(entry_views(v@) =~= t);
    }
    v
}

/// Every submitted card is Metal or Earth.
pub open spec fn all_metal_or_earth(facts: Seq<SubmittedCardFacts>) -> bool {
    forall|i: int|
        0 <= i < facts.len() ==> facts[i].element == Element::Metal || facts[i].element
            == Element::Earth
}

/// Whether a player holding `current`, owning a spirit or not, may change into `target`
/// with the submitted cards.
pub open spec fn spec_change_matches(
    current: Option<Seq<char>>,
    has_spirit: bool,
    target: Seq<char>,
    facts: Seq<SubmittedCardFacts>,
) -> bool {
    if target == DARK_WALKER_ID@ {
        current is None && facts.len() == 1 && facts[0].level <= 2
    } else if target == DARK_SPIRIT_ENVOY_ID@ {
        false
    } else if target == SHADOW_WARRIOR_ID@ {
        if current == Some(WINDWALKER_ID@) {
            spec_one_element_minimum(facts, Element::Metal, 6)
        } else if current == Some(WARRIOR_ID@) {
            spec_one_element_minimum(facts, Element::Earth, 6)
        } else {
            false
        }
    } else if target == SHADOW_BERSERKER_ID@ {
        &&& current == Some(SHADOW_WARRIOR_ID@)
        &&& all_metal_or_earth(facts)
        &&& element_level_sum(facts, Element::Metal) >= 5
        &&& element_level_sum(facts, Element::Earth) >= 5
    } else if target == DEMON_SPIRIT_MASTER_ID@ {
        &&& has_spirit
        &&& facts.len() == 2
        &&& (facts[0].level == 2 || facts[0].level == 4)
        &&& facts[1].level == facts[0].level
    } else {
        false
    }
}


fn is_current(current: Option<&ProfessionId>, id: &str) -> (r: bool)
    ensures
        r == (opt_view(current) == Some(id@)),
{
    match current {
        Some(c) => str_eq(c.as_str(), id),
        None => false,
    }
}

/// Whether a player holding `current` (and owning a spirit when `has_spirit`) may change
/// into `target` with the submitted cards.
#[verifier::loop_isolation(false)]
pub fn change_matches(
    current: Option<&ProfessionId>,
    has_spirit: bool,
    target: &ProfessionId,
    facts: &[SubmittedCardFacts],
) -> (r: bool)
    ensures
        r == spec_change_matches(opt_view(current), has_spirit, target@, facts@),
{
    let id = target.as_str();
    if str_eq(id, DARK_WALKER_ID) {
        current.is_none() && facts.len() == 1 && facts[0].level <= 2
    } else if str_eq(id, DARK_SPIRIT_ENVOY_ID) {
        false
    } else if str_eq(id, SHADOW_WARRIOR_ID) {
        if is_current(current, WINDWALKER_ID) {
            one_element_minimum(facts, Element::Metal, 6)
        } else if is_current(current, WARRIOR_ID) {
            one_element_minimum(facts, Element::Earth, 6)
        } else {
            false
        }
    } else if str_eq(id, SHADOW_BERSERKER_ID) {
        if !is_current(current, SHADOW_WARRIOR_ID) {
            return false;
        }
        let mut i: usize = 0;
        while i < facts.len()
            invariant
                i <= facts.len(),
                forall|j: int|
                    0 <= j < i ==> facts@[j].element == Element::Metal || facts@[j].element
                        == Element::Earth,
            decreases facts.len() - i,
        {
            if facts[i].element != Element::Metal && facts[i].element != Element::Earth {
                return false;
            }
            i = i + 1;
        }
        element_minimum(facts, Element::Metal, 5) && element_minimum(facts, Element::Earth, 5)
    } else if str_eq(id, DEMON_SPIRIT_MASTER_ID) {
        has_spirit && facts.len() == 2 && (facts[0].level == 2 || facts[0].level == 4)
            && facts[1].level == facts[0].level
    } else {
        false
    }
}

// ---------------------------------------------------------------------------
// Formations.
// ---------------------------------------------------------------------------

/// The Dark Glimmer spells, which carry a player-facing effect.
pub open spec fn spec_is_dark_spell(id: Seq<char>) -> bool {
    id == DARK_RADIANCE@ || id == DARK_CHAOS@ || id == DARK_BARRIER@ || id
        == DARK_RETURN_TO_ORIGIN@ || id == DARK_CYCLE@ || id == EVIL_SPIRIT_SUMMONING@ || id
        == DEATH_SPIRIT_SUMMONING@
}

/// The player-facing effect of a Dark Glimmer spell.
pub open spec fn spec_dark_spell_effect(id: Seq<char>) -> FormationEffect {
    if id == DARK_RADIANCE@ || id == DARK_CHAOS@ {
        FormationEffect::InspectHand
    } else if id == DARK_BARRIER@ {
        FormationEffect::CreateShield
    } else if id == DARK_RETURN_TO_ORIGIN@ {
        FormationEffect::RecoverHp
    } else if id == DARK_CYCLE@ {
        FormationEffect::BreakProfession
    } else {
        FormationEffect::SummonSpirit
    }
}

fn player_facing_formation_effect(id: &str) -> (r: FormationEffect)
    requires
        spec_is_dark_spell(id@),
    ensures
        r == spec_dark_spell_effect(id@),
{
    if str_eq(id, DARK_RADIANCE) || str_eq(id, DARK_CHAOS) {
        FormationEffect::InspectHand
    } else if str_eq(id, DARK_BARRIER) {
        FormationEffect::CreateShield
    } else if str_eq(id, DARK_RETURN_TO_ORIGIN) {
        FormationEffect::RecoverHp
    } else if str_eq(id, DARK_CYCLE) {
        FormationEffect::BreakProfession
    } else {
        FormationEffect::SummonSpirit
    }
}

/// The view of a Dark Glimmer spell, matched by its own custom pattern.
pub open spec fn spec_dark_spell(id: Seq<char>, name: Seq<char>, rule_text: Seq<char>) -> SpecView {
    SpecView {
        formation: FormationDefView {
            id,
            name,
            rule_text,
            category: FormationCategory::Spell,
            pattern: PatternView::Custom(id),
            effect_id: id,
            point_formula: PointFormula::Fixed(0),
        },
        effect: EffectDefView {
            id,
            plan: EffectPlanView::ActiveSpell { resolver_id: id, effect: spec_dark_spell_effect(id) },
        },
    }
}

/// The view of a Dark Glimmer attack on the previous player.
pub open spec fn spec_dark_attack(
    id: Seq<char>,
    name: Seq<char>,
    rule_text: Seq<char>,
    category: AttackCategory,
    formula: PointFormula,
) -> SpecView {
    SpecView {
        formation: FormationDefView {
            id,
            name,
            rule_text,
            category: FormationCategory::Attack,
            pattern: PatternView::Custom(id),
            effect_id: id,
            point_formula: formula,
        },
        effect: EffectDefView {
            id,
            plan: EffectPlanView::Attack(
                AttackPlanDef {
                    category,
                    point_formula: formula,
                    damage_target: DamageTarget::PreviousPlayer,
                },
            ),
        },
    }
}

fn spell(id: &str, name: &str, rule_text: &str) -> (r: BaseFormationSpec)
    requires
        spec_is_dark_spell(id@),
    ensures
        r@ == spec_dark_spell(id@, name@, rule_text@),
{
    BaseFormationSpec {
        formation: FormationDef {
            id: owned(id),
            name: owned(name),
            rule_text: owned(rule_text),
            category: FormationCategory::Spell,
            pattern: FormationPattern::Custom(owned(id)),
            effect_id: owned(id),
            point_formula: PointFormula::Fixed(0),
        },
        effect: EffectDef {
            id: owned(id),
            plan: EffectPlan::ActiveSpell(
                SpellPlanDef {
                    resolver_id: owned(id),
                    player_facing_effect: player_facing_formation_effect(id),
                },
            ),
        },
    }
}

fn attack(
    id: &str,
    name: &str,
    rule_text: &str,
    category: AttackCategory,
    point_formula: PointFormula,
) -> (r: BaseFormationSpec)
    ensures
        r@ == spec_dark_attack(id@, name@, rule_text@, category, point_formula),
{
    BaseFormationSpec {
        formation: FormationDef {
            id: owned(id),
            name: owned(name),
            rule_text: owned(rule_text),
            category: FormationCategory::Attack,
            pattern: FormationPattern::Custom(owned(id)),
            effect_id: owned(id),
            point_formula,
        },
        effect: EffectDef {
            id: owned(id),
            plan: EffectPlan::Attack(
                AttackPlanDef { category, point_formula, damage_target: DamageTarget::PreviousPlayer },
            ),
        },
    }
}

/// The views of the Dark Glimmer formations, in catalog order.
pub open spec fn dark_formation_table() -> Seq<SpecView> {
    seq![
        spec_dark_spell(DARK_RADIANCE@, "暗黑光芒"@, "金金火水，等級和１０以下；下家扣１５且無法行動及抽牌２回合"@),
        spec_dark_spell(DARK_BARRIER@, "暗黑氣壁"@, "木木金火，等級和１０以下；防護罩＝等級和×６"@),
        spec_dark_spell(DARK_RETURN_TO_ORIGIN@, "暗黑歸元"@, "水水土木，等級和１０以下；回復＝等級和×６"@),
        spec_dark_attack(DARK_SHOCK_BURST@, "暗黑震暴"@, "火火水土，等級和１０以下；物理攻擊＝等級和×６"@, AttackCategory::Physical, PointFormula::LevelSumTimes(6)),
        spec_dark_spell(DARK_CHAOS@, "暗黑混沌"@, "土土木金，等級和１０以下；下家扣１５並隨機將兩張手牌放回牌堆頂"@),
        spec_dark_spell(DARK_CYCLE@, "暗行輪迴"@, "金木水火土，等級和１０以下；下家扣５０，我方回復５０並破除此職業"@),
        spec_dark_attack(AFTERIMAGE_SLASH@, "殘影斬"@, "土＋任意牌；物理攻擊８點，上家另扣８點生命"@, AttackCategory::Physical, PointFormula::Fixed(8)),
        spec_dark_attack(BERSERK_AFTERIMAGE_SLASH@, "殘影狂刃斬"@, "金土，等級和為偶級；物理攻擊＝等級和×３，上家另扣等量生命"@, AttackCategory::Physical, PointFormula::LevelSumTimes(3)),
        spec_dark_spell(EVIL_SPIRIT_SUMMONING@, "惡靈召喚陣"@, "２２；召喚惡精靈，已有時靈力＋２"@),
        spec_dark_spell(DEATH_SPIRIT_SUMMONING@, "死靈召喚陣"@, "４４；召喚死精靈，已有時靈力＋２"@),
    ]
}

/// The Dark Glimmer formations.
pub fn formation_specs() -> (r: Vec<BaseFormationSpec>)
    ensures
        spec_views(r@) == dark_formation_table(),
{
    let v = vec![
        spell(DARK_RADIANCE, "暗黑光芒", "金金火水，等級和１０以下；下家扣１５且無法行動及抽牌２回合"),
        spell(DARK_BARRIER, "暗黑氣壁", "木木金火，等級和１０以下；防護罩＝等級和×６"),
        spell(DARK_RETURN_TO_ORIGIN, "暗黑歸元", "水水土木，等級和１０以下；回復＝等級和×６"),
        attack(DARK_SHOCK_BURST, "暗黑震暴", "火火水土，等級和１０以下；物理攻擊＝等級和×６", AttackCategory::Physical, PointFormula::LevelSumTimes(6)),
        spell(DARK_CHAOS, "暗黑混沌", "土土木金，等級和１０以下；下家扣１５並隨機將兩張手牌放回牌堆頂"),
        spell(DARK_CYCLE, "暗行輪迴", "金木水火土，等級和１０以下；下家扣５０，我方回復５０並破除此職業"),
        attack(AFTERIMAGE_SLASH, "殘影斬", "土＋任意牌；物理攻擊８點，上家另扣８點生命", AttackCategory::Physical, PointFormula::Fixed(8)),
        attack(BERSERK_AFTERIMAGE_SLASH, "殘影狂刃斬", "金土，等級和為偶級；物理攻擊＝等級和×３，上家另扣等量生命", AttackCategory::Physical, PointFormula::LevelSumTimes(3)),
        spell(EVIL_SPIRIT_SUMMONING, "惡靈召喚陣", "２２；召喚惡精靈，已有時靈力＋２"),
        spell(DEATH_SPIRIT_SUMMONING, "死靈召喚陣", "４４；召喚死精靈，已有時靈力＋２"),
    ];
    assert(spec_views(v@) =~= dark_formation_table());
    v
}

/// The consequences a Dark Glimmer formation adds to its action detail: Dark Chaos
/// returns two hidden hand cards chosen by trusted randomness.
pub open spec fn spec_detail_consequences(id: Seq<char>) -> Option<Seq<RuleConsequence>> {
    if id == DARK_CHAOS@ {
        Some(
            seq![
                RuleConsequence::TrustedRandomness {
                    certainty: ConsequenceCertainty::Random,
                    operation: TrustedRandomness::SelectHiddenHandCards { count: 2 },
                },
            ],
        )
    } else {
        None
    }
}

/// The consequences a Dark Glimmer formation adds to its action detail.
pub fn formation_action_detail_consequences(id: &str) -> (r: Option<Vec<RuleConsequence>>)
    ensures
        match r {
            Some(v) => spec_detail_consequences(id@) == Some(v@),
            None => spec_detail_consequences(id@) is None,
        },
{
    if str_eq(id, DARK_CHAOS) {
        let v = vec![
            RuleConsequence::TrustedRandomness {
                certainty: ConsequenceCertainty::Random,
                operation: TrustedRandomness::SelectHiddenHandCards { count: 2 },
            },
        ];
        assert(v@ =~= spec_detail_consequences(id@).unwrap());
        Some(v)
    } else {
        None
    }
}

/// Some formation of the table has identity `id`.
pub open spec fn table_has_formation(id: Seq<char>) -> bool {
    exists|i: int|
        0 <= i < dark_formation_table().len() && #[trigger] dark_formation_table()[i].formation.id
            == id
}

/// A Dark Glimmer profession formation: its identity starts with `dark:` and it is
/// one of the module's formations.
pub open spec fn spec_is_profession_formation(id: Seq<char>) -> bool {
    "dark:"@.len() <= id.len() && id.subrange(0, "dark:"@.len() as int) == "dark:"@
        && table_has_formation(id)
}

/// Whether a formation is a Dark Glimmer profession formation.
#[verifier::loop_isolation(false)]
pub fn is_profession_formation(id: &str) -> (r: bool)
    ensures
        r == spec_is_profession_formation(id@),
{
    if !str_starts_with(id, "dark:") {
        return false;
    }
    let specs = formation_specs();
    let mut i: usize = 0;
    while i < specs.len()
        invariant
            i <= specs.len(),
            spec_views(specs@) == dark_formation_table(),
            forall|j: int| 0 <= j < i ==> dark_formation_table()[j].formation.id != id@,
        decreases specs.len() - i,
    {
        assert(spec_views(specs@)[i as int] == specs@[i as int]@);
        if str_eq(specs[i].formation.id.as_str(), id) {
            assert(dark_formation_table()[i as int].formation.id == id@);
            return true;
        }
        i = i + 1;
    }
    false
}


// ---------------------------------------------------------------------------
// Formation patterns.
// ---------------------------------------------------------------------------

/// Exactly the given elements, with levels totalling at most `maximum`.
pub open spec fn exact_and_max(
    cards: Seq<SubmittedCardFacts>,
    elements: Seq<Element>,
    maximum: int,
) -> bool {
    cards.len() == elements.len() && same_counts(elements_of(cards), elements) && level_sum(cards)
        <= maximum
}

/// Whether the submitted cards form the named Dark Glimmer formation.
pub open spec fn spec_formation_matches(id: Seq<char>, cards: Seq<SubmittedCardFacts>) -> bool {
    if id == DARK_RADIANCE@ {
        exact_and_max(cards, seq![Element::Metal, Element::Metal, Element::Fire, Element::Water], 10)
    } else if id == DARK_BARRIER@ {
        exact_and_max(cards, seq![Element::Wood, Element::Wood, Element::Metal, Element::Fire], 10)
    } else if id == DARK_RETURN_TO_ORIGIN@ {
        exact_and_max(cards, seq![Element::Water, Element::Water, Element::Earth, Element::Wood], 10)
    } else if id == DARK_SHOCK_BURST@ {
        exact_and_max(cards, seq![Element::Fire, Element::Fire, Element::Water, Element::Earth], 10)
    } else if id == DARK_CHAOS@ {
        exact_and_max(cards, seq![Element::Earth, Element::Earth, Element::Wood, Element::Metal], 10)
    } else if id == DARK_CYCLE@ {
        exact_and_max(
            cards,
            seq![Element::Metal, Element::Wood, Element::Water, Element::Fire, Element::Earth],
            10,
        )
    } else if id == AFTERIMAGE_SLASH@ {
        cards.len() == 2 && any_elem(cards, Element::Earth)
    } else if id == BERSERK_AFTERIMAGE_SLASH@ {
        &&& cards.len() == 2
        &&& any_elem(cards, Element::Metal)
        &&& any_elem(cards, Element::Earth)
        &&& level_sum(cards) % 2 == 0
    } else if id == EVIL_SPIRIT_SUMMONING@ {
        cards.len() == 2 && all_level(cards, 2)
    } else if id == DEATH_SPIRIT_SUMMONING@ {
        cards.len() == 2 && all_level(cards, 4)
    } else {
        false
    }
}

fn four(a: Element, b: Element, c: Element, d: Element) -> (r: Vec<Element>)
    ensures
        r@ == seq![a, b, c, d],
{
    let v = vec![a, b, c, d];
    assert(v@ =~= seq![a, b, c, d]);
    v
}

fn exact_and_at_most_ten(cards: &[SubmittedCardFacts], elements: Vec<Element>) -> (r: bool)
    ensures
        r == exact_and_max(cards@, elements@, 10),
{
    if cards.len() != elements.len() {
        return false;
    }
    let submitted = submitted_elements(cards);
    same_element_counts(submitted.as_slice(), elements.as_slice()) && !level_sum_at_least(cards, 11)
}

/// Whether the submitted cards form the named Dark Glimmer formation.
pub fn formation_matches(id: &str, cards: &[SubmittedCardFacts]) -> (r: bool)
    ensures
        r == spec_formation_matches(id@, cards@),
{
    if str_eq(id, DARK_RADIANCE) {
        exact_and_at_most_ten(cards, four(Element::Metal, Element::Metal, Element::Fire, Element::Water))
    } else if str_eq(id, DARK_BARRIER) {
        exact_and_at_most_ten(cards, four(Element::Wood, Element::Wood, Element::Metal, Element::Fire))
    } else if str_eq(id, DARK_RETURN_TO_ORIGIN) {
        exact_and_at_most_ten(cards, four(Element::Water, Element::Water, Element::Earth, Element::Wood))
    } else if str_eq(id, DARK_SHOCK_BURST) {
        exact_and_at_most_ten(cards, four(Element::Fire, Element::Fire, Element::Water, Element::Earth))
    } else if str_eq(id, DARK_CHAOS) {
        exact_and_at_most_ten(cards, four(Element::Earth, Element::Earth, Element::Wood, Element::Metal))
    } else if str_eq(id, DARK_CYCLE) {
        let v = vec![Element::Metal, Element::Wood, Element::Water, Element::Fire, Element::Earth];
        assert(v@ =~= seq![Element::Metal, Element::Wood, Element::Water, Element::Fire, Element::Earth]);
        exact_and_at_most_ten(cards, v)
    } else if str_eq(id, AFTERIMAGE_SLASH) {
        cards.len() == 2 && has_element(cards, Element::Earth)
    } else if str_eq(id, BERSERK_AFTERIMAGE_SLASH) {
        if cards.len() != 2 || !has_element(cards, Element::Metal) || !has_element(cards, Element::Earth) {
            return false;
        }
        proof {
            reveal_with_fuel(level_sum, 3);
            assert(cards@.drop_last().drop_last() =~= Seq::<SubmittedCardFacts>::empty());
        }
        (cards[0].level as u64 + cards[1].level as u64) % 2 == 0
    } else if str_eq(id, EVIL_SPIRIT_SUMMONING) {
        cards.len() == 2 && all_of_level(cards, 2)
    } else if str_eq(id, DEATH_SPIRIT_SUMMONING) {
        cards.len() == 2 && all_of_level(cards, 4)
    } else {
        false
    }
}

// ---------------------------------------------------------------------------
// Who may use a formation.
// ---------------------------------------------------------------------------

/// The five Dark Walker formations.
pub open spec fn spec_is_dark_formation(id: Seq<char>) -> bool {
    id == DARK_RADIANCE@ || id == DARK_BARRIER@ || id == DARK_RETURN_TO_ORIGIN@ || id
        == DARK_SHOCK_BURST@ || id == DARK_CHAOS@ || id == DARK_CYCLE@
}

/// Whether a player holding `profession` may use the named formation, where `lineage`
/// holds every profession it inherits from under the enabled modules: the Dark Walker
/// line uses the dark formations, the Dark Spirit Envoy the Dark Cycle, the Shadow
/// Warrior line the Afterimage Slash, the Shadow Berserker its own slash, and the Demon
/// Spirit Master the summonings.
pub open spec fn spec_can_use_profession_formation(
    profession: Option<Seq<char>>,
    lineage: Seq<ProfessionId>,
    id: Seq<char>,
) -> bool {
    match profession {
        None => false,
        Some(p) => if id == DARK_RADIANCE@ || id == DARK_BARRIER@ || id == DARK_RETURN_TO_ORIGIN@
            || id == DARK_SHOCK_BURST@ || id == DARK_CHAOS@ {
            lineage_has(lineage, DARK_WALKER_ID@)
        } else if id == DARK_CYCLE@ {
            p == DARK_SPIRIT_ENVOY_ID@
        } else if id == AFTERIMAGE_SLASH@ {
            lineage_has(lineage, SHADOW_WARRIOR_ID@)
        } else if id == BERSERK_AFTERIMAGE_SLASH@ {
            p == SHADOW_BERSERKER_ID@
        } else if id == EVIL_SPIRIT_SUMMONING@ || id == DEATH_SPIRIT_SUMMONING@ {
            p == DEMON_SPIRIT_MASTER_ID@
        } else {
            false
        },
    }
}

/// Whether a player holding `profession`, whose line is `lineage`, may use the named
/// formation.
pub fn can_use_profession_formation(
    profession: Option<&ProfessionId>,
    lineage: &[ProfessionId],
    id: &str,
) -> (r: bool)
    ensures
        r == spec_can_use_profession_formation(opt_view(profession), lineage@, id@),
{
    let p = match profession {
        Some(p) => p.as_str(),
        None => {
            return false;
        },
    };
    if str_eq(id, DARK_RADIANCE) || str_eq(id, DARK_BARRIER) || str_eq(id, DARK_RETURN_TO_ORIGIN)
        || str_eq(id, DARK_SHOCK_BURST) || str_eq(id, DARK_CHAOS) {
        lineage_contains(lineage, DARK_WALKER_ID)
    } else if str_eq(id, DARK_CYCLE) {
        str_eq(p, DARK_SPIRIT_ENVOY_ID)
    } else if str_eq(id, AFTERIMAGE_SLASH) {
        lineage_contains(lineage, SHADOW_WARRIOR_ID)
    } else if str_eq(id, BERSERK_AFTERIMAGE_SLASH) {
        str_eq(p, SHADOW_BERSERKER_ID)
    } else if str_eq(id, EVIL_SPIRIT_SUMMONING) || str_eq(id, DEATH_SPIRIT_SUMMONING) {
        str_eq(p, DEMON_SPIRIT_MASTER_ID)
    } else {
        false
    }
}

/// Whether a formation is one of the Dark Walker formations.
pub fn is_dark_formation(id: &str) -> (r: bool)
    ensures
        r == spec_is_dark_formation(id@),
{
    str_eq(id, DARK_RADIANCE) || str_eq(id, DARK_BARRIER) || str_eq(id, DARK_RETURN_TO_ORIGIN)
        || str_eq(id, DARK_SHOCK_BURST) || str_eq(id, DARK_CHAOS) || str_eq(id, DARK_CYCLE)
}

/// A Dark Walker or Dark Spirit Envoy whose profession is not suppressed uses the dark
/// formations regardless of the environment.
pub open spec fn spec_ignores_environment(
    suppressed: bool,
    profession: Option<Seq<char>>,
    id: Seq<char>,
) -> bool {
    !suppressed && spec_is_dark_formation(id) && (profession == Some(DARK_WALKER_ID@)
        || profession == Some(DARK_SPIRIT_ENVOY_ID@))
}

/// Whether the formation ignores the environment for a player holding `profession`,
/// whose profession is suppressed when `suppressed`.
pub fn ignores_environment(suppressed: bool, profession: Option<&ProfessionId>, id: &str) -> (r:
    bool)
    ensures
        r == spec_ignores_environment(suppressed, opt_view(profession), id@),
{
    !suppressed && is_dark_formation(id) && (is_current(profession, DARK_WALKER_ID) || is_current(
        profession,
        DARK_SPIRIT_ENVOY_ID,
    ))
}

/// Every card's printed element is known and is `e`.
pub open spec fn all_known_of(elements: Seq<Option<Element>>, e: Element) -> bool {
    forall|i: int| 0 <= i < elements.len() ==> elements[i] == Some(e)
}

/// The Berserk Shadow ability doubles a two-Metal Weapon and a two-Earth Afterimage Slash.
pub open spec fn spec_berserk_doubles(
    berserk: bool,
    formation_id: Seq<char>,
    elements: Seq<Option<Element>>,
) -> bool {
    berserk && elements.len() == 2 && ((formation_id == "weapon"@ && all_known_of(
        elements,
        Element::Metal,
    )) || (formation_id == AFTERIMAGE_SLASH@ && all_known_of(elements, Element::Earth)))
}

fn all_known_of_element(elements: &[Option<Element>], e: Element) -> (r: bool)
    ensures
        r == all_known_of(elements@, e),
{
    let mut i: usize = 0;
    while i < elements.len()
        invariant
            i <= elements.len(),
            forall|j: int| 0 <= j < i ==> elements@[j] == Some(e),
        decreases elements.len() - i,
    {
        match elements[i] {
            Some(x) => {
                if x != e {
                    return false;
                }
            },
            None => {
                return false;
            },
        }
        i = i + 1;
    }
    true
}

/// The attack points after the Berserk Shadow ability, given whether the attacker holds
/// it and the printed elements of the used cards (`None` where a card is unknown).
pub fn modify_attack_points(
    berserk: bool,
    formation_id: &str,
    card_elements: &[Option<Element>],
    points: i32,
) -> (r: i32)
    requires
        spec_berserk_doubles(berserk, formation_id@, card_elements@) ==> i32::MIN <= 2 * points
            <= i32::MAX,
    ensures
        r == if spec_berserk_doubles(berserk, formation_id@, card_elements@) {
            2 * points
        } else {
            points as int
        },
{
    if !berserk || card_elements.len() != 2 {
        return points;
    }
    if (str_eq(formation_id, "weapon") && all_known_of_element(card_elements, Element::Metal)) || (
    str_eq(formation_id, AFTERIMAGE_SLASH) && all_known_of_element(card_elements, Element::Earth)) {
        points * 2
    } else {
        points
    }
}

// ---------------------------------------------------------------------------
// Trusted random hand cards.
// ---------------------------------------------------------------------------

/// The verdict on the cards trusted randomness selected from a hand.
pub enum SelectionVerdict {
    UnknownPlayer,
    SelectionRequired,
    Duplicate(CardInstanceId),
    Illegal(CardInstanceId),
    Accepted,
}

/// The card at `i` repeats an earlier one.
pub open spec fn repeats_earlier(selected: Seq<CardInstanceId>, i: int) -> bool {
    exists|j: int| 0 <= j < i && selected[j] == selected[i]
}

/// The verdict on the selected cards from position `i` on: the first that repeats an
/// earlier one or is not in the hand is refused.
pub open spec fn scan_selection(
    selected: Seq<CardInstanceId>,
    hand: Seq<CardInstanceId>,
    i: int,
) -> SelectionVerdict
    decreases selected.len() - i,
{
    if i < 0 || i >= selected.len() {
        SelectionVerdict::Accepted
    } else if repeats_earlier(selected, i) {
        SelectionVerdict::Duplicate(selected[i])
    } else if !hand.contains(selected[i]) {
        SelectionVerdict::Illegal(selected[i])
    } else {
        scan_selection(selected, hand, i + 1)
    }
}

/// The verdict on a selection: the target must have a hand, and exactly two of its
/// cards (all of them when it holds fewer) must be selected, each once.
pub open spec fn spec_selection_verdict(
    hand: Option<Seq<CardInstanceId>>,
    selected: Option<Seq<CardInstanceId>>,
) -> SelectionVerdict {
    match hand {
        None => SelectionVerdict::UnknownPlayer,
        Some(h) => match selected {
            None => SelectionVerdict::SelectionRequired,
            Some(s) => if s.len() != (if h.len() < 2 {
                h.len()
            } else {
                2
            }) {
                SelectionVerdict::SelectionRequired
            } else {
                scan_selection(s, h, 0)
            },
        },
    }
}

/// The error reported for a refused verdict.
pub open spec fn selection_error(
    e: GameError,
    verdict: SelectionVerdict,
    target: Seq<char>,
    effect_id: Seq<char>,
) -> bool {
    match verdict {
        SelectionVerdict::UnknownPlayer => e matches GameError::Validation(
            ValidationError::UnknownPlayer(p),
        ) && p@ == target,
        SelectionVerdict::SelectionRequired => e matches GameError::Validation(
            ValidationError::TrustedRandomSelectionRequired { effect_id: x },
        ) && x@ == effect_id,
        SelectionVerdict::Duplicate(c) => e == GameError::Validation(
            ValidationError::DuplicateChoiceCard(c),
        ),
        SelectionVerdict::Illegal(c) => e == GameError::Validation(
            ValidationError::IllegalChoiceCard(c),
        ),
        SelectionVerdict::Accepted => false,
    }
}

/// The view of an optional slice of cards.
pub open spec fn opt_cards(s: Option<&[CardInstanceId]>) -> Option<Seq<CardInstanceId>> {
    match s {
        Some(c) => Some(c@),
        None => None,
    }
}

fn contains_card(cards: &[CardInstanceId], card: CardInstanceId) -> (r: bool)
    ensures
        r == cards@.contains(card),
{
    let mut i: usize = 0;
    while i < cards.len()
        invariant
            i <= cards.len(),
            forall|j: int| 0 <= j < i ==> cards@[j] != card,
        decreases cards.len() - i,
    {
        if cards[i] == card {
            return true;
        }
        i = i + 1;
    }
    false
}

/// Checks the cards trusted randomness selected from the hand of `target` (its hand is
/// `hand`, `None` when the player is unknown) for the effect `effect_id`.
#[verifier::loop_isolation(false)]
pub fn validate_trusted_random_hand_cards(
    hand: Option<&[CardInstanceId]>,
    target: &crate::domain::PlayerId,
    selected: Option<&[CardInstanceId]>,
    effect_id: &str,
) -> (r: Result<Vec<CardInstanceId>, GameError>)
    ensures
        match r {
            Ok(v) => spec_selection_verdict(opt_cards(hand), opt_cards(selected))
                is Accepted && opt_cards(selected) == Some(v@),
            Err(e) => selection_error(
                e,
                spec_selection_verdict(opt_cards(hand), opt_cards(selected)),
                target@,
                effect_id@,
            ),
        },
{
    let hand = match hand {
        Some(h) => h,
        None => {
            return Err(GameError::Validation(ValidationError::UnknownPlayer(target.clone())));
        },
    };
    let selected = match selected {
        Some(s) => s,
        None => {
            return Err(
                GameError::Validation(
                    ValidationError::TrustedRandomSelectionRequired { effect_id: owned(effect_id) },
                ),
            );
        },
    };
    let required: usize = if hand.len() < 2 {
        hand.len()
    } else {
        2
    };
    if selected.len() != required {
        return Err(
            GameError::Validation(
                ValidationError::TrustedRandomSelectionRequired { effect_id: owned(effect_id) },
            ),
        );
    }
    let mut i: usize = 0;
    while i < selected.len()
        invariant
            i <= selected.len(),
            scan_selection(selected@, hand@, 0) == scan_selection(selected@, hand@, i as int),
        decreases selected.len() - i,
    {
        let card = selected[i];
        let mut j: usize = 0;
        while j < i
            invariant
                j <= i < selected.len(),
                card == selected@[i as int],
                forall|k: int| 0 <= k < j ==> selected@[k] != card,
            decreases i - j,
        {
            if selected[j] == card {
                assert(repeats_earlier(selected@, i as int));
                return Err(GameError::Validation(ValidationError::DuplicateChoiceCard(card)));
            }
            j = j + 1;
        }
        assert(!repeats_earlier(selected@, i as int));
        if !contains_card(hand, card) {
            return Err(GameError::Validation(ValidationError::IllegalChoiceCard(card)));
        }
        i = i + 1;
    }
    Ok(copy_cards(selected))
}


// ---------------------------------------------------------------------------
// Profession changes and abilities.
// ---------------------------------------------------------------------------

/// The identity and name of each profession the submitted cards change into.
pub open spec fn spec_profession_changes(
    current: Option<Seq<char>>,
    has_spirit: bool,
    facts: Seq<SubmittedCardFacts>,
) -> Seq<(Seq<char>, Seq<char>)> {
    dark_entry_table().filter_map(
        |e: CatalogEntryView|
            if spec_change_matches(current, has_spirit, e.id, facts) {
                Some((e.id, e.name))
            } else {
                None
            },
    )
}

/// The professions of the module that the submitted cards change a player holding
/// `current` into, each offered with the submitted cards; none while the module is
/// disabled.
pub fn playable_profession_changes(
    module_enabled: bool,
    current: Option<&ProfessionId>,
    has_spirit: bool,
    cards: &[CardInstanceId],
    facts: &[SubmittedCardFacts],
) -> (r: Vec<crate::rules::detail::ProfessionChangeCandidate>)
    ensures
        !module_enabled ==> r@.len() == 0,
        module_enabled ==> r@.map_values(|c: crate::rules::detail::ProfessionChangeCandidate| change_offer(c))
            == spec_profession_changes(opt_view(current), has_spirit, facts@),
        forall|i: int| 0 <= i < r@.len() ==> (#[trigger] r@[i]).cards@ == cards@
            && r@[i].detail.consequences@.len() == 0,
{
    let mut r: Vec<crate::rules::detail::ProfessionChangeCandidate> = Vec::new();
    if !module_enabled {
        return r;
    }
    let entries = profession_catalog_entries();
    let ghost table = dark_entry_table();
    let ghost f = |e: CatalogEntryView|
        if spec_change_matches(opt_view(current), has_spirit, e.id, facts@) {
            Some((e.id, e.name))
        } else {
            None
        };
    let mut k: usize = 0;
    while k < entries.len()
        invariant
            k <= entries.len(),
            entry_views(entries@) == table,
            table == dark_entry_table(),
            f == (|e: CatalogEntryView|
                if spec_change_matches(opt_view(current), has_spirit, e.id, facts@) {
                    Some((e.id, e.name))
                } else {
                    None
                }),
            r@.map_values(|c: crate::rules::detail::ProfessionChangeCandidate| change_offer(c))
                == table.take(k as int).filter_map(f),
            forall|i: int| 0 <= i < r@.len() ==> (#[trigger] r@[i]).cards@ == cards@
                && r@[i].detail.consequences@.len() == 0,
        decreases entries.len() - k,
    {
        proof {
            table.lemma_filter_map_take_succ(f, k as int);
        }
        assert(entry_views(entries@)[k as int] == entries@[k as int]@);
        let e = &entries[k];
        if change_matches(current, has_spirit, &e.id, facts) {
            let c = crate::rules::detail::ProfessionChangeCandidate {
                profession_id: e.id.clone(),
                profession_name: owned(e.name),
                cards: copy_cards(cards),
                detail: crate::rules::detail::PlayerFacingActionDetail::pending_composition(),
            };
            r.push(c);
        }
        assert(r@.map_values(|c: crate::rules::detail::ProfessionChangeCandidate| change_offer(c))
            =~= table.take(k as int + 1).filter_map(f));
        k = k + 1;
    }
    assert(table.take(entries.len() as int) =~= table);
    r
}

/// Accepts the change of a player holding `current` into `target` when the submitted
/// cards match it, and refuses it otherwise.
pub fn validate_profession_change(
    current: Option<&ProfessionId>,
    has_spirit: bool,
    target: &ProfessionId,
    facts: &[SubmittedCardFacts],
) -> (r: Result<(), GameError>)
    ensures
        r is Ok <==> spec_change_matches(opt_view(current), has_spirit, target@, facts@),
        r is Err ==> r == Err::<(), GameError>(
            GameError::Validation(
                ValidationError::ProfessionChangePatternMismatch { profession: *target },
            ),
        ),
{
    if change_matches(current, has_spirit, target, facts) {
        Ok(())
    } else {
        Err(
            GameError::Validation(
                ValidationError::ProfessionChangePatternMismatch { profession: target.clone() },
            ),
        )
    }
}

/// The player-facing effect of a Dark Glimmer ability: the Dark Spirit prepares a card
/// at a declared level.
pub open spec fn spec_ability_effect(id: Seq<char>) -> Option<ProfessionAbilityEffect> {
    if id == DARK_SPIRIT_ABILITY_ID@ {
        Some(ProfessionAbilityEffect::PrepareCardAtDeclaredLevel)
    } else {
        None
    }
}

/// The player-facing effect of a Dark Glimmer ability.
pub fn player_facing_ability_effect(id: &str) -> (r: Option<ProfessionAbilityEffect>)
    ensures
        r == spec_ability_effect(id@),
{
    if str_eq(id, DARK_SPIRIT_ABILITY_ID) {
        Some(ProfessionAbilityEffect::PrepareCardAtDeclaredLevel)
    } else {
        None
    }
}

/// The summary of a Dark Glimmer ability.
pub open spec fn spec_ability_summary(id: Seq<char>) -> Option<Seq<char>> {
    if id == "dark:dark-walking"@ {
        Some("暗行：不能轉職；施展暗黑陣法時轉為暗靈使"@)
    } else if id == DARK_SPIRIT_ABILITY_ID@ {
        Some("暗靈：將手牌降為１或２級並於本回合施展"@)
    } else if id == "dark:dark-realm"@ {
        Some("暗境：暗黑陣法不因環境無效"@)
    } else if id == BERSERK_SHADOW_ABILITY_ID@ {
        Some("狂影：金金武器與土土殘影斬點數雙倍"@)
    } else if id == "dark:demon-spirit-possession"@ {
        Some("魔靈附體：轉職時保留靈力並轉化精靈"@)
    } else if id == "dark:demon-spirit-revival"@ {
        Some("魔靈復甦：碎靈破除惡／死精靈時召回並破職"@)
    } else {
        None
    }
}

fn ability_summary(id: &str) -> (r: Option<&'static str>)
    ensures
        match r {
            Some(s) => spec_ability_summary(id@) == Some(s@),
            None => spec_ability_summary(id@) is None,
        },
{
    if str_eq(id, "dark:dark-walking") {
        Some("暗行：不能轉職；施展暗黑陣法時轉為暗靈使")
    } else if str_eq(id, DARK_SPIRIT_ABILITY_ID) {
        Some("暗靈：將手牌降為１或２級並於本回合施展")
    } else if str_eq(id, "dark:dark-realm") {
        Some("暗境：暗黑陣法不因環境無效")
    } else if str_eq(id, BERSERK_SHADOW_ABILITY_ID) {
        Some("狂影：金金武器與土土殘影斬點數雙倍")
    } else if str_eq(id, "dark:demon-spirit-possession") {
        Some("魔靈附體：轉職時保留靈力並轉化精靈")
    } else if str_eq(id, "dark:demon-spirit-revival") {
        Some("魔靈復甦：碎靈破除惡／死精靈時召回並破職")
    } else {
        None
    }
}

/// The summaries of the Dark Glimmer abilities among the abilities in effect, in order.
pub fn effective_ability_summaries(ability_ids: &[&'static str]) -> (r: Vec<&'static str>)
    ensures
        text_views(r@) == text_views(ability_ids@).filter_map(
            |a: Seq<char>| spec_ability_summary(a),
        ),
{
    let ghost ids = text_views(ability_ids@);
    let ghost f = |a: Seq<char>| spec_ability_summary(a);
    let mut r: Vec<&'static str> = Vec::new();
    let mut k: usize = 0;
    while k < ability_ids.len()
        invariant
            k <= ability_ids.len(),
            ids == text_views(ability_ids@),
            f == (|a: Seq<char>| spec_ability_summary(a)),
            text_views(r@) == ids.take(k as int).filter_map(f),
        decreases ability_ids.len() - k,
    {
        proof {
            ids.lemma_filter_map_take_succ(f, k as int);
        }
        match ability_summary(ability_ids[k]) {
            Some(s) => {
                r.push(s);
            },
            None => {},
        }
        assert(text_views(r@) =~= ids.take(k as int + 1).filter_map(f));
        k = k + 1;
    }
    assert(ids.take(ability_ids.len() as int) =~= ids);
    r
}

/// The name and rule text of each formation a player holding `profession`, whose line is
/// `lineage`, may use, in catalog order.
pub open spec fn spec_formation_summaries(profession: Seq<char>, lineage: Seq<ProfessionId>) -> Seq<
    (Seq<char>, Seq<char>),
> {
    dark_formation_table().filter_map(
        |s: SpecView|
            if spec_can_use_profession_formation(Some(profession), lineage, s.formation.id) {
                Some((s.formation.name, s.formation.rule_text))
            } else {
                None
            },
    )
}

/// The name and rule text of each formation a player holding `profession` may use.
pub fn profession_formation_summaries(profession: &ProfessionId, lineage: &[ProfessionId]) -> (r:
    Vec<(String, String)>)
    ensures
        pair_views(r@) == spec_formation_summaries(profession@, lineage@),
{
    let specs = formation_specs();
    let ghost table = dark_formation_table();
    let ghost f = |s: SpecView|
        if spec_can_use_profession_formation(Some(profession@), lineage@, s.formation.id) {
            Some((s.formation.name, s.formation.rule_text))
        } else {
            None
        };
    let mut r: Vec<(String, String)> = Vec::new();
    let mut k: usize = 0;
    while k < specs.len()
        invariant
            k <= specs.len(),
            spec_views(specs@) == table,
            table == dark_formation_table(),
            f == (|s: SpecView|
                if spec_can_use_profession_formation(Some(profession@), lineage@, s.formation.id) {
                    Some((s.formation.name, s.formation.rule_text))
                } else {
                    None
                }),
            pair_views(r@) == table.take(k as int).filter_map(f),
        decreases specs.len() - k,
    {
        proof {
            table.lemma_filter_map_take_succ(f, k as int);
        }
        assert(spec_views(specs@)[k as int] == specs@[k as int]@);
        let formation = &specs[k].formation;
        if can_use_profession_formation(Some(profession), lineage, formation.id.as_str()) {
            r.push((formation.name.clone(), formation.rule_text.clone()));
        }
        assert(pair_views(r@) =~= table.take(k as int + 1).filter_map(f));
        k = k + 1;
    }
    assert(table.take(specs.len() as int) =~= table);
    r
}


/// The levels the Dark Spirit may declare for a card of `level`: one and two, those
/// below the card's level.
pub open spec fn dark_spirit_levels(level: int) -> Seq<u32> {
    if level > 2 {
        seq![1u32, 2u32]
    } else if level > 1 {
        seq![1u32]
    } else {
        seq![]
    }
}

/// A Dark Spirit candidate for the card `card`, declaring `level` and `element`.
pub open spec fn is_dark_spirit_candidate(
    c: crate::rules::detail::ProfessionAbilityCandidate,
    cards: Seq<CardInstanceId>,
    element: Option<Element>,
    level: u32,
) -> bool {
    &&& c.ability_id@ == DARK_SPIRIT_ABILITY_ID@
    &&& c.ability_name@ == "暗靈"@
    &&& c.cards@ == cards
    &&& c.target_card == Some(cards[0])
    &&& c.declared_element == element
    &&& c.declared_level == Some(level)
    &&& c.input_requirement is None
    &&& c.detail.consequences@.len() == 0
}

/// One card submitted, the ability not yet activated this turn, and the Dark Spirit
/// among the abilities in effect.
pub open spec fn dark_spirit_gate(cards: Seq<CardInstanceId>, activated: bool, has: bool) -> bool {
    cards.len() == 1 && !activated && has
}

/// The hand is known and holds the first submitted card.
pub open spec fn hand_holds_first(hand: Option<Seq<CardInstanceId>>, cards: Seq<CardInstanceId>) -> bool {
    match hand {
        Some(h) => h.contains(cards[0]),
        None => false,
    }
}

/// A card's level, one when unknown.
pub open spec fn level_or_one(level: Option<u32>) -> int {
    match level {
        Some(l) => l as int,
        None => 1,
    }
}

/// One Dark Spirit candidate for each level it may declare, in increasing order.
pub open spec fn offered_candidates(
    v: Seq<crate::rules::detail::ProfessionAbilityCandidate>,
    cards: Seq<CardInstanceId>,
    element: Option<Element>,
    level: int,
) -> bool {
    &&& v.len() == dark_spirit_levels(level).len()
    &&& forall|i: int|
        0 <= i < v.len() ==> is_dark_spirit_candidate(
            #[trigger] v[i],
            cards,
            element,
            dark_spirit_levels(level)[i],
        )
}

/// The error for an unknown player, or for a card not in the hand.
pub open spec fn dark_spirit_error(
    e: GameError,
    hand: Option<Seq<CardInstanceId>>,
    cards: Seq<CardInstanceId>,
    player: Seq<char>,
) -> bool {
    match hand {
        None => e matches GameError::Validation(ValidationError::UnknownPlayer(p)) && p@ == player,
        Some(h) => !h.contains(cards[0]) && e == GameError::Validation(
            ValidationError::CardNotInHand(cards[0]),
        ),
    }
}

fn dark_spirit_candidate(cards: &[CardInstanceId], element: Option<Element>, level: u32) -> (r:
    crate::rules::detail::ProfessionAbilityCandidate)
    requires
        cards.len() == 1,
    ensures
        is_dark_spirit_candidate(r, cards@, element, level),
{
    crate::rules::detail::ProfessionAbilityCandidate {
        ability_id: owned(DARK_SPIRIT_ABILITY_ID),
        ability_name: owned("暗靈"),
        cards: copy_cards(cards),
        target_card: Some(cards[0]),
        declared_element: element,
        declared_level: Some(level),
        input_requirement: None,
        detail: crate::rules::detail::PlayerFacingActionDetail::pending_composition(),
    }
}

/// The Dark Spirit candidates for the submitted cards of `player`: one card, an ability
/// not yet activated this turn, a profession whose abilities include the Dark Spirit, and
/// a card in the player's hand (`hand`, `None` when the player is unknown); the card's
/// level is `card_level` (one when unknown) and its printed element `card_element`.
pub fn playable_profession_abilities(
    player: &crate::domain::PlayerId,
    cards: &[CardInstanceId],
    activated_this_turn: bool,
    has_dark_spirit: bool,
    hand: Option<&[CardInstanceId]>,
    card_level: Option<u32>,
    card_element: Option<Element>,
) -> (r: Result<Vec<crate::rules::detail::ProfessionAbilityCandidate>, GameError>)
    ensures
        match r {
            Ok(v) => if dark_spirit_gate(cards@, activated_this_turn, has_dark_spirit) {
                hand_holds_first(opt_cards(hand), cards@) && offered_candidates(
                    v@,
                    cards@,
                    card_element,
                    level_or_one(card_level),
                )
            } else {
                v@.len() == 0
            },
            Err(e) => dark_spirit_gate(cards@, activated_this_turn, has_dark_spirit)
                && dark_spirit_error(e, opt_cards(hand), cards@, player@),
        },
{
    let mut v: Vec<crate::rules::detail::ProfessionAbilityCandidate> = Vec::new();
    if cards.len() != 1 || activated_this_turn || !has_dark_spirit {
        return Ok(v);
    }
    let hand = match hand {
        Some(h) => h,
        None => {
            return Err(GameError::Validation(ValidationError::UnknownPlayer(player.clone())));
        },
    };
    if !contains_card(hand, cards[0]) {
        return Err(GameError::Validation(ValidationError::CardNotInHand(cards[0])));
    }
    let level: u32 = match card_level {
        Some(l) => l,
        None => 1,
    };
    if 1 < level {
        v.push(dark_spirit_candidate(cards, card_element, 1));
    }
    if 2 < level {
        v.push(dark_spirit_candidate(cards, card_element, 2));
    }
    Ok(v)
}

} // verus!
