//! The base rules' formations, the Five Directions Legend formations, and the
//! matcher that knows every published custom pattern.
use crate::domain::{Element, owned, str_eq};
use crate::rules::detail::{FormationCategory, FormationEffect};
use crate::rules::matcher::{CustomMatcher, FormationMatcher, FormationPattern, PatternView, SubmittedCardFacts, lookup_custom, spec_custom};
use crate::rules::registry::{
    AttackCategory, AttackPlanDef, BaseFormationSpec, DamageTarget, EffectDef, EffectDefView,
    EffectPlan, EffectPlanView, FormationDef, FormationDefView, FormationRegistry, PointFormula,
    SpecView, SpellPlanDef, registry_error,
};
use vstd::prelude::*;
use vstd::string::StringExecFns;

verus! {

/// Whether a spell waits face down for its trigger or resolves at once.
#[derive(Clone, Copy, Debug, PartialEq, Eq, Structural)]
pub enum SpellTiming {
    Active,
    Passive,
}

// ---------------------------------------------------------------------------
// Tables.
// ---------------------------------------------------------------------------

/// The printed rule text of a base formation.
pub open spec fn spec_base_rule_text(id: Seq<char>) -> Option<Seq<char>> {
    if id == "metal-strike"@ {
        Some("金行攻擊，點數＝等級＋４"@)
    } else if id == "wood-strike"@ {
        Some("木行攻擊，點數＝等級＋４"@)
    } else if id == "water-strike"@ {
        Some("水行攻擊，點數＝等級＋４"@)
    } else if id == "fire-strike"@ {
        Some("火行攻擊，點數＝等級＋４"@)
    } else if id == "earth-strike"@ {
        Some("土行攻擊，點數＝等級＋４"@)
    } else if id == "weapon"@ {
        Some("物理攻擊，點數＝等級總和×２"@)
    } else if id == "defense"@ {
        Some("被動術式，反制：下家下回合攻擊之傷害無效"@)
    } else if id == "seal"@ {
        Some("被動術式，反制：下家下回合術式無效"@)
    } else if id == "countershock"@ {
        Some("被動術式，反制：下家下回合攻擊之傷害由目標與施展者平分"@)
    } else if id == "metamorphosis"@ {
        Some("主動術式，複製上家上回合施展之基礎規則陣法之類別與效果"@)
    } else if id == "empty-city"@ {
        Some("被動術式，無效果"@)
    } else if id == "triple-metal"@ {
        Some("金行攻擊，點數＝等級總和×３"@)
    } else if id == "triple-wood"@ {
        Some("木行攻擊，點數＝等級總和×３"@)
    } else if id == "triple-water"@ {
        Some("水行攻擊，點數＝等級總和×３"@)
    } else if id == "triple-fire"@ {
        Some("火行攻擊，點數＝等級總和×３"@)
    } else if id == "triple-earth"@ {
        Some("土行攻擊，點數＝等級總和×３"@)
    } else if id == "generating-formation"@ {
        Some("主動術式，回復生命值，點數＝等級總和×３"@)
    } else if id == "overcoming-formation"@ {
        Some("主動術式，扣除下家防護罩，點數＝等級總和×３"@)
    } else if id == "radiance"@ {
        Some("主動術式，檢視下家手牌，下家無法行動及抽牌２回合"@)
    } else if id == "barrier"@ {
        Some("主動術式，建構防護罩，點數＝等級總和×４"@)
    } else if id == "return-to-origin"@ {
        Some("主動術式，回復生命值，點數＝等級總和×４"@)
    } else if id == "shock-burst"@ {
        Some("物理攻擊，點數＝等級總和×４"@)
    } else if id == "chaos"@ {
        Some("主動術式，檢視下家手牌，將其中兩張放回牌堆最上方"@)
    } else if id == "five-elements-cycle"@ {
        Some("主動術式，雙方生命值交換"@)
    } else if id == "five-streams-unite"@ {
        Some("特殊攻擊，點數＝目標手牌數×１５，本回合抽牌＋１"@)
    } else {
        None
    }
}

/// The printed rule text of a base formation.
pub fn base_formation_rule_text(id: &str) -> (r: &'static str)
    requires
        spec_base_rule_text(id@) is Some,
    ensures
        spec_base_rule_text(id@) == Some(r@),
{
    if str_eq(id, "metal-strike") {
        "金行攻擊，點數＝等級＋４"
    } else if str_eq(id, "wood-strike") {
        "木行攻擊，點數＝等級＋４"
    } else if str_eq(id, "water-strike") {
        "水行攻擊，點數＝等級＋４"
    } else if str_eq(id, "fire-strike") {
        "火行攻擊，點數＝等級＋４"
    } else if str_eq(id, "earth-strike") {
        "土行攻擊，點數＝等級＋４"
    } else if str_eq(id, "weapon") {
        "物理攻擊，點數＝等級總和×２"
    } else if str_eq(id, "defense") {
        "被動術式，反制：下家下回合攻擊之傷害無效"
    } else if str_eq(id, "seal") {
        "被動術式，反制：下家下回合術式無效"
    } else if str_eq(id, "countershock") {
        "被動術式，反制：下家下回合攻擊之傷害由目標與施展者平分"
    } else if str_eq(id, "metamorphosis") {
        "主動術式，複製上家上回合施展之基礎規則陣法之類別與效果"
    } else if str_eq(id, "empty-city") {
        "被動術式，無效果"
    } else if str_eq(id, "triple-metal") {
        "金行攻擊，點數＝等級總和×３"
    } else if str_eq(id, "triple-wood") {
        "木行攻擊，點數＝等級總和×３"
    } else if str_eq(id, "triple-water") {
        "水行攻擊，點數＝等級總和×３"
    } else if str_eq(id, "triple-fire") {
        "火行攻擊，點數＝等級總和×３"
    } else if str_eq(id, "triple-earth") {
        "土行攻擊，點數＝等級總和×３"
    } else if str_eq(id, "generating-formation") {
        "主動術式，回復生命值，點數＝等級總和×３"
    } else if str_eq(id, "overcoming-formation") {
        "主動術式，扣除下家防護罩，點數＝等級總和×３"
    } else if str_eq(id, "radiance") {
        "主動術式，檢視下家手牌，下家無法行動及抽牌２回合"
    } else if str_eq(id, "barrier") {
        "主動術式，建構防護罩，點數＝等級總和×４"
    } else if str_eq(id, "return-to-origin") {
        "主動術式，回復生命值，點數＝等級總和×４"
    } else if str_eq(id, "shock-burst") {
        "物理攻擊，點數＝等級總和×４"
    } else if str_eq(id, "chaos") {
        "主動術式，檢視下家手牌，將其中兩張放回牌堆最上方"
    } else if str_eq(id, "five-elements-cycle") {
        "主動術式，雙方生命值交換"
    } else {
        "特殊攻擊，點數＝目標手牌數×１５，本回合抽牌＋１"
    }
}

/// The player-facing effect of a base spell.
pub open spec fn spec_base_spell_effect(id: Seq<char>) -> Option<FormationEffect> {
    if id == "defense"@ || id == "seal"@ || id == "countershock"@ || id == "empty-city"@ {
        Some(FormationEffect::CoverCounter)
    } else if id == "metamorphosis"@ {
        Some(FormationEffect::CopyPreviousTurnFormation)
    } else if id == "generating-formation"@ || id == "return-to-origin"@ || id
        == "reincarnation"@ {
        Some(FormationEffect::RecoverHp)
    } else if id == "overcoming-formation"@ {
        Some(FormationEffect::ReduceShield)
    } else if id == "radiance"@ || id == "chaos"@ {
        Some(FormationEffect::InspectHand)
    } else if id == "barrier"@ || id == "purple-light-shield"@ {
        Some(FormationEffect::CreateShield)
    } else if id == "five-elements-cycle"@ {
        Some(FormationEffect::ReturnTeamHp)
    } else if id == "shadow-assault"@ || id == "instant-shadow-death"@ || id == "holy-wind"@ {
        Some(FormationEffect::ApplyStatus)
    } else {
        None
    }
}

/// The player-facing effect of a base spell.
pub fn base_spell_player_facing_effect(id: &str) -> (r: FormationEffect)
    requires
        spec_base_spell_effect(id@) is Some,
    ensures
        spec_base_spell_effect(id@) == Some(r),
{
    if str_eq(id, "defense") || str_eq(id, "seal") || str_eq(id, "countershock") || str_eq(
        id,
        "empty-city",
    ) {
        FormationEffect::CoverCounter
    } else if str_eq(id, "metamorphosis") {
        FormationEffect::CopyPreviousTurnFormation
    } else if str_eq(id, "generating-formation") || str_eq(id, "return-to-origin") || str_eq(
        id,
        "reincarnation",
    ) {
        FormationEffect::RecoverHp
    } else if str_eq(id, "overcoming-formation") {
        FormationEffect::ReduceShield
    } else if str_eq(id, "radiance") || str_eq(id, "chaos") {
        FormationEffect::InspectHand
    } else if str_eq(id, "barrier") || str_eq(id, "purple-light-shield") {
        FormationEffect::CreateShield
    } else if str_eq(id, "five-elements-cycle") {
        FormationEffect::ReturnTeamHp
    } else {
        FormationEffect::ApplyStatus
    }
}

// ---------------------------------------------------------------------------
// Builders.
// ---------------------------------------------------------------------------

/// The view of an attack formation built by the base rules.
pub open spec fn spec_attack(
    id: Seq<char>,
    name: Seq<char>,
    category: AttackCategory,
    pattern: PatternView,
    formula: PointFormula,
) -> SpecView {
    SpecView {
        formation: FormationDefView {
            id,
            name,
            rule_text: spec_base_rule_text(id).unwrap(),
            category: FormationCategory::Attack,
            pattern,
            effect_id: id,
            point_formula: formula,
        },
        effect: EffectDefView {
            id,
            plan: EffectPlanView::Attack(
                AttackPlanDef {
                    category,
                    point_formula: formula,
                    damage_target: DamageTarget::PreviousPlayer,
                },
            ),
        },
    }
}

/// The view of an elemental attack needing `count` cards of its element.
pub open spec fn spec_elemental(
    id: Seq<char>,
    name: Seq<char>,
    element: Element,
    count: nat,
    formula: PointFormula,
) -> SpecView {
    spec_attack(
        id,
        name,
        AttackCategory::Elemental(element),
        PatternView::ExactElements(Seq::new(count, |i: int| element)),
        formula,
    )
}

/// The view of a spell formation built by the base rules.
pub open spec fn spec_spell(
    id: Seq<char>,
    name: Seq<char>,
    timing: SpellTiming,
    pattern: PatternView,
) -> SpecView {
    SpecView {
        formation: FormationDefView {
            id,
            name,
            rule_text: spec_base_rule_text(id).unwrap(),
            category: FormationCategory::Spell,
            pattern,
            effect_id: id,
            point_formula: PointFormula::Fixed(0),
        },
        effect: EffectDefView {
            id,
            plan: match timing {
                SpellTiming::Active => EffectPlanView::ActiveSpell {
                    resolver_id: id,
                    effect: spec_base_spell_effect(id).unwrap(),
                },
                SpellTiming::Passive => EffectPlanView::PassiveSpell {
                    resolver_id: id,
                    effect: spec_base_spell_effect(id).unwrap(),
                },
            },
        },
    }
}

/// A list holding `count` copies of an element.
pub fn repeat_element(element: Element, count: usize) -> (r: Vec<Element>)
    ensures
        r@ == Seq::new(count as nat, |i: int| element),
{
    let mut r: Vec<Element> = Vec::new();
    let mut i: usize = 0;
    while i < count
        invariant
            i <= count,
            r@ == Seq::new(i as nat, |j: int| element),
        decreases count - i,
    {
        r.push(element);
        assert(r@ =~= Seq::new((i + 1) as nat, |j: int| element));
        i = i + 1;
    }
    r
}

fn attack(
    id: &str,
    name: &str,
    category: AttackCategory,
    pattern: FormationPattern,
    point_formula: PointFormula,
) -> (r: BaseFormationSpec)
    requires
        spec_base_rule_text(id@) is Some,
    ensures
        r@ == spec_attack(id@, name@, category, pattern@, point_formula),
{
    let formation = FormationDef {
        id: owned(id),
        name: owned(name),
        rule_text: owned(base_formation_rule_text(id)),
        category: FormationCategory::Attack,
        pattern,
        effect_id: owned(id),
        point_formula,
    };
    let effect = EffectDef {
        id: owned(id),
        plan: EffectPlan::Attack(
            AttackPlanDef { category, point_formula, damage_target: DamageTarget::PreviousPlayer },
        ),
    };
    BaseFormationSpec { formation, effect }
}

fn elemental_attack(
    id: &str,
    name: &str,
    element: Element,
    count: usize,
    point_formula: PointFormula,
) -> (r: BaseFormationSpec)
    requires
        spec_base_rule_text(id@) is Some,
    ensures
        r@ == spec_elemental(id@, name@, element, count as nat, point_formula),
{
    attack(
        id,
        name,
        AttackCategory::Elemental(element),
        FormationPattern::ExactElements(repeat_element(element, count)),
        point_formula,
    )
}

fn spell(id: &str, name: &str, timing: SpellTiming, pattern: FormationPattern) -> (r:
    BaseFormationSpec)
    requires
        spec_base_rule_text(id@) is Some,
        spec_base_spell_effect(id@) is Some,
    ensures
        r@ == spec_spell(id@, name@, timing, pattern@),
{
    let formation = FormationDef {
        id: owned(id),
        name: owned(name),
        rule_text: owned(base_formation_rule_text(id)),
        category: FormationCategory::Spell,
        pattern,
        effect_id: owned(id),
        point_formula: PointFormula::Fixed(0),
    };
    let plan = match timing {
        SpellTiming::Active => EffectPlan::ActiveSpell(
            SpellPlanDef {
                resolver_id: owned(id),
                player_facing_effect: base_spell_player_facing_effect(id),
            },
        ),
        SpellTiming::Passive => EffectPlan::PassiveSpell(
            SpellPlanDef {
                resolver_id: owned(id),
                player_facing_effect: base_spell_player_facing_effect(id),
            },
        ),
    };
    BaseFormationSpec { formation, effect: EffectDef { id: owned(id), plan } }
}

fn elements4(a: Element, b: Element, c: Element, d: Element) -> (r: FormationPattern)
    ensures
        r@ == PatternView::ExactElements(seq![a, b, c, d]),
{
    let v = vec![a, b, c, d];
    assert(v@ =~= seq![a, b, c, d]);
    FormationPattern::ExactElements(v)
}

fn elements2(a: Element, b: Element) -> (r: FormationPattern)
    ensures
        r@ == PatternView::ExactElements(seq![a, b]),
{
    let v = vec![a, b];
    assert(v@ =~= seq![a, b]);
    FormationPattern::ExactElements(v)
}

fn custom(id: &str) -> (r: FormationPattern)
    ensures
        r@ == PatternView::Custom(id@),
{
    FormationPattern::Custom(owned(id))
}

/// The views of the published base formations, in rulebook order.
pub open spec fn base_spec_table() -> Seq<SpecView> {
    seq![
        spec_elemental("metal-strike"@, "金擊術"@, Element::Metal, 1, PointFormula::LevelPlus(4)),
        spec_elemental("wood-strike"@, "木擊術"@, Element::Wood, 1, PointFormula::LevelPlus(4)),
        spec_elemental("water-strike"@, "水擊術"@, Element::Water, 1, PointFormula::LevelPlus(4)),
        spec_elemental("fire-strike"@, "火擊術"@, Element::Fire, 1, PointFormula::LevelPlus(4)),
        spec_elemental("earth-strike"@, "土擊術"@, Element::Earth, 1, PointFormula::LevelPlus(4)),
        spec_attack(
            "weapon"@,
            "武器"@,
            AttackCategory::Physical,
            PatternView::ExactElements(seq![Element::Metal, Element::Metal]),
            PointFormula::LevelSumTimes(2),
        ),
        spec_spell(
            "defense"@,
            "防禦"@,
            SpellTiming::Passive,
            PatternView::ExactElements(seq![Element::Wood, Element::Wood]),
        ),
        spec_spell(
            "seal"@,
            "封印"@,
            SpellTiming::Passive,
            PatternView::ExactElements(seq![Element::Water, Element::Water]),
        ),
        spec_spell(
            "countershock"@,
            "反震"@,
            SpellTiming::Passive,
            PatternView::ExactElements(seq![Element::Fire, Element::Fire]),
        ),
        spec_spell(
            "metamorphosis"@,
            "幻化"@,
            SpellTiming::Active,
            PatternView::ExactElements(seq![Element::Earth, Element::Earth]),
        ),
        spec_spell(
            "empty-city"@,
            "空城"@,
            SpellTiming::Passive,
            PatternView::Custom("two-different-elements"@),
        ),
        spec_elemental("triple-metal"@, "鍠金"@, Element::Metal, 3, PointFormula::LevelSumTimes(3)),
        spec_elemental("triple-wood"@, "樸木"@, Element::Wood, 3, PointFormula::LevelSumTimes(3)),
        spec_elemental("triple-water"@, "洄水"@, Element::Water, 3, PointFormula::LevelSumTimes(3)),
        spec_elemental("triple-fire"@, "熾火"@, Element::Fire, 3, PointFormula::LevelSumTimes(3)),
        spec_elemental("triple-earth"@, "坱土"@, Element::Earth, 3, PointFormula::LevelSumTimes(3)),
        spec_spell(
            "generating-formation"@,
            "生陣"@,
            SpellTiming::Active,
            PatternView::GeneratingSequence { length: 3 },
        ),
        spec_spell(
            "overcoming-formation"@,
            "剋陣"@,
            SpellTiming::Active,
            PatternView::OvercomingSequence { length: 3 },
        ),
        spec_spell(
            "radiance"@,
            "光芒"@,
            SpellTiming::Active,
            PatternView::ExactElements(seq![Element::Metal, Element::Metal, Element::Fire, Element::Water]),
        ),
        spec_spell(
            "barrier"@,
            "氣壁"@,
            SpellTiming::Active,
            PatternView::ExactElements(seq![Element::Wood, Element::Wood, Element::Metal, Element::Fire]),
        ),
        spec_spell(
            "return-to-origin"@,
            "歸元"@,
            SpellTiming::Active,
            PatternView::ExactElements(seq![Element::Water, Element::Water, Element::Earth, Element::Wood]),
        ),
        spec_attack(
            "shock-burst"@,
            "震暴"@,
            AttackCategory::Physical,
            PatternView::ExactElements(seq![Element::Fire, Element::Fire, Element::Water, Element::Earth]),
            PointFormula::LevelSumTimes(4),
        ),
        spec_spell(
            "chaos"@,
            "混沌"@,
            SpellTiming::Active,
            PatternView::ExactElements(seq![Element::Earth, Element::Earth, Element::Wood, Element::Metal]),
        ),
        spec_spell(
            "five-elements-cycle"@,
            "五行輪迴"@,
            SpellTiming::Active,
            PatternView::ExactElements(
                seq![Element::Metal, Element::Wood, Element::Water, Element::Fire, Element::Earth],
            ),
        ),
        spec_attack(
            "five-streams-unite"@,
            "五流歸一"@,
            AttackCategory::Special,
            PatternView::Custom("five-same-level"@),
            PointFormula::TargetHandCountTimes(15),
        ),
    ]
}

/// The views of a list of formation specs.
pub open spec fn spec_views(s: Seq<BaseFormationSpec>) -> Seq<SpecView> {
    s.map_values(|x: BaseFormationSpec| x@)
}

/// The twenty-five published base formations, in rulebook order.
pub fn base_specs() -> (r: Vec<BaseFormationSpec>)
    ensures
        spec_views(r@) == base_spec_table(),
{
    let v = vec![
        elemental_attack("metal-strike", "金擊術", Element::Metal, 1, PointFormula::LevelPlus(4)),
        elemental_attack("wood-strike", "木擊術", Element::Wood, 1, PointFormula::LevelPlus(4)),
        elemental_attack("water-strike", "水擊術", Element::Water, 1, PointFormula::LevelPlus(4)),
        elemental_attack("fire-strike", "火擊術", Element::Fire, 1, PointFormula::LevelPlus(4)),
        elemental_attack("earth-strike", "土擊術", Element::Earth, 1, PointFormula::LevelPlus(4)),
        attack(
            "weapon",
            "武器",
            AttackCategory::Physical,
            elements2(Element::Metal, Element::Metal),
            PointFormula::LevelSumTimes(2),
        ),
        spell("defense", "防禦", SpellTiming::Passive, elements2(Element::Wood, Element::Wood)),
        spell("seal", "封印", SpellTiming::Passive, elements2(Element::Water, Element::Water)),
        spell("countershock", "反震", SpellTiming::Passive, elements2(Element::Fire, Element::Fire)),
        spell("metamorphosis", "幻化", SpellTiming::Active, elements2(Element::Earth, Element::Earth)),
        spell("empty-city", "空城", SpellTiming::Passive, custom("two-different-elements")),
        elemental_attack("triple-metal", "鍠金", Element::Metal, 3, PointFormula::LevelSumTimes(3)),
        elemental_attack("triple-wood", "樸木", Element::Wood, 3, PointFormula::LevelSumTimes(3)),
        elemental_attack("triple-water", "洄水", Element::Water, 3, PointFormula::LevelSumTimes(3)),
        elemental_attack("triple-fire", "熾火", Element::Fire, 3, PointFormula::LevelSumTimes(3)),
        elemental_attack("triple-earth", "坱土", Element::Earth, 3, PointFormula::LevelSumTimes(3)),
        spell(
            "generating-formation",
            "生陣",
            SpellTiming::Active,
            FormationPattern::GeneratingSequence { length: 3 },
        ),
        spell(
            "overcoming-formation",
            "剋陣",
            SpellTiming::Active,
            FormationPattern::OvercomingSequence { length: 3 },
        ),
        spell(
            "radiance",
            "光芒",
            SpellTiming::Active,
            elements4(Element::Metal, Element::Metal, Element::Fire, Element::Water),
        ),
        spell(
            "barrier",
            "氣壁",
            SpellTiming::Active,
            elements4(Element::Wood, Element::Wood, Element::Metal, Element::Fire),
        ),
        spell(
            "return-to-origin",
            "歸元",
            SpellTiming::Active,
            elements4(Element::Water, Element::Water, Element::Earth, Element::Wood),
        ),
        attack(
            "shock-burst",
            "震暴",
            AttackCategory::Physical,
            elements4(Element::Fire, Element::Fire, Element::Water, Element::Earth),
            PointFormula::LevelSumTimes(4),
        ),
        spell(
            "chaos",
            "混沌",
            SpellTiming::Active,
            elements4(Element::Earth, Element::Earth, Element::Wood, Element::Metal),
        ),
        spell("five-elements-cycle", "五行輪迴", SpellTiming::Active, five_elements()),
        attack(
            "five-streams-unite",
            "五流歸一",
            AttackCategory::Special,
            custom("five-same-level"),
            PointFormula::TargetHandCountTimes(15),
        ),
    ];
    assert(spec_views(v@) =~= base_spec_table());
    v
}

fn five_elements() -> (r: FormationPattern)
    ensures
        r@ == PatternView::ExactElements(
            seq![Element::Metal, Element::Wood, Element::Water, Element::Fire, Element::Earth],
        ),
{
    let v = vec![Element::Metal, Element::Wood, Element::Water, Element::Fire, Element::Earth];
    assert(v@ =~= seq![Element::Metal, Element::Wood, Element::Water, Element::Fire, Element::Earth]);
    FormationPattern::ExactElements(v)
}


// ---------------------------------------------------------------------------
// Five Directions Legend.
// ---------------------------------------------------------------------------

/// The element a sacred beast formation transfers the environment to.
pub open spec fn spec_sacred_beast_element(id: Seq<char>) -> Option<Element> {
    if id == "east-azure-dragon"@ {
        Some(Element::Wood)
    } else if id == "west-white-tiger"@ {
        Some(Element::Metal)
    } else if id == "south-vermilion-bird"@ {
        Some(Element::Fire)
    } else if id == "north-black-tortoise"@ {
        Some(Element::Water)
    } else if id == "center-yellow-serpent"@ {
        Some(Element::Earth)
    } else {
        None
    }
}

/// The element a sacred beast formation transfers the environment to.
pub fn sacred_beast_element(formation_id: &str) -> (r: Option<Element>)
    ensures
        r == spec_sacred_beast_element(formation_id@),
{
    if str_eq(formation_id, "east-azure-dragon") {
        Some(Element::Wood)
    } else if str_eq(formation_id, "west-white-tiger") {
        Some(Element::Metal)
    } else if str_eq(formation_id, "south-vermilion-bird") {
        Some(Element::Fire)
    } else if str_eq(formation_id, "north-black-tortoise") {
        Some(Element::Water)
    } else if str_eq(formation_id, "center-yellow-serpent") {
        Some(Element::Earth)
    } else {
        None
    }
}

/// The printed name of an element within a rule text.
pub open spec fn spec_element_word(e: Element) -> Seq<char> {
    match e {
        Element::Metal => "金"@,
        Element::Wood => "木"@,
        Element::Water => "水"@,
        Element::Fire => "火"@,
        Element::Earth => "土"@,
    }
}

fn element_word(e: Element) -> (r: &'static str)
    ensures
        r@ == spec_element_word(e),
{
    match e {
        Element::Metal => "金",
        Element::Wood => "木",
        Element::Water => "水",
        Element::Fire => "火",
        Element::Earth => "土",
    }
}

/// The clause every sacred beast's rule text ends with.
pub const SACRED_BEAST_RULE_SUFFIX: &'static str = "行攻擊，點數＝８１，傷害後轉移環境，本陣法不受其他陣法效果影響";

/// The view of a sacred beast: five cards of its element, an elemental attack of 81.
pub open spec fn spec_sacred_beast(id: Seq<char>, name: Seq<char>, element: Element) -> SpecView {
    SpecView {
        formation: FormationDefView {
            id,
            name,
            rule_text: spec_element_word(element) + SACRED_BEAST_RULE_SUFFIX@,
            category: FormationCategory::Attack,
            pattern: PatternView::ExactElements(Seq::new(5, |i: int| element)),
            effect_id: id,
            point_formula: PointFormula::Fixed(81),
        },
        effect: EffectDefView {
            id,
            plan: EffectPlanView::Attack(
                AttackPlanDef {
                    category: AttackCategory::Elemental(element),
                    point_formula: PointFormula::Fixed(81),
                    damage_target: DamageTarget::PreviousPlayer,
                },
            ),
        },
    }
}

fn sacred_beast(id: &str, name: &str, element: Element) -> (r: BaseFormationSpec)
    ensures
        r@ == spec_sacred_beast(id@, name@, element),
{
    let formation = FormationDef {
        id: owned(id),
        name: owned(name),
        rule_text: owned(element_word(element)).concat(SACRED_BEAST_RULE_SUFFIX),
        category: FormationCategory::Attack,
        pattern: FormationPattern::ExactElements(repeat_element(element, 5)),
        effect_id: owned(id),
        point_formula: PointFormula::Fixed(81),
    };
    let effect = EffectDef {
        id: owned(id),
        plan: EffectPlan::Attack(
            AttackPlanDef {
                category: AttackCategory::Elemental(element),
                point_formula: PointFormula::Fixed(81),
                damage_target: DamageTarget::PreviousPlayer,
            },
        ),
    };
    BaseFormationSpec { formation, effect }
}

/// The view of Void Meridian Severing: three cards of one level, clearing the environment.
pub open spec fn spec_void_meridian_severing() -> SpecView {
    SpecView {
        formation: FormationDefView {
            id: "void-meridian-severing"@,
            name: "虛空斷脈術"@,
            rule_text: "主動術式，破除環境，環境被破除時雙方扣除２０點生命"@,
            category: FormationCategory::Spell,
            pattern: PatternView::Custom("three-same-level"@),
            effect_id: "void-meridian-severing"@,
            point_formula: PointFormula::Fixed(0),
        },
        effect: EffectDefView {
            id: "void-meridian-severing"@,
            plan: EffectPlanView::ActiveSpell {
                resolver_id: "void-meridian-severing"@,
                effect: FormationEffect::ClearEnvironment,
            },
        },
    }
}

/// The views of the Five Directions Legend formations.
pub open spec fn five_directions_table() -> Seq<SpecView> {
    seq![
        spec_sacred_beast("east-azure-dragon"@, "東‧青龍"@, Element::Wood),
        spec_sacred_beast("west-white-tiger"@, "西‧白虎"@, Element::Metal),
        spec_sacred_beast("south-vermilion-bird"@, "南‧朱雀"@, Element::Fire),
        spec_sacred_beast("north-black-tortoise"@, "北‧玄武"@, Element::Water),
        spec_sacred_beast("center-yellow-serpent"@, "中‧黃蛇"@, Element::Earth),
        spec_void_meridian_severing(),
    ]
}

/// The five sacred beasts and Void Meridian Severing.
pub fn five_directions_legend_specs() -> (r: Vec<BaseFormationSpec>)
    ensures
        spec_views(r@) == five_directions_table(),
{
    let severing = BaseFormationSpec {
        formation: FormationDef {
            id: owned("void-meridian-severing"),
            name: owned("虛空斷脈術"),
            rule_text: owned("主動術式，破除環境，環境被破除時雙方扣除２０點生命"),
            category: FormationCategory::Spell,
            pattern: custom("three-same-level"),
            effect_id: owned("void-meridian-severing"),
            point_formula: PointFormula::Fixed(0),
        },
        effect: EffectDef {
            id: owned("void-meridian-severing"),
            plan: EffectPlan::ActiveSpell(
                SpellPlanDef {
                    resolver_id: owned("void-meridian-severing"),
                    player_facing_effect: FormationEffect::ClearEnvironment,
                },
            ),
        },
    };
    let v = vec![
        sacred_beast("east-azure-dragon", "東‧青龍", Element::Wood),
        sacred_beast("west-white-tiger", "西‧白虎", Element::Metal),
        sacred_beast("south-vermilion-bird", "南‧朱雀", Element::Fire),
        sacred_beast("north-black-tortoise", "北‧玄武", Element::Water),
        sacred_beast("center-yellow-serpent", "中‧黃蛇", Element::Earth),
        severing,
    ];
    assert(spec_views(v@) =~= five_directions_table());
    v
}

// ---------------------------------------------------------------------------
// Splitting specs and building registries.
// ---------------------------------------------------------------------------

/// Splits specs into their formations and their effects, keeping the order.
pub fn split_specs(specs: Vec<BaseFormationSpec>) -> (r: (Vec<FormationDef>, Vec<EffectDef>))
    ensures
        r.0.len() == specs.len(),
        r.1.len() == specs.len(),
        forall|i: int| 0 <= i < specs.len() ==> (#[trigger] r.0@[i])@ == specs@[i].formation@,
        forall|i: int| 0 <= i < specs.len() ==> (#[trigger] r.1@[i])@ == specs@[i].effect@,
{
    let mut formations: Vec<FormationDef> = Vec::new();
    let mut effects: Vec<EffectDef> = Vec::new();
    let mut i: usize = 0;
    while i < specs.len()
        invariant
            i <= specs.len(),
            formations.len() == i,
            effects.len() == i,
            forall|j: int| 0 <= j < i ==> (#[trigger] formations@[j])@ == specs@[j].formation@,
            forall|j: int| 0 <= j < i ==> (#[trigger] effects@[j])@ == specs@[j].effect@,
        decreases specs.len() - i,
    {
        formations.push(specs[i].formation.clone());
        effects.push(specs[i].effect.clone());
        i = i + 1;
    }
    (formations, effects)
}

/// The base formations register consistently: their identities are distinct, and each
/// formation's effect is its own.
proof fn lemma_base_table_consistent()
    ensures
        crate::rules::official_formations::table_consistent(base_spec_table()),
{
    reveal_strlit("metal-strike");
    reveal_strlit("wood-strike");
    reveal_strlit("water-strike");
    reveal_strlit("fire-strike");
    reveal_strlit("earth-strike");
    reveal_strlit("weapon");
    reveal_strlit("defense");
    reveal_strlit("seal");
    reveal_strlit("countershock");
    reveal_strlit("metamorphosis");
    reveal_strlit("empty-city");
    reveal_strlit("triple-metal");
    reveal_strlit("triple-wood");
    reveal_strlit("triple-water");
    reveal_strlit("triple-fire");
    reveal_strlit("triple-earth");
    reveal_strlit("generating-formation");
    reveal_strlit("overcoming-formation");
    reveal_strlit("radiance");
    reveal_strlit("barrier");
    reveal_strlit("return-to-origin");
    reveal_strlit("shock-burst");
    reveal_strlit("chaos");
    reveal_strlit("five-elements-cycle");
    reveal_strlit("five-streams-unite");
    let t = base_spec_table();
    assert forall|a: int, b: int| 0 <= a < b < t.len() implies (#[trigger] t[a].formation).id
        != (#[trigger] t[b].formation).id by {
        if t[a].formation.id == t[b].formation.id {
            assert(t[a].formation.id.len() == t[b].formation.id.len());
            assert(t[a].formation.id[0] == t[b].formation.id[0]);
            assert(t[a].formation.id[7] == t[b].formation.id[7]);
        }
    }
    assert forall|i: int| 0 <= i < t.len() implies crate::rules::official_formations::table_has_effect(
        t,
        #[trigger] t[i].formation.effect_id,
    ) by {
        assert(t[i].effect.id == t[i].formation.effect_id);
    }
}

/// The registry of the base formations: the twenty-five published formations, in
/// rulebook order. The base table is consistent, so the registry is always built.
pub fn base_formation_registry() -> (r: Result<FormationRegistry, crate::rules::registry::RegistryError>)
    ensures
        r is Ok,
        r matches Ok(reg) ==> reg.wf() && reg.formation_seq().len() == 25 && (forall|i: int|
            0 <= i < 25 ==> (#[trigger] reg.formation_seq()[i])@ == base_spec_table()[i].formation)
            && (forall|i: int|
            0 <= i < 25 ==> (#[trigger] reg.effect_seq()[i])@ == base_spec_table()[i].effect),
{
    let specs = base_specs();
    assert(spec_views(specs@).len() == specs@.len());
    proof {
        assert forall|i: int| 0 <= i < 25 implies specs@[i]@ == base_spec_table()[i] by {
            assert(spec_views(specs@)[i] == specs@[i]@);
        }
    }
    let (formations, effects) = split_specs(specs);
    proof {
        lemma_base_table_consistent();
        crate::rules::registry::lemma_registry_error_none_iff(formations@, effects@);
        crate::rules::official_formations::lemma_consistency_of_views(
            formations@,
            effects@,
            base_spec_table(),
        );
    }
    FormationRegistry::new(formations, effects)
}

// ---------------------------------------------------------------------------
// The matcher of every published custom pattern.
// ---------------------------------------------------------------------------

/// The published custom patterns, by identity.
pub open spec fn spec_builtin_custom(id: Seq<char>) -> Option<CustomMatcher> {
    if id == "three-water"@ {
        Some(CustomMatcher::AllOfElement { count: 3, element: Element::Water })
    } else if id == "three-different-elements-same-level"@ {
        Some(CustomMatcher::ThreeDifferentElementsSameLevel)
    } else if id == "single-level-five"@ {
        Some(CustomMatcher::AllOfLevel { count: 1, level: 5 })
    } else if id == "single-level-three"@ {
        Some(CustomMatcher::AllOfLevel { count: 1, level: 3 })
    } else if id == "single-level-one"@ {
        Some(CustomMatcher::AllOfLevel { count: 1, level: 1 })
    } else if id == "levels-one-through-five"@ {
        Some(CustomMatcher::LevelsOneThroughFive)
    } else if id == "water-water-and-level-five"@ {
        Some(CustomMatcher::TwoOfElementAndLevelFive(Element::Water))
    } else if id == "metal-metal-and-level-five"@ {
        Some(CustomMatcher::TwoOfElementAndLevelFive(Element::Metal))
    } else if id == "three-different-levels"@ {
        Some(CustomMatcher::ThreeDifferentLevels)
    } else if id == "three-level-four"@ {
        Some(CustomMatcher::AllOfLevel { count: 3, level: 4 })
    } else if id == "single-even-level"@ {
        Some(CustomMatcher::SingleEvenLevel)
    } else if id == "three-level-five"@ {
        Some(CustomMatcher::AllOfLevel { count: 3, level: 5 })
    } else if id == "earth-sum-ten"@ {
        Some(CustomMatcher::EarthSumTen)
    } else if id == "fire-fire-two-non-fire"@ {
        Some(CustomMatcher::FireFireTwoNonFire)
    } else if id == "water-water-three-any"@ {
        Some(CustomMatcher::WaterWaterThreeAny)
    } else if id == "reincarnation"@ {
        Some(CustomMatcher::Reincarnation)
    } else if id == "earth-and-same-level"@ {
        Some(CustomMatcher::ElementAndSameLevel(Element::Earth))
    } else if id == "fire-and-same-level"@ {
        Some(CustomMatcher::ElementAndSameLevel(Element::Fire))
    } else if id == "water-and-same-level"@ {
        Some(CustomMatcher::ElementAndSameLevel(Element::Water))
    } else if id == "wood-and-same-level"@ {
        Some(CustomMatcher::ElementAndSameLevel(Element::Wood))
    } else if id == "metal-and-same-level"@ {
        Some(CustomMatcher::ElementAndSameLevel(Element::Metal))
    } else if id == "tribulation:divine-calculation"@ {
        Some(CustomMatcher::SingleAtLeastLevel(4))
    } else if id == "echo:plant-earth"@ {
        Some(CustomMatcher::PlantEarth)
    } else if id == "echo:pure-fire"@ {
        Some(CustomMatcher::PureFire)
    } else if id == "three-same-level"@ {
        Some(CustomMatcher::ThreeSameLevel)
    } else if id == "five-same-level"@ {
        Some(CustomMatcher::FiveSameLevel)
    } else if id == "two-different-elements"@ {
        Some(CustomMatcher::TwoDifferentElements)
    } else {
        None
    }
}

/// The matcher that knows every published custom pattern this library defines. The
/// five element-pair patterns of the tribulation module and the pouch module's chain
/// pattern decide through those modules, which are not part of this library, so they are
/// not registered; a formation naming one of them matches nothing.
pub fn base_formation_matcher() -> (r: FormationMatcher)
    ensures
        forall|id: Seq<char>|
            #![trigger lookup_custom(r.entries(), id)]
            lookup_custom(r.entries(), id) == spec_builtin_custom(id),
{
    let m = FormationMatcher::new()
        .with_custom("two-different-elements", CustomMatcher::TwoDifferentElements)
        .with_custom("five-same-level", CustomMatcher::FiveSameLevel)
        .with_custom("three-same-level", CustomMatcher::ThreeSameLevel)
        .with_custom("echo:pure-fire", CustomMatcher::PureFire)
        .with_custom("echo:plant-earth", CustomMatcher::PlantEarth)
        .with_custom("tribulation:divine-calculation", CustomMatcher::SingleAtLeastLevel(4))
        .with_custom("metal-and-same-level", CustomMatcher::ElementAndSameLevel(Element::Metal))
        .with_custom("wood-and-same-level", CustomMatcher::ElementAndSameLevel(Element::Wood))
        .with_custom("water-and-same-level", CustomMatcher::ElementAndSameLevel(Element::Water))
        .with_custom("fire-and-same-level", CustomMatcher::ElementAndSameLevel(Element::Fire))
        .with_custom("earth-and-same-level", CustomMatcher::ElementAndSameLevel(Element::Earth))
        .with_custom("reincarnation", CustomMatcher::Reincarnation)
        .with_custom("water-water-three-any", CustomMatcher::WaterWaterThreeAny)
        .with_custom("fire-fire-two-non-fire", CustomMatcher::FireFireTwoNonFire)
        .with_custom("earth-sum-ten", CustomMatcher::EarthSumTen)
        .with_custom("three-level-five", CustomMatcher::AllOfLevel { count: 3, level: 5 })
        .with_custom("single-even-level", CustomMatcher::SingleEvenLevel)
        .with_custom("three-level-four", CustomMatcher::AllOfLevel { count: 3, level: 4 })
        .with_custom("three-different-levels", CustomMatcher::ThreeDifferentLevels)
        .with_custom(
            "metal-metal-and-level-five",
            CustomMatcher::TwoOfElementAndLevelFive(Element::Metal),
        )
        .with_custom(
            "water-water-and-level-five",
            CustomMatcher::TwoOfElementAndLevelFive(Element::Water),
        )
        .with_custom("levels-one-through-five", CustomMatcher::LevelsOneThroughFive)
        .with_custom("single-level-one", CustomMatcher::AllOfLevel { count: 1, level: 1 })
        .with_custom("single-level-three", CustomMatcher::AllOfLevel { count: 1, level: 3 })
        .with_custom("single-level-five", CustomMatcher::AllOfLevel { count: 1, level: 5 })
        .with_custom(
            "three-different-elements-same-level",
            CustomMatcher::ThreeDifferentElementsSameLevel,
        )
        .with_custom(
            "three-water",
            CustomMatcher::AllOfElement { count: 3, element: Element::Water },
        );
    m
}


/// Whether the published pattern `id` accepts the submitted cards.
pub open spec fn published_accepts(id: Seq<char>, s: Seq<SubmittedCardFacts>) -> bool {
    match spec_builtin_custom(id) {
        Some(m) => spec_custom(m, s),
        None => false,
    }
}

/// What the published custom patterns accept, card by card: "three-different-levels"
/// three cards of pairwise different levels; "three-water" three Water cards;
/// "three-same-level" and "five-same-level" three or five cards of one level;
/// "two-different-elements" two cards of different elements; "single-even-level" one card
/// of even level; "three-level-four" and "three-level-five" three cards of that level;
/// "single-level-one", "-three" and "-five" one card of that level;
/// "three-different-elements-same-level" three cards of one level and pairwise different
/// elements.
pub proof fn lemma_published_patterns(s: Seq<SubmittedCardFacts>)
    ensures
        published_accepts("three-different-levels"@, s) <==> (s.len() == 3 && forall|i: int, j: int|
            0 <= i < j < 3 ==> s[i].level != s[j].level),
        published_accepts("three-water"@, s) <==> (s.len() == 3 && forall|i: int|
            0 <= i < 3 ==> s[i].element == Element::Water),
        published_accepts("three-same-level"@, s) <==> (s.len() == 3 && forall|i: int, j: int|
            0 <= i < 3 && 0 <= j < 3 ==> s[i].level == s[j].level),
        published_accepts("five-same-level"@, s) <==> (s.len() == 5 && forall|i: int, j: int|
            0 <= i < 5 && 0 <= j < 5 ==> s[i].level == s[j].level),
        published_accepts("two-different-elements"@, s) <==> (s.len() == 2 && s[0].element
            != s[1].element),
        published_accepts("single-even-level"@, s) <==> (s.len() == 1 && s[0].level % 2 == 0),
        published_accepts("three-level-four"@, s) <==> (s.len() == 3 && forall|i: int|
            0 <= i < 3 ==> s[i].level == 4),
        published_accepts("three-level-five"@, s) <==> (s.len() == 3 && forall|i: int|
            0 <= i < 3 ==> s[i].level == 5),
        published_accepts("single-level-one"@, s) <==> (s.len() == 1 && s[0].level == 1),
        published_accepts("single-level-three"@, s) <==> (s.len() == 1 && s[0].level == 3),
        published_accepts("single-level-five"@, s) <==> (s.len() == 1 && s[0].level == 5),
        published_accepts("three-different-elements-same-level"@, s) <==> (s.len() == 3 && (forall|
            i: int,
            j: int,
        | 0 <= i < 3 && 0 <= j < 3 ==> s[i].level == s[j].level) && (forall|i: int, j: int|
            0 <= i < j < 3 ==> s[i].element != s[j].element)),
{
    reveal_strlit("three-water");
    reveal_strlit("three-different-elements-same-level");
    reveal_strlit("single-level-five");
    reveal_strlit("single-level-three");
    reveal_strlit("single-level-one");
    reveal_strlit("levels-one-through-five");
    reveal_strlit("water-water-and-level-five");
    reveal_strlit("metal-metal-and-level-five");
    reveal_strlit("three-different-levels");
    reveal_strlit("three-level-four");
    reveal_strlit("single-even-level");
    reveal_strlit("three-level-five");
    reveal_strlit("earth-sum-ten");
    reveal_strlit("fire-fire-two-non-fire");
    reveal_strlit("water-water-three-any");
    reveal_strlit("reincarnation");
    reveal_strlit("earth-and-same-level");
    reveal_strlit("fire-and-same-level");
    reveal_strlit("water-and-same-level");
    reveal_strlit("wood-and-same-level");
    reveal_strlit("metal-and-same-level");
    reveal_strlit("tribulation:divine-calculation");
    reveal_strlit("echo:plant-earth");
    reveal_strlit("echo:pure-fire");
    reveal_strlit("three-same-level");
    reveal_strlit("five-same-level");
    reveal_strlit("two-different-elements");
    assert("three-water"@.len() == 11);
    assert("three-different-elements-same-level"@.len() == 35);
    assert("single-level-five"@.len() == 17);
    assert("single-level-three"@.len() == 18);
    assert("single-level-one"@.len() == 16);
    assert("levels-one-through-five"@.len() == 23);
    assert("water-water-and-level-five"@.len() == 26);
    assert("metal-metal-and-level-five"@.len() == 26);
    assert("three-different-levels"@.len() == 22);
    assert("three-level-four"@.len() == 16);
    assert("single-even-level"@.len() == 17);
    assert("three-level-five"@.len() == 16);
    assert("earth-sum-ten"@.len() == 13);
    assert("fire-fire-two-non-fire"@.len() == 22);
    assert("water-water-three-any"@.len() == 21);
    assert("reincarnation"@.len() == 13);
    assert("earth-and-same-level"@.len() == 20);
    assert("fire-and-same-level"@.len() == 19);
    assert("water-and-same-level"@.len() == 20);
    assert("wood-and-same-level"@.len() == 19);
    assert("metal-and-same-level"@.len() == 20);
    assert("tribulation:divine-calculation"@.len() == 30);
    assert("echo:plant-earth"@.len() == 16);
    assert("echo:pure-fire"@.len() == 14);
    assert("three-same-level"@.len() == 16);
    assert("five-same-level"@.len() == 15);
    assert("two-different-elements"@.len() == 22);
    assert("three-same-level"@[0] != "single-level-one"@[0]);
    assert("three-same-level"@[6] != "three-level-four"@[6]);
    assert("three-same-level"@[6] != "three-level-five"@[6]);
    assert("three-same-level"@[0] != "echo:plant-earth"@[0]);
    assert("two-different-elements"@[1] != "three-different-levels"@[1]);
    assert("two-different-elements"@[0] != "fire-fire-two-non-fire"@[0]);
    assert("single-even-level"@[7] != "single-level-five"@[7]);
    assert("three-level-four"@[0] != "single-level-one"@[0]);
    assert("three-level-five"@[0] != "single-level-one"@[0]);
    assert("three-level-five"@[13] != "three-level-four"@[13]);
    crate::rules::matcher::lemma_custom_pattern_meanings(s);
}

} // verus!
