//! The Jianghu rule module: the wandering professions, their sword, fan and
//! poison formations, and the lasting states they leave on players.
use crate::domain::{
    CardInstanceId, Element, GameError, JIANGHU_MODULE_ID, JianghuState, JianghuStateKind, Player,
    PlayerId, ProfessionId, TeamId, ValidationError, copy_cards, owned, str_eq,
};
use crate::rules::catalog::spec_views;
use crate::rules::matcher::{element_level_sum, element_minimum};
use crate::rules::profession::{opt_view, text_views};
use crate::rules::detail::{FormationCategory, FormationEffect};
use crate::rules::hero::FIRST_WANDERER_ID;
use crate::rules::matcher::{FormationPattern, PatternView, SubmittedCardFacts};
use crate::rules::profession::{
    CatalogEntryView, ProfessionCatalogEntry, entry, entry_views, lineage_contains, lineage_has,
};
use crate::rules::registry::{
    AttackCategory, AttackPlanDef, BaseFormationSpec, DamageTarget, EffectDef, EffectDefView,
    EffectPlan, EffectPlanView, FormationDef, FormationDefView, PointFormula, SpecView,
    SpellPlanDef,
};
use vstd::prelude::*;

verus! {

pub const LONE_WANDERER_ID: &'static str = "jianghu:lone-wanderer";
pub const SWORDSMAN_ID: &'static str = "jianghu:swordsman";
pub const SWORD_SAGE_ID: &'static str = "jianghu:sword-sage";
pub const QI_CULTIVATOR_ID: &'static str = "jianghu:qi-cultivator";
pub const QI_GRANDMASTER_ID: &'static str = "jianghu:qi-grandmaster";
pub const INK_SEEKER_ID: &'static str = "jianghu:ink-seeker";
pub const BOOK_IMMORTAL_ID: &'static str = "jianghu:book-immortal";
pub const POISONER_ID: &'static str = "jianghu:poisoner";
pub const POISON_SAINT_ID: &'static str = "jianghu:poison-saint";
pub const THOUSAND_BLADES_SWORD_ART: &'static str = "jianghu:thousand-blades-sword-art";
pub const SNOW_TREADING_SWORD_ART: &'static str = "jianghu:snow-treading-sword-art";
pub const FLOWING_SHADOW_SWORD: &'static str = "jianghu:flowing-shadow-remnant-light-sword";
pub const THOUSAND_BLADES_FLYING_FEATHER: &'static str = "jianghu:thousand-blades-flying-feather";
pub const SNOW_TREADING_REFLECTED_MOON: &'static str = "jianghu:snow-treading-reflected-moon";
pub const FLOWING_SHADOW_CLOUD_BREAKING: &'static str = "jianghu:flowing-shadow-cloud-breaking-sword";
pub const WATER_DOTTING_FAN: &'static str = "jianghu:water-dotting-fan";
pub const WIND_RIDING_FAN: &'static str = "jianghu:wind-riding-fan";
pub const FAN_BEYOND_HEAVEN: &'static str = "jianghu:fan-beyond-heaven";
pub const POISON_DART: &'static str = "jianghu:poison-dart";
pub const POISON_SMOKE: &'static str = "jianghu:poison-smoke";
pub const THOUSAND_POISON_HAND: &'static str = "jianghu:thousand-poison-hand";
pub const LINGERING_FROST_HAND: &'static str = "jianghu:lingering-frost-hand";
pub const KING_YAMA_DECREE: &'static str = "jianghu:king-yama-decree";

// ---------------------------------------------------------------------------
// Professions.
// ---------------------------------------------------------------------------

/// A Jianghu catalog entry.
pub open spec fn spec_jianghu_entry(
    id: Seq<char>,
    name: Seq<char>,
    rule_text: Seq<char>,
    parents: Seq<Seq<char>>,
    ability_ids: Seq<Seq<char>>,
) -> CatalogEntryView {
    CatalogEntryView { id, module_id: JIANGHU_MODULE_ID@, name, rule_text, parents, ability_ids }
}

/// The nine Jianghu professions, in catalog order.
pub open spec fn jianghu_entry_table() -> Seq<CatalogEntryView> {
    seq![
        spec_jianghu_entry(LONE_WANDERER_ID@, "獨行客"@, "目前無職業；一張３級牌"@, seq![], seq![]),
        spec_jianghu_entry(SWORDSMAN_ID@, "劍客"@, "目前為初行客或獨行客；金３水３"@, seq![], seq![]),
        spec_jianghu_entry(SWORD_SAGE_ID@, "劍尊"@, "目前為劍客；金５水５"@, seq![SWORDSMAN_ID@], seq![]),
        spec_jianghu_entry(QI_CULTIVATOR_ID@, "煉氣者"@, "目前為初行客或獨行客；木３火３"@, seq![], seq!["jianghu:heavenly-yang-aura"@, "jianghu:blazing-yang-art"@, "jianghu:pure-yang-force"@]),
        spec_jianghu_entry(QI_GRANDMASTER_ID@, "氣宗"@, "目前為煉氣者；木５火５"@, seq![QI_CULTIVATOR_ID@], seq!["jianghu:divine-yang-aura"@, "jianghu:dancing-yang-art"@, "jianghu:extreme-yang-force"@]),
        spec_jianghu_entry(INK_SEEKER_ID@, "尋墨客"@, "目前為初行客或獨行客；兩張３級以上同行同級牌"@, seq![], seq!["jianghu:azure-cloud-step"@]),
        spec_jianghu_entry(BOOK_IMMORTAL_ID@, "書仙"@, "目前為尋墨客；兩張同行５級牌"@, seq![INK_SEEKER_ID@], seq!["jianghu:righteous-spirit"@, "jianghu:meteor-step"@]),
        spec_jianghu_entry(POISONER_ID@, "毒師"@, "目前為初行客或獨行客；兩張不同行１級牌"@, seq![], seq![]),
        spec_jianghu_entry(POISON_SAINT_ID@, "毒聖"@, "目前為毒師；三張不同行１級牌"@, seq![POISONER_ID@], seq!["jianghu:poison-mastery"@]),
    ]
}

/// The catalog entries of the Jianghu professions.
pub fn profession_catalog_entries() -> (r: Vec<ProfessionCatalogEntry>)
    ensures
        entry_views(r@) == jianghu_entry_table(),
{
    let e0 = entry(LONE_WANDERER_ID, JIANGHU_MODULE_ID, "獨行客", "目前無職業；一張３級牌", &[], &[]);
    let e1 = entry(SWORDSMAN_ID, JIANGHU_MODULE_ID, "劍客", "目前為初行客或獨行客；金３水３", &[], &[]);
    let e2 = entry(SWORD_SAGE_ID, JIANGHU_MODULE_ID, "劍尊", "目前為劍客；金５水５", &[SWORDSMAN_ID], &[]);
    let e3 = entry(QI_CULTIVATOR_ID, JIANGHU_MODULE_ID, "煉氣者", "目前為初行客或獨行客；木３火３", &[], &["jianghu:heavenly-yang-aura", "jianghu:blazing-yang-art", "jianghu:pure-yang-force"]);
    let e4 = entry(QI_GRANDMASTER_ID, JIANGHU_MODULE_ID, "氣宗", "目前為煉氣者；木５火５", &[QI_CULTIVATOR_ID], &["jianghu:divine-yang-aura", "jianghu:dancing-yang-art", "jianghu:extreme-yang-force"]);
    let e5 = entry(INK_SEEKER_ID, JIANGHU_MODULE_ID, "尋墨客", "目前為初行客或獨行客；兩張３級以上同行同級牌", &[], &["jianghu:azure-cloud-step"]);
    let e6 = entry(BOOK_IMMORTAL_ID, JIANGHU_MODULE_ID, "書仙", "目前為尋墨客；兩張同行５級牌", &[INK_SEEKER_ID], &["jianghu:righteous-spirit", "jianghu:meteor-step"]);
    let e7 = entry(POISONER_ID, JIANGHU_MODULE_ID, "毒師", "目前為初行客或獨行客；兩張不同行１級牌", &[], &[]);
    let e8 = entry(POISON_SAINT_ID, JIANGHU_MODULE_ID, "毒聖", "目前為毒師；三張不同行１級牌", &[POISONER_ID], &["jianghu:poison-mastery"]);
    let v = vec![e0, e1, e2, e3, e4, e5, e6, e7, e8];
    proof {
        let t = jianghu_entry_table();
        assert(v@[0]@.parents =~= t[0].parents);
        assert(v@[0]@.ability_ids =~= t[0].ability_ids);
        assert(v@[1]@.parents =~= t[1].parents);
        assert(v@[1]@.ability_ids =~= t[1].ability_ids);
        assert(v@[2]@.parents =~= t[2].parents);
        assert(v@[2]@.ability_ids =~= t[2].ability_ids);
        assert(v@[3]@.parents =~= t[3].parents);
        assert(v@[3]@.ability_ids =~= t[3].ability_ids);
        assert(v@[4]@.parents =~= t[4].parents);
        assert(v@[4]@.ability_ids =~= t[4].ability_ids);
        assert(v@[5]@.parents =~= t[5].parents);
        assert(v@[5]@.ability_ids =~= t[5].ability_ids);
        assert(v@[6]@.parents =~= t[6].parents);
        assert(v@[6]@.ability_ids =~= t[6].ability_ids);
        assert(v@[7]@.parents =~= t[7].parents);
        assert(v@[7]@.ability_ids =~= t[7].ability_ids);
        assert(v@[8]@.parents =~= t[8].parents);
        assert(v@[8]@.ability_ids =~= t[8].ability_ids);
        assert(entry_views(v@) =~= t);
    }
    v
}

/// The summary of a Jianghu ability.
pub open spec fn spec_ability_summary(id: Seq<char>) -> Option<Seq<char>> {
    if id == "jianghu:heavenly-yang-aura"@ {
        Some("天陽罡：亮出木／火行牌，一輪內受到木、火行傷害減半"@)
    } else if id == "jianghu:blazing-yang-art"@ {
        Some("烈陽訣：指定木／火行牌本回合施展基礎陣法時等級＋２"@)
    } else if id == "jianghu:pure-yang-force"@ {
        Some("純陽勁：五流歸一及其複製效果點數＋１５"@)
    } else if id == "jianghu:divine-yang-aura"@ {
        Some("神陽罡：天陽罡不需亮牌且常駐"@)
    } else if id == "jianghu:dancing-yang-art"@ {
        Some("舞陽訣：木／火牌三張以上攻擊時抽牌＋１"@)
    } else if id == "jianghu:extreme-yang-force"@ {
        Some("極陽勁：五流歸一先破上家護盾，其他玩家無法行動１回合"@)
    } else if id == "jianghu:azure-cloud-step"@ {
        Some("青雲步：棄木／水牌，抽二張並將一張放回牌堆頂"@)
    } else if id == "jianghu:righteous-spirit"@ {
        Some("浩然正氣：敵方陣法的二回合以上持續效果縮短為一回合"@)
    } else if id == "jianghu:meteor-step"@ {
        Some("流星步：棄火行牌或星行牌，本回合觸發流星效果"@)
    } else if id == "jianghu:poison-mastery"@ {
        Some("毒絕：自己造成的中毒每回合扣１５點生命"@)
    } else {
        None
    }
}

fn ability_summary(id: &str) -> (r: Option<&'static str>)
    ensures
        match r {
            Some(s) => spec_ability_summary(id@) == Some(s@),
            None => spec_ability_summary(id@) is None,
        },
{
    if str_eq(id, "jianghu:heavenly-yang-aura") {
        Some("天陽罡：亮出木／火行牌，一輪內受到木、火行傷害減半")
    } else if str_eq(id, "jianghu:blazing-yang-art") {
        Some("烈陽訣：指定木／火行牌本回合施展基礎陣法時等級＋２")
    } else if str_eq(id, "jianghu:pure-yang-force") {
        Some("純陽勁：五流歸一及其複製效果點數＋１５")
    } else if str_eq(id, "jianghu:divine-yang-aura") {
        Some("神陽罡：天陽罡不需亮牌且常駐")
    } else if str_eq(id, "jianghu:dancing-yang-art") {
        Some("舞陽訣：木／火牌三張以上攻擊時抽牌＋１")
    } else if str_eq(id, "jianghu:extreme-yang-force") {
        Some("極陽勁：五流歸一先破上家護盾，其他玩家無法行動１回合")
    } else if str_eq(id, "jianghu:azure-cloud-step") {
        Some("青雲步：棄木／水牌，抽二張並將一張放回牌堆頂")
    } else if str_eq(id, "jianghu:righteous-spirit") {
        Some("浩然正氣：敵方陣法的二回合以上持續效果縮短為一回合")
    } else if str_eq(id, "jianghu:meteor-step") {
        Some("流星步：棄火行牌或星行牌，本回合觸發流星效果")
    } else if str_eq(id, "jianghu:poison-mastery") {
        Some("毒絕：自己造成的中毒每回合扣１５點生命")
    } else {
        None
    }
}

/// The summaries of the Jianghu abilities among the abilities in effect, in order.
pub fn effective_ability_summaries(ability_ids: &[&'static str]) -> (r: Vec<&'static str>)
    ensures
        text_views(r@) == text_views(ability_ids@).filter_map(
            |a: Seq<char>| spec_ability_summary(a),
        ),
{
    let ghost ids = text_views(ability_ids@);
    let ghost f = |a: Seq<char>| spec_ability_summary(a);
    let mut r: Vec<&'static str> = Vec::new();
    let mut k: usize = 0;
    while k < ability_ids.len()
        invariant
            k <= ability_ids.len(),
            ids == text_views(ability_ids@),
            f == (|a: Seq<char>| spec_ability_summary(a)),
            text_views(r@) == ids.take(k as int).filter_map(f),
        decreases ability_ids.len() - k,
    {
        proof {
            ids.lemma_filter_map_take_succ(f, k as int);
        }
        match ability_summary(ability_ids[k]) {
            Some(s) => {
                r.push(s);
            },
            None => {},
        }
        assert(text_views(r@) =~= ids.take(k as int + 1).filter_map(f));
        k = k + 1;
    }
    assert(ids.take(ability_ids.len() as int) =~= ids);
    r
}

// ---------------------------------------------------------------------------
// Formations.
// ---------------------------------------------------------------------------

/// The player-facing effect of a Jianghu spell: the poisons apply a status, and the King
/// Yama Decree wins against a weakened opponent.
pub open spec fn spec_jianghu_spell_effect(id: Seq<char>) -> FormationEffect {
    if id == KING_YAMA_DECREE@ {
        FormationEffect::WinIfOpponentHpAtMost { threshold: 40 }
    } else {
        FormationEffect::ApplyStatus
    }
}

fn player_facing_formation_effect(id: &str) -> (r: FormationEffect)
    ensures
        r == spec_jianghu_spell_effect(id@),
{
    if str_eq(id, KING_YAMA_DECREE) {
        FormationEffect::WinIfOpponentHpAtMost { threshold: 40 }
    } else {
        FormationEffect::ApplyStatus
    }
}

/// The view of a Jianghu attack on the previous player.
pub open spec fn spec_jianghu_attack(
    id: Seq<char>,
    name: Seq<char>,
    rule_text: Seq<char>,
    category: AttackCategory,
    pattern: PatternView,
    formula: PointFormula,
) -> SpecView {
    SpecView {
        formation: FormationDefView {
            id,
            name,
            rule_text,
            category: FormationCategory::Attack,
            pattern,
            effect_id: id,
            point_formula: formula,
        },
        effect: EffectDefView {
            id,
            plan: EffectPlanView::Attack(
                AttackPlanDef { category, point_formula: formula, damage_target: DamageTarget::PreviousPlayer },
            ),
        },
    }
}

/// The view of a Jianghu spell, passive when it is laid face down.
pub open spec fn spec_jianghu_spell(
    id: Seq<char>,
    name: Seq<char>,
    rule_text: Seq<char>,
    passive: bool,
    pattern: PatternView,
) -> SpecView {
    SpecView {
        formation: FormationDefView {
            id,
            name,
            rule_text,
            category: FormationCategory::Spell,
            pattern,
            effect_id: id,
            point_formula: PointFormula::Fixed(0),
        },
        effect: EffectDefView {
            id,
            plan: if passive {
                EffectPlanView::PassiveSpell { resolver_id: id, effect: spec_jianghu_spell_effect(id) }
            } else {
                EffectPlanView::ActiveSpell { resolver_id: id, effect: spec_jianghu_spell_effect(id) }
            },
        },
    }
}

fn attack(
    id: &str,
    name: &str,
    rule_text: &str,
    category: AttackCategory,
    pattern: FormationPattern,
    point_formula: PointFormula,
) -> (r: BaseFormationSpec)
    ensures
        r@ == spec_jianghu_attack(id@, name@, rule_text@, category, pattern@, point_formula),
{
    BaseFormationSpec {
        formation: FormationDef {
            id: owned(id),
            name: owned(name),
            rule_text: owned(rule_text),
            category: FormationCategory::Attack,
            pattern,
            effect_id: owned(id),
            point_formula,
        },
        effect: EffectDef {
            id: owned(id),
            plan: EffectPlan::Attack(
                AttackPlanDef { category, point_formula, damage_target: DamageTarget::PreviousPlayer },
            ),
        },
    }
}

fn spell(id: &str, name: &str, rule_text: &str, passive: bool, pattern: FormationPattern) -> (r:
    BaseFormationSpec)
    ensures
        r@ == spec_jianghu_spell(id@, name@, rule_text@, passive, pattern@),
{
    let plan = SpellPlanDef {
        resolver_id: owned(id),
        player_facing_effect: player_facing_formation_effect(id),
    };
    BaseFormationSpec {
        formation: FormationDef {
            id: owned(id),
            name: owned(name),
            rule_text: owned(rule_text),
            category: FormationCategory::Spell,
            pattern,
            effect_id: owned(id),
            point_formula: PointFormula::Fixed(0),
        },
        effect: EffectDef {
            id: owned(id),
            plan: if passive {
                EffectPlan::PassiveSpell(plan)
            } else {
                EffectPlan::ActiveSpell(plan)
            },
        },
    }
}

fn custom(id: &str) -> (r: FormationPattern)
    ensures
        r@ == PatternView::Custom(id@),
{
    FormationPattern::Custom(owned(id))
}

fn exact1(a: Element) -> (r: FormationPattern)
    ensures
        r@ == PatternView::ExactElements(seq![a]),
{
    let v = vec![a];
    assert(v@ =~= seq![a]);
    FormationPattern::ExactElements(v)
}

fn exact2(a: Element, b: Element) -> (r: FormationPattern)
    ensures
        r@ == PatternView::ExactElements(seq![a, b]),
{
    let v = vec![a, b];
    assert(v@ =~= seq![a, b]);
    FormationPattern::ExactElements(v)
}

/// The views of the Jianghu formations, in catalog order.
pub open spec fn jianghu_formation_table() -> Seq<SpecView> {
    seq![
        spec_jianghu_attack(THOUSAND_BLADES_SWORD_ART@, "千鋒劍訣"@, "金行牌＋同級牌；物理攻擊，點數＝等級總和×３；進入千鋒"@, AttackCategory::Physical, PatternView::Custom("metal-and-same-level"@), PointFormula::LevelSumTimes(3)),
        spec_jianghu_attack(SNOW_TREADING_SWORD_ART@, "踏雪劍訣"@, "水行牌＋同級牌；特殊攻擊，點數＝等級總和×３；進入踏雪"@, AttackCategory::Special, PatternView::Custom("water-and-same-level"@), PointFormula::LevelSumTimes(3)),
        spec_jianghu_attack(FLOWING_SHADOW_SWORD@, "流影殘光劍"@, "三張不同等級牌；特殊攻擊，點數＝等級總和×３"@, AttackCategory::Special, PatternView::Custom("three-different-levels"@), PointFormula::LevelSumTimes(3)),
        spec_jianghu_attack(THOUSAND_BLADES_FLYING_FEATHER@, "千鋒飛羽"@, "金金＋５級牌；物理攻擊，固定３０點"@, AttackCategory::Physical, PatternView::Custom("metal-metal-and-level-five"@), PointFormula::Fixed(30)),
        spec_jianghu_attack(SNOW_TREADING_REFLECTED_MOON@, "踏雪映月"@, "水水＋５級牌；特殊攻擊，固定３０點"@, AttackCategory::Special, PatternView::Custom("water-water-and-level-five"@), PointFormula::Fixed(30)),
        spec_jianghu_attack(FLOWING_SHADOW_CLOUD_BREAKING@, "流影崩雲劍"@, "１至５級牌各一張；特殊攻擊，固定８０點"@, AttackCategory::Special, PatternView::Custom("levels-one-through-five"@), PointFormula::Fixed(80)),
        spec_jianghu_attack(WATER_DOTTING_FAN@, "點水扇"@, "１級牌；特殊攻擊，固定５點"@, AttackCategory::Special, PatternView::Custom("single-level-one"@), PointFormula::Fixed(5)),
        spec_jianghu_attack(WIND_RIDING_FAN@, "凌風扇"@, "３級牌；特殊攻擊，固定１０點"@, AttackCategory::Special, PatternView::Custom("single-level-three"@), PointFormula::Fixed(10)),
        spec_jianghu_attack(FAN_BEYOND_HEAVEN@, "天外飛扇"@, "５級牌；特殊攻擊，固定０點；上家下回合行動後扣２０"@, AttackCategory::Special, PatternView::Custom("single-level-five"@), PointFormula::Fixed(0)),
        spec_jianghu_spell(POISON_DART@, "毒鏢"@, "金行牌；下家中毒１回合"@, false, PatternView::ExactElements(seq![Element::Metal])),
        spec_jianghu_spell(POISON_SMOKE@, "毒煙"@, "火行牌＋木行牌；翻開時下家中毒１回合"@, true, PatternView::ExactElements(seq![Element::Fire, Element::Wood])),
        spec_jianghu_spell(THOUSAND_POISON_HAND@, "千毒手"@, "三張不同行同級牌；下家扣１０並中毒２回合"@, false, PatternView::Custom("three-different-elements-same-level"@)),
        spec_jianghu_spell(LINGERING_FROST_HAND@, "殘霜手"@, "三張水行牌；下家無法行動及抽牌１回合，並中毒２回合"@, false, PatternView::Custom("three-water"@)),
        spec_jianghu_spell(KING_YAMA_DECREE@, "閻王令"@, "１級牌；對方生命值４０以下時直接獲勝"@, false, PatternView::Custom("single-level-one"@)),
    ]
}

/// The Jianghu formations.
pub fn formation_specs() -> (r: Vec<BaseFormationSpec>)
    ensures
        spec_views(r@) == jianghu_formation_table(),
{
    let v = vec![
        attack(THOUSAND_BLADES_SWORD_ART, "千鋒劍訣", "金行牌＋同級牌；物理攻擊，點數＝等級總和×３；進入千鋒", AttackCategory::Physical, custom("metal-and-same-level"), PointFormula::LevelSumTimes(3)),
        attack(SNOW_TREADING_SWORD_ART, "踏雪劍訣", "水行牌＋同級牌；特殊攻擊，點數＝等級總和×３；進入踏雪", AttackCategory::Special, custom("water-and-same-level"), PointFormula::LevelSumTimes(3)),
        attack(FLOWING_SHADOW_SWORD, "流影殘光劍", "三張不同等級牌；特殊攻擊，點數＝等級總和×３", AttackCategory::Special, custom("three-different-levels"), PointFormula::LevelSumTimes(3)),
        attack(THOUSAND_BLADES_FLYING_FEATHER, "千鋒飛羽", "金金＋５級牌；物理攻擊，固定３０點", AttackCategory::Physical, custom("metal-metal-and-level-five"), PointFormula::Fixed(30)),
        attack(SNOW_TREADING_REFLECTED_MOON, "踏雪映月", "水水＋５級牌；特殊攻擊，固定３０點", AttackCategory::Special, custom("water-water-and-level-five"), PointFormula::Fixed(30)),
        attack(FLOWING_SHADOW_CLOUD_BREAKING, "流影崩雲劍", "１至５級牌各一張；特殊攻擊，固定８０點", AttackCategory::Special, custom("levels-one-through-five"), PointFormula::Fixed(80)),
        attack(WATER_DOTTING_FAN, "點水扇", "１級牌；特殊攻擊，固定５點", AttackCategory::Special, custom("single-level-one"), PointFormula::Fixed(5)),
        attack(WIND_RIDING_FAN, "凌風扇", "３級牌；特殊攻擊，固定１０點", AttackCategory::Special, custom("single-level-three"), PointFormula::Fixed(10)),
        attack(FAN_BEYOND_HEAVEN, "天外飛扇", "５級牌；特殊攻擊，固定０點；上家下回合行動後扣２０", AttackCategory::Special, custom("single-level-five"), PointFormula::Fixed(0)),
        spell(POISON_DART, "毒鏢", "金行牌；下家中毒１回合", false, exact1(Element::Metal)),
        spell(POISON_SMOKE, "毒煙", "火行牌＋木行牌；翻開時下家中毒１回合", true, exact2(Element::Fire, Element::Wood)),
        spell(THOUSAND_POISON_HAND, "千毒手", "三張不同行同級牌；下家扣１０並中毒２回合", false, custom("three-different-elements-same-level")),
        spell(LINGERING_FROST_HAND, "殘霜手", "三張水行牌；下家無法行動及抽牌１回合，並中毒２回合", false, custom("three-water")),
        spell(KING_YAMA_DECREE, "閻王令", "１級牌；對方生命值４０以下時直接獲勝", false, custom("single-level-one")),
    ];
    assert(spec_views(v@) =~= jianghu_formation_table());
    v
}

/// The Jianghu profession formations.
pub open spec fn spec_is_profession_formation(id: Seq<char>) -> bool {
    id == THOUSAND_BLADES_SWORD_ART@ || id == SNOW_TREADING_SWORD_ART@ || id == FLOWING_SHADOW_SWORD@ || id == THOUSAND_BLADES_FLYING_FEATHER@ || id == SNOW_TREADING_REFLECTED_MOON@ || id == FLOWING_SHADOW_CLOUD_BREAKING@ || id == WATER_DOTTING_FAN@ || id == WIND_RIDING_FAN@ || id == FAN_BEYOND_HEAVEN@ || id == POISON_DART@ || id == POISON_SMOKE@ || id == THOUSAND_POISON_HAND@ || id == LINGERING_FROST_HAND@ || id == KING_YAMA_DECREE@
}

/// Whether a formation is a Jianghu profession formation.
pub fn is_profession_formation(id: &str) -> (r: bool)
    ensures
        r == spec_is_profession_formation(id@),
{
    str_eq(id, THOUSAND_BLADES_SWORD_ART) || str_eq(id, SNOW_TREADING_SWORD_ART) || str_eq(id, FLOWING_SHADOW_SWORD) || str_eq(id, THOUSAND_BLADES_FLYING_FEATHER) || str_eq(id, SNOW_TREADING_REFLECTED_MOON) || str_eq(id, FLOWING_SHADOW_CLOUD_BREAKING) || str_eq(id, WATER_DOTTING_FAN) || str_eq(id, WIND_RIDING_FAN) || str_eq(id, FAN_BEYOND_HEAVEN) || str_eq(id, POISON_DART) || str_eq(id, POISON_SMOKE) || str_eq(id, THOUSAND_POISON_HAND) || str_eq(id, LINGERING_FROST_HAND) || str_eq(id, KING_YAMA_DECREE)
}

/// Whether a player holding `profession`, whose line is `lineage`, may use the named
/// formation: the sword arts belong to the Swordsman line and the Sword Sage, the fans to
/// the Ink Seeker line and the Book Immortal, the poisons to the Poisoner line and the
/// Poison Saint.
pub open spec fn spec_can_use_profession_formation(
    profession: Option<Seq<char>>,
    lineage: Seq<ProfessionId>,
    id: Seq<char>,
) -> bool {
    match profession {
        None => false,
        Some(p) => if id == THOUSAND_BLADES_SWORD_ART@ || id == SNOW_TREADING_SWORD_ART@ || id
            == FLOWING_SHADOW_SWORD@ {
            lineage_has(lineage, SWORDSMAN_ID@)
        } else if id == THOUSAND_BLADES_FLYING_FEATHER@ || id == SNOW_TREADING_REFLECTED_MOON@
            || id == FLOWING_SHADOW_CLOUD_BREAKING@ {
            p == SWORD_SAGE_ID@
        } else if id == WATER_DOTTING_FAN@ || id == WIND_RIDING_FAN@ {
            lineage_has(lineage, INK_SEEKER_ID@)
        } else if id == FAN_BEYOND_HEAVEN@ {
            p == BOOK_IMMORTAL_ID@
        } else if id == POISON_DART@ || id == POISON_SMOKE@ || id == THOUSAND_POISON_HAND@ {
            lineage_has(lineage, POISONER_ID@)
        } else if id == LINGERING_FROST_HAND@ || id == KING_YAMA_DECREE@ {
            p == POISON_SAINT_ID@
        } else {
            false
        },
    }
}

/// Whether a player holding `profession`, whose line is `lineage`, may use the named
/// formation.
pub fn can_use_profession_formation(
    profession: Option<&ProfessionId>,
    lineage: &[ProfessionId],
    id: &str,
) -> (r: bool)
    ensures
        r == spec_can_use_profession_formation(opt_view(profession), lineage@, id@),
{
    let p = match profession {
        Some(p) => p.as_str(),
        None => {
            return false;
        },
    };
    if str_eq(id, THOUSAND_BLADES_SWORD_ART) || str_eq(id, SNOW_TREADING_SWORD_ART) || str_eq(
        id,
        FLOWING_SHADOW_SWORD,
    ) {
        lineage_contains(lineage, SWORDSMAN_ID)
    } else if str_eq(id, THOUSAND_BLADES_FLYING_FEATHER) || str_eq(id, SNOW_TREADING_REFLECTED_MOON)
        || str_eq(id, FLOWING_SHADOW_CLOUD_BREAKING) {
        str_eq(p, SWORD_SAGE_ID)
    } else if str_eq(id, WATER_DOTTING_FAN) || str_eq(id, WIND_RIDING_FAN) {
        lineage_contains(lineage, INK_SEEKER_ID)
    } else if str_eq(id, FAN_BEYOND_HEAVEN) {
        str_eq(p, BOOK_IMMORTAL_ID)
    } else if str_eq(id, POISON_DART) || str_eq(id, POISON_SMOKE) || str_eq(id, THOUSAND_POISON_HAND) {
        lineage_contains(lineage, POISONER_ID)
    } else if str_eq(id, LINGERING_FROST_HAND) || str_eq(id, KING_YAMA_DECREE) {
        str_eq(p, POISON_SAINT_ID)
    } else {
        false
    }
}

/// The name and rule text of each formation a player holding `profession`, whose line is
/// `lineage`, may use, in catalog order.
pub open spec fn spec_formation_summaries(profession: Seq<char>, lineage: Seq<ProfessionId>) -> Seq<
    (Seq<char>, Seq<char>),
> {
    jianghu_formation_table().filter_map(
        |s: SpecView|
            if spec_can_use_profession_formation(Some(profession), lineage, s.formation.id) {
                Some((s.formation.name, s.formation.rule_text))
            } else {
                None
            },
    )
}

/// The name and rule text of each formation a player holding `profession` may use.
pub fn profession_formation_summaries(profession: &ProfessionId, lineage: &[ProfessionId]) -> (r:
    Vec<(String, String)>)
    ensures
        crate::rules::profession::pair_views(r@) == spec_formation_summaries(profession@, lineage@),
{
    let specs = formation_specs();
    let ghost table = jianghu_formation_table();
    let ghost f = |s: SpecView|
        if spec_can_use_profession_formation(Some(profession@), lineage@, s.formation.id) {
            Some((s.formation.name, s.formation.rule_text))
        } else {
            None
        };
    let mut r: Vec<(String, String)> = Vec::new();
    let mut k: usize = 0;
    while k < specs.len()
        invariant
            k <= specs.len(),
            spec_views(specs@) == table,
            table == jianghu_formation_table(),
            f == (|s: SpecView|
                if spec_can_use_profession_formation(Some(profession@), lineage@, s.formation.id) {
                    Some((s.formation.name, s.formation.rule_text))
                } else {
                    None
                }),
            crate::rules::profession::pair_views(r@) == table.take(k as int).filter_map(f),
        decreases specs.len() - k,
    {
        proof {
            table.lemma_filter_map_take_succ(f, k as int);
        }
        assert(spec_views(specs@)[k as int] == specs@[k as int]@);
        let formation = &specs[k].formation;
        if can_use_profession_formation(Some(profession), lineage, formation.id.as_str()) {
            r.push((formation.name.clone(), formation.rule_text.clone()));
        }
        assert(crate::rules::profession::pair_views(r@) =~= table.take(k as int + 1).filter_map(f));
        k = k + 1;
    }
    assert(table.take(specs.len() as int) =~= table);
    r
}

// ---------------------------------------------------------------------------
// Profession changes.
// ---------------------------------------------------------------------------

/// At least one card, all of the two elements, each element's levels totalling at least
/// its minimum.
pub open spec fn spec_dual_element_minimums(
    facts: Seq<SubmittedCardFacts>,
    first: Element,
    first_minimum: int,
    second: Element,
    second_minimum: int,
) -> bool {
    &&& facts.len() > 0
    &&& forall|i: int| 0 <= i < facts.len() ==> facts[i].element == first || facts[i].element == second
    &&& element_level_sum(facts, first) >= first_minimum
    &&& element_level_sum(facts, second) >= second_minimum
}

/// Whether the cards are all of the two elements with each element's minimum reached.
pub fn dual_element_minimums(
    facts: &[SubmittedCardFacts],
    first: Element,
    first_minimum: u32,
    second: Element,
    second_minimum: u32,
) -> (r: bool)
    ensures
        r == spec_dual_element_minimums(
            facts@,
            first,
            first_minimum as int,
            second,
            second_minimum as int,
        ),
{
    if facts.len() == 0 {
        return false;
    }
    let mut i: usize = 0;
    while i < facts.len()
        invariant
            i <= facts.len(),
            forall|j: int| 0 <= j < i ==> facts@[j].element == first || facts@[j].element == second,
        decreases facts.len() - i,
    {
        if facts[i].element != first && facts[i].element != second {
            return false;
        }
        i = i + 1;
    }
    element_minimum(facts, first, first_minimum) && element_minimum(facts, second, second_minimum)
}

/// Whether a player holding `current` may change into `target` with the submitted cards.
pub open spec fn spec_change_matches(
    current: Option<Seq<char>>,
    target: Seq<char>,
    facts: Seq<SubmittedCardFacts>,
) -> bool {
    let first_or_lone = current == Some(FIRST_WANDERER_ID@) || current == Some(LONE_WANDERER_ID@);
    if target == LONE_WANDERER_ID@ {
        current is None && facts.len() == 1 && facts[0].level == 3
    } else if target == SWORDSMAN_ID@ {
        first_or_lone && spec_dual_element_minimums(facts, Element::Metal, 3, Element::Water, 3)
    } else if target == SWORD_SAGE_ID@ {
        current == Some(SWORDSMAN_ID@) && spec_dual_element_minimums(
            facts,
            Element::Metal,
            5,
            Element::Water,
            5,
        )
    } else if target == QI_CULTIVATOR_ID@ {
        first_or_lone && spec_dual_element_minimums(facts, Element::Wood, 3, Element::Fire, 3)
    } else if target == QI_GRANDMASTER_ID@ {
        current == Some(QI_CULTIVATOR_ID@) && spec_dual_element_minimums(
            facts,
            Element::Wood,
            5,
            Element::Fire,
            5,
        )
    } else if target == INK_SEEKER_ID@ {
        first_or_lone && facts.len() == 2 && facts[0] == facts[1] && facts[0].level >= 3
    } else if target == BOOK_IMMORTAL_ID@ {
        current == Some(INK_SEEKER_ID@) && facts.len() == 2 && facts[0] == facts[1]
            && facts[0].level == 5
    } else if target == POISONER_ID@ {
        first_or_lone && facts.len() == 2 && crate::rules::matcher::all_level(facts, 1)
            && facts[0].element != facts[1].element
    } else if target == POISON_SAINT_ID@ {
        &&& current == Some(POISONER_ID@)
        &&& facts.len() == 3
        &&& crate::rules::matcher::all_level(facts, 1)
        &&& facts[0].element != facts[1].element
        &&& facts[0].element != facts[2].element
        &&& facts[1].element != facts[2].element
    } else {
        false
    }
}

fn is_current(current: Option<&ProfessionId>, id: &str) -> (r: bool)
    ensures
        r == (opt_view(current) == Some(id@)),
{
    match current {
        Some(c) => str_eq(c.as_str(), id),
        None => false,
    }
}

/// Whether a player holding `current` may change into `target` with the submitted cards.
pub fn change_matches(current: Option<&ProfessionId>, target: &ProfessionId, facts: &[SubmittedCardFacts]) -> (r:
    bool)
    ensures
        r == spec_change_matches(opt_view(current), target@, facts@),
{
    let first_or_lone = is_current(current, FIRST_WANDERER_ID) || is_current(current, LONE_WANDERER_ID);
    let id = target.as_str();
    if str_eq(id, LONE_WANDERER_ID) {
        current.is_none() && facts.len() == 1 && facts[0].level == 3
    } else if str_eq(id, SWORDSMAN_ID) {
        first_or_lone && dual_element_minimums(facts, Element::Metal, 3, Element::Water, 3)
    } else if str_eq(id, SWORD_SAGE_ID) {
        is_current(current, SWORDSMAN_ID) && dual_element_minimums(facts, Element::Metal, 5, Element::Water, 5)
    } else if str_eq(id, QI_CULTIVATOR_ID) {
        first_or_lone && dual_element_minimums(facts, Element::Wood, 3, Element::Fire, 3)
    } else if str_eq(id, QI_GRANDMASTER_ID) {
        is_current(current, QI_CULTIVATOR_ID) && dual_element_minimums(facts, Element::Wood, 5, Element::Fire, 5)
    } else if str_eq(id, INK_SEEKER_ID) {
        first_or_lone && facts.len() == 2 && facts[0] == facts[1] && facts[0].level >= 3
    } else if str_eq(id, BOOK_IMMORTAL_ID) {
        is_current(current, INK_SEEKER_ID) && facts.len() == 2 && facts[0] == facts[1] && facts[0].level == 5
    } else if str_eq(id, POISONER_ID) {
        first_or_lone && facts.len() == 2 && crate::rules::matcher::all_of_level(facts, 1)
            && facts[0].element != facts[1].element
    } else if str_eq(id, POISON_SAINT_ID) {
        is_current(current, POISONER_ID) && facts.len() == 3 && crate::rules::matcher::all_of_level(facts, 1)
            && facts[0].element != facts[1].element && facts[0].element != facts[2].element
            && facts[1].element != facts[2].element
    } else {
        false
    }
}

/// Accepts the change of a player into `target` when the submitted cards match it, and
/// refuses it otherwise.
pub fn validate_profession_change(
    current: Option<&ProfessionId>,
    target: &ProfessionId,
    facts: &[SubmittedCardFacts],
) -> (r: Result<(), GameError>)
    ensures
        r is Ok <==> spec_change_matches(opt_view(current), target@, facts@),
        r is Err ==> r == Err::<(), GameError>(
            GameError::Validation(
                ValidationError::ProfessionChangePatternMismatch { profession: *target },
            ),
        ),
{
    if change_matches(current, target, facts) {
        Ok(())
    } else {
        Err(
            GameError::Validation(
                ValidationError::ProfessionChangePatternMismatch { profession: target.clone() },
            ),
        )
    }
}

/// The identity and name of each profession the submitted cards change into.
pub open spec fn spec_profession_changes(
    current: Option<Seq<char>>,
    facts: Seq<SubmittedCardFacts>,
) -> Seq<(Seq<char>, Seq<char>)> {
    jianghu_entry_table().filter_map(
        |e: CatalogEntryView|
            if spec_change_matches(current, e.id, facts) {
                Some((e.id, e.name))
            } else {
                None
            },
    )
}

/// The professions of the module the submitted cards change a player into, each offered
/// with the submitted cards; none while the module is disabled.
pub fn playable_profession_changes(
    module_enabled: bool,
    current: Option<&ProfessionId>,
    cards: &[CardInstanceId],
    facts: &[SubmittedCardFacts],
) -> (r: Vec<crate::rules::detail::ProfessionChangeCandidate>)
    ensures
        !module_enabled ==> r@.len() == 0,
        module_enabled ==> r@.map_values(
            |c: crate::rules::detail::ProfessionChangeCandidate| crate::rules::profession::change_offer(c),
        ) == spec_profession_changes(opt_view(current), facts@),
        forall|i: int|
            0 <= i < r@.len() ==> (#[trigger] r@[i]).cards@ == cards@
                && r@[i].detail.consequences@.len() == 0,
{
    let mut r: Vec<crate::rules::detail::ProfessionChangeCandidate> = Vec::new();
    if !module_enabled {
        return r;
    }
    let entries = profession_catalog_entries();
    let ghost table = jianghu_entry_table();
    let ghost f = |e: CatalogEntryView|
        if spec_change_matches(opt_view(current), e.id, facts@) {
            Some((e.id, e.name))
        } else {
            None
        };
    let mut k: usize = 0;
    while k < entries.len()
        invariant
            k <= entries.len(),
            entry_views(entries@) == table,
            table == jianghu_entry_table(),
            f == (|e: CatalogEntryView|
                if spec_change_matches(opt_view(current), e.id, facts@) {
                    Some((e.id, e.name))
                } else {
                    None
                }),
            r@.map_values(|c: crate::rules::detail::ProfessionChangeCandidate| crate::rules::profession::change_offer(c))
                == table.take(k as int).filter_map(f),
            forall|i: int|
                0 <= i < r@.len() ==> (#[trigger] r@[i]).cards@ == cards@
                    && r@[i].detail.consequences@.len() == 0,
        decreases entries.len() - k,
    {
        proof {
            table.lemma_filter_map_take_succ(f, k as int);
        }
        assert(entry_views(entries@)[k as int] == entries@[k as int]@);
        let e = &entries[k];
        if change_matches(current, &e.id, facts) {
            r.push(
                crate::rules::detail::ProfessionChangeCandidate {
                    profession_id: e.id.clone(),
                    profession_name: owned(e.name),
                    cards: copy_cards(cards),
                    detail: crate::rules::detail::PlayerFacingActionDetail::pending_composition(),
                },
            );
        }
        assert(r@.map_values(|c: crate::rules::detail::ProfessionChangeCandidate| crate::rules::profession::change_offer(c))
            =~= table.take(k as int + 1).filter_map(f));
        k = k + 1;
    }
    assert(table.take(entries.len() as int) =~= table);
    r
}

// ---------------------------------------------------------------------------
// Lasting states.
// ---------------------------------------------------------------------------

/// Some state of the kind lies on the player.
pub open spec fn spec_has_state(states: Seq<JianghuState>, player: Seq<char>, kind: JianghuStateKind) -> bool {
    exists|i: int| 0 <= i < states.len() && states[i].owner@ == player && states[i].kind == kind
}

/// Whether a state of the kind lies on the player.
pub fn has_state(states: &[JianghuState], player: &PlayerId, kind: JianghuStateKind) -> (r: bool)
    ensures
        r == spec_has_state(states@, player@, kind),
{
    let mut i: usize = 0;
    while i < states.len()
        invariant
            i <= states.len(),
            forall|j: int| 0 <= j < i ==> !(states@[j].owner@ == player@ && states@[j].kind == kind),
        decreases states.len() - i,
    {
        if states[i].owner.same(player) && states[i].kind == kind {
            return true;
        }
        i = i + 1;
    }
    false
}

/// Some seated player of the team is poisoned.
pub open spec fn spec_team_has_poison(states: Seq<JianghuState>, players: Seq<Player>, team: Seq<char>) -> bool {
    exists|i: int, j: int|
        0 <= i < states.len() && 0 <= j < players.len() && states[i].kind == JianghuStateKind::Poison
            && players[j].id@ == states[i].owner@ && players[j].team@ == team
}

fn seated_on_team(players: &[Player], owner: &PlayerId, team: &TeamId) -> (r: bool)
    ensures
        r == exists|j: int| 0 <= j < players@.len() && players@[j].id@ == owner@ && players@[j].team@ == team@,
{
    let mut j: usize = 0;
    while j < players.len()
        invariant
            j <= players.len(),
            forall|k: int| 0 <= k < j ==> !(players@[k].id@ == owner@ && players@[k].team@ == team@),
        decreases players.len() - j,
    {
        if players[j].id.same(owner) && players[j].team.same(team) {
            return true;
        }
        j = j + 1;
    }
    false
}

/// Whether some seated player of the team is poisoned.
pub fn team_has_poison(states: &[JianghuState], players: &[Player], team: &TeamId) -> (r: bool)
    ensures
        r == spec_team_has_poison(states@, players@, team@),
{
    let mut i: usize = 0;
    while i < states.len()
        invariant
            i <= states.len(),
            forall|k: int, j: int|
                0 <= k < i && 0 <= j < players@.len() ==> !(states@[k].kind == JianghuStateKind::Poison
                    && players@[j].id@ == states@[k].owner@ && players@[j].team@ == team@),
        decreases states.len() - i,
    {
        if states[i].kind == JianghuStateKind::Poison && seated_on_team(players, &states[i].owner, team) {
            return true;
        }
        i = i + 1;
    }
    false
}

/// Whether the player is poisoned.
pub fn player_has_poison(states: &[JianghuState], player: &PlayerId) -> (r: bool)
    ensures
        r == spec_has_state(states@, player@, JianghuStateKind::Poison),
{
    has_state(states, player, JianghuStateKind::Poison)
}

/// The Yang aura halves incoming Wood and Fire elemental damage for an unsuppressed
/// profession.
pub fn halves_incoming_damage(suppressed: bool, category: AttackCategory, yang_aura: bool) -> (r: bool)
    ensures
        r == (!suppressed && (category == AttackCategory::Elemental(Element::Wood) || category
            == AttackCategory::Elemental(Element::Fire)) && yang_aura),
{
    if suppressed {
        return false;
    }
    match category {
        AttackCategory::Elemental(Element::Wood) | AttackCategory::Elemental(Element::Fire) => yang_aura,
        _ => false,
    }
}

/// The Extreme Yang Force applies to a Five Streams Unite of a player who holds it.
pub fn extreme_yang_applies(formation_id: &str, ability_ids: &[&'static str]) -> (r: bool)
    ensures
        r == (formation_id@ == "five-streams-unite"@ && text_views(ability_ids@).contains(
            "jianghu:extreme-yang-force"@,
        )),
{
    str_eq(formation_id, "five-streams-unite") && holds_ability(ability_ids, "jianghu:extreme-yang-force")
}

fn holds_ability(ability_ids: &[&'static str], id: &str) -> (r: bool)
    ensures
        r == text_views(ability_ids@).contains(id@),
{
    let mut i: usize = 0;
    while i < ability_ids.len()
        invariant
            i <= ability_ids.len(),
            forall|j: int| 0 <= j < i ==> ability_ids@[j]@ != id@,
        decreases ability_ids.len() - i,
    {
        if str_eq(ability_ids[i], id) {
            assert(text_views(ability_ids@)[i as int] == id@);
            return true;
        }
        i = i + 1;
    }
    assert forall|j: int| 0 <= j < text_views(ability_ids@).len() implies text_views(ability_ids@)[j] != id@ by {
        assert(ability_ids@[j]@ != id@);
    }
    false
}


// ---------------------------------------------------------------------------
// Attack points.
// ---------------------------------------------------------------------------

/// What the attack-point bonuses read of one used card: its printed element and its
/// level for the attacker, where they are known.
#[derive(Clone, Copy, Debug, PartialEq, Eq, Structural)]
pub struct UsedCardLevel {
    pub element: Option<Element>,
    pub level: Option<u32>,
}

/// The card counts as raised: its level is known and below five.
pub open spec fn is_raised(c: UsedCardLevel) -> bool {
    c.level is Some && c.level.unwrap() < 5
}

/// How many used cards count as raised.
pub open spec fn raised_count(cards: Seq<UsedCardLevel>) -> int
    decreases cards.len(),
{
    if cards.len() == 0 {
        0
    } else {
        raised_count(cards.drop_last()) + if is_raised(cards.last()) {
            1int
        } else {
            0
        }
    }
}

/// How many used cards of the element `e` count as raised.
pub open spec fn raised_count_of(cards: Seq<UsedCardLevel>, e: Element) -> int
    decreases cards.len(),
{
    if cards.len() == 0 {
        0
    } else {
        raised_count_of(cards.drop_last(), e) + if is_raised(cards.last()) && cards.last().element
            == Some(e) {
            1int
        } else {
            0
        }
    }
}

proof fn lemma_raised_counts_bounded(cards: Seq<UsedCardLevel>, e: Element)
    ensures
        0 <= raised_count_of(cards, e) <= raised_count(cards) <= cards.len(),
    decreases cards.len(),
{
    if cards.len() > 0 {
        lemma_raised_counts_bounded(cards.drop_last(), e);
    }
}

/// The Yang force adds fifteen points to a Five Streams Unite.
pub open spec fn spec_yang_bonus(formation_id: Seq<char>, abilities: Seq<Seq<char>>) -> int {
    if formation_id == "five-streams-unite"@ && (abilities.contains("jianghu:pure-yang-force"@)
        || abilities.contains("jianghu:extreme-yang-force"@)) {
        15
    } else {
        0
    }
}

/// The Thousand Blades bonus: for the Thousand Blades Sword Art itself, or while the
/// attacker holds the Thousand Blades state, each raised card adds to the formula.
pub open spec fn spec_thousand_blades_bonus(
    thousand_blades: bool,
    formation_id: Seq<char>,
    formula: PointFormula,
    cards: Seq<UsedCardLevel>,
) -> int {
    if formation_id != THOUSAND_BLADES_SWORD_ART@ && !thousand_blades {
        0
    } else {
        match formula {
            PointFormula::LevelPlus(_) => if raised_count(cards) >= 1 {
                1
            } else {
                0
            },
            PointFormula::LevelSumTimes(m) => raised_count(cards) * m,
            PointFormula::ElementProductTimes { element, multiplier } => raised_count_of(
                cards,
                element,
            ) * multiplier,
            _ => 0,
        }
    }
}

/// The attack points after the Jianghu bonuses.
pub open spec fn spec_modified_attack_points(
    ability_ids: Seq<Seq<char>>,
    thousand_blades: bool,
    formation_id: Seq<char>,
    formula: PointFormula,
    cards: Seq<UsedCardLevel>,
    points: int,
) -> int {
    points + spec_yang_bonus(formation_id, ability_ids) + spec_thousand_blades_bonus(
        thousand_blades,
        formation_id,
        formula,
        cards,
    )
}

fn count_raised(cards: &[UsedCardLevel], e: Option<Element>) -> (r: u32)
    requires
        cards.len() <= u32::MAX,
    ensures
        r == match e {
            Some(x) => raised_count_of(cards@, x),
            None => raised_count(cards@),
        },
{
    let mut n: u32 = 0;
    let mut i: usize = 0;
    while i < cards.len()
        invariant
            i <= cards.len() <= u32::MAX,
            n == match e {
                Some(x) => raised_count_of(cards@.subrange(0, i as int), x),
                None => raised_count(cards@.subrange(0, i as int)),
            },
            n <= i,
        decreases cards.len() - i,
    {
        assert(cards@.subrange(0, i as int + 1).drop_last() =~= cards@.subrange(0, i as int));
        let c = cards[i];
        let raised = match c.level {
            Some(l) => l < 5,
            None => false,
        };
        let counts = match e {
            Some(x) => raised && c.element == Some(x),
            None => raised,
        };
        if counts {
            n = n + 1;
        }
        i = i + 1;
    }
    assert(cards@.subrange(0, cards.len() as int) =~= cards@);
    n
}

/// The attack points of a Jianghu attacker: fifteen more for a Five Streams Unite of
/// a Yang force holder, and for the Thousand Blades Sword Art, or while the attacker
/// holds the Thousand Blades state, more for each used card whose level is below five.
pub fn modify_attack_points(
    ability_ids: &[&'static str],
    thousand_blades: bool,
    formation_id: &str,
    formula: PointFormula,
    cards: &[UsedCardLevel],
    points: i32,
) -> (r: i32)
    requires
        cards.len() <= u32::MAX,
        i32::MIN <= spec_modified_attack_points(
            text_views(ability_ids@),
            thousand_blades,
            formation_id@,
            formula,
            cards@,
            points as int,
        ) <= i32::MAX,
        points + spec_yang_bonus(formation_id@, text_views(ability_ids@)) <= i32::MAX,
    ensures
        r == spec_modified_attack_points(
            text_views(ability_ids@),
            thousand_blades,
            formation_id@,
            formula,
            cards@,
            points as int,
        ),
{
    let points = if str_eq(formation_id, "five-streams-unite") && (holds_ability(
        ability_ids,
        "jianghu:pure-yang-force",
    ) || holds_ability(ability_ids, "jianghu:extreme-yang-force")) {
        points + 15
    } else {
        points
    };
    if !str_eq(formation_id, THOUSAND_BLADES_SWORD_ART) && !thousand_blades {
        return points;
    }
    proof {
        match formula {
            PointFormula::ElementProductTimes { element, multiplier } => {
                lemma_raised_counts_bounded(cards@, element);
            },
            _ => {
                lemma_raised_counts_bounded(cards@, Element::Metal);
            },
        }
    }
    match formula {
        PointFormula::LevelPlus(_) => {
            let raised = count_raised(cards, None);
            if raised >= 1 {
                points + 1
            } else {
                points
            }
        },
        PointFormula::LevelSumTimes(m) => {
            let raised = count_raised(cards, None);
            let bonus: i64 = raised as i64 * m as i64;
            (points as i64 + bonus) as i32
        },
        PointFormula::ElementProductTimes { element, multiplier } => {
            let raised = count_raised(cards, Some(element));
            let bonus: i64 = raised as i64 * multiplier as i64;
            (points as i64 + bonus) as i32
        },
        _ => points,
    }
}


// ---------------------------------------------------------------------------
// Lasting states at the end of a turn.
// ---------------------------------------------------------------------------

/// How one of the target's Jianghu states changes at the end of its turn.
#[derive(Debug, PartialEq, Eq)]
pub struct JianghuStateReduction {
    pub owner: PlayerId,
    pub kind: JianghuStateKind,
    pub old_remaining_turns: u32,
    pub new_remaining_turns: u32,
    pub old_expires_on_turn: Option<u64>,
    pub new_expires_on_turn: Option<u64>,
}

/// A reduction as plain values: owner, kind, remaining turns before and after,
/// expiry turn before and after.
pub type ReductionView = (Seq<char>, JianghuStateKind, u32, u32, Option<u64>, Option<u64>);

pub open spec fn reduction_view(r: JianghuStateReduction) -> ReductionView {
    (r.owner@, r.kind, r.old_remaining_turns, r.new_remaining_turns, r.old_expires_on_turn, r.new_expires_on_turn)
}

pub open spec fn reduction_views(s: Seq<JianghuStateReduction>) -> Seq<ReductionView> {
    s.map_values(|r: JianghuStateReduction| reduction_view(r))
}

/// Poison loses a turn (never going below zero); the other states keep their turns;
/// every state loses its expiry turn.
pub open spec fn spec_reduce(st: JianghuState) -> ReductionView {
    (
        st.owner@,
        st.kind,
        st.remaining_turns,
        if st.kind == JianghuStateKind::Poison {
            if st.remaining_turns == 0 {
                0u32
            } else {
                (st.remaining_turns - 1) as u32
            }
        } else {
            st.remaining_turns
        },
        st.expires_on_turn,
        None,
    )
}

/// The reductions of the target's states, in the order the states are held.
pub open spec fn spec_state_reductions(states: Seq<JianghuState>, target: Seq<char>) -> Seq<
    ReductionView,
>
    decreases states.len(),
{
    if states.len() == 0 {
        seq![]
    } else {
        spec_state_reductions(states.drop_last(), target) + if states.last().owner@ == target {
            seq![spec_reduce(states.last())]
        } else {
            seq![]
        }
    }
}

/// The reductions of the target's Jianghu states at the end of its turn; none when
/// the Jianghu module is not enabled.
pub fn state_reductions(jianghu_enabled: bool, states: &[JianghuState], target: &PlayerId) -> (r:
    Vec<JianghuStateReduction>)
    ensures
        reduction_views(r@) == if jianghu_enabled {
            spec_state_reductions(states@, target@)
        } else {
            seq![]
        },
{
    let mut out: Vec<JianghuStateReduction> = Vec::new();
    if !jianghu_enabled {
        assert(reduction_views(out@) =~= seq![]);
        return out;
    }
    let mut i: usize = 0;
    while i < states.len()
        invariant
            i <= states.len(),
            reduction_views(out@) == spec_state_reductions(states@.subrange(0, i as int), target@),
        decreases states.len() - i,
    {
        assert(states@.subrange(0, i as int + 1).drop_last() =~= states@.subrange(0, i as int));
        let st = &states[i];
        if str_eq(st.owner.as_str(), target.as_str()) {
            let new_remaining = if st.kind == JianghuStateKind::Poison {
                st.remaining_turns.saturating_sub(1)
            } else {
                st.remaining_turns
            };
            let red = JianghuStateReduction {
                owner: st.owner.clone(),
                kind: st.kind,
                old_remaining_turns: st.remaining_turns,
                new_remaining_turns: new_remaining,
                old_expires_on_turn: st.expires_on_turn,
                new_expires_on_turn: None,
            };
            let ghost before = out@;
            out.push(red);
            assert(reduction_views(out@) =~= reduction_views(before) + seq![spec_reduce(states@[i as int])]);
        } else {
            assert(reduction_views(out@) =~= reduction_views(out@) + seq![]);
        }
        i = i + 1;
    }
    assert(states@.subrange(0, states.len() as int) =~= states@);
    out
}

/// A player in the Snow Treading state ignores the effects of other formations.
pub fn ignores_other_formation_effects(states: &[JianghuState], player: &PlayerId) -> (r: bool)
    ensures
        r == spec_has_state(states@, player@, JianghuStateKind::SnowTreading),
{
    has_state(states, player, JianghuStateKind::SnowTreading)
}


/// At the end of a turn a state never gains turns, and loses at most one; only poison
/// loses one, and every reduced state belongs to the target.
pub proof fn lemma_reductions_only_shorten(states: Seq<JianghuState>, target: Seq<char>)
    ensures
        forall|i: int|
            0 <= i < spec_state_reductions(states, target).len() ==> {
                let r = #[trigger] spec_state_reductions(states, target)[i];
                &&& r.0 == target
                &&& r.3 <= r.2
                &&& r.2 <= r.3 + 1
                &&& r.3 < r.2 ==> r.1 == JianghuStateKind::Poison
            },
    decreases states.len(),
{
    if states.len() > 0 {
        lemma_reductions_only_shorten(states.drop_last(), target);
        let prev = spec_state_reductions(states.drop_last(), target);
        assert forall|i: int|
            0 <= i < spec_state_reductions(states, target).len() implies {
                let r = #[trigger] spec_state_reductions(states, target)[i];
                &&& r.0 == target
                &&& r.3 <= r.2
                &&& r.2 <= r.3 + 1
                &&& r.3 < r.2 ==> r.1 == JianghuStateKind::Poison
            } by {
            if i < prev.len() {
                assert(spec_state_reductions(states, target)[i] == prev[i]);
            }
        }
    }
}

} // verus!
