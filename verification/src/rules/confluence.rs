//! The Confluence Generation rule module: the tuning professions and their
//! resonance formations, which read the residual element and level left by the
//! previous player's discard.
use crate::domain::{
    CONFLUENCE_GENERATION_MODULE_ID, CardInstanceId, ConfluenceCardObligation, Element, GameError,
    LimitedUse, PlayerId, ProfessionId, ValidationError, copy_cards, owned, str_eq,
    str_starts_with,
};
use crate::rules::catalog::spec_views;
use crate::rules::matcher::{element_level_sum, element_minimum, one_element_minimum, spec_one_element_minimum};
use crate::rules::profession::{opt_view, text_views};
use crate::rules::detail::{FormationCategory, FormationEffect, TargetDecl};
use crate::rules::hero::{MAGE_ID, SEEKER_ID};
use crate::rules::matcher::{FormationPattern, PatternView, SubmittedCardFacts, all_elem, level_sum, level_sum_at_least};
use crate::rules::profession::{
    CatalogEntryView, ProfessionCatalogEntry, entry, entry_views, lineage_contains, lineage_has,
};
use crate::rules::registry::{
    BaseFormationSpec, EffectDef, EffectDefView, EffectPlan, EffectPlanView, FormationDef,
    FormationDefView, PointFormula, SpecView, SpellPlanDef,
};
use vstd::prelude::*;

verus! {

pub const TUNER_ID: &'static str = "confluence:tuner";
pub const STRING_CHANGER_ID: &'static str = "confluence:string-changer";
pub const HEAVENLY_RESONATOR_ID: &'static str = "confluence:heavenly-resonator";
pub const DAO_MAGE_ID: &'static str = "confluence:dao-mage";
pub const DAO_SAINT_ID: &'static str = "confluence:dao-saint";
pub const CLEAR_WIND_ADEPT_ID: &'static str = "confluence:clear-wind-adept";
pub const CLEAR_WIND_ENVOY_ID: &'static str = "confluence:clear-wind-envoy";
pub const VOID_SEEKER_ID: &'static str = "confluence:void-seeker";
pub const VOID_DESTROYER_ID: &'static str = "confluence:void-destroyer";

pub const HEAVENLY_RESONANCE_USE: &'static str = "confluence:heavenly-resonance";
pub const IMPRISONING_ARRAY_USE: &'static str = "confluence:imprisoning-array";
pub const TAILWIND_USE: &'static str = "confluence:tailwind";
pub const VOID_REALM_USE: &'static str = "confluence:void-realm";

pub const MIRROR_RESONANCE: &'static str = "confluence:mirror-resonance";
pub const FOREST_RESONANCE: &'static str = "confluence:forest-resonance";
pub const STREAM_RESONANCE: &'static str = "confluence:stream-resonance";
pub const BLAZE_RESONANCE: &'static str = "confluence:blaze-resonance";
pub const EARTH_RESONANCE: &'static str = "confluence:earth-resonance";
pub const THOUSAND_RESONANCE: &'static str = "confluence:thousand-resonance";
pub const MYRIAD_RESONANCE: &'static str = "confluence:myriad-resonance";
pub const IMPRISONING_ARRAY: &'static str = "confluence:imprisoning-array";
pub const ENDLESS_ARRAY: &'static str = "confluence:endless-array";
pub const WIND_DANCE: &'static str = "confluence:wind-dance";
pub const CLEAR_WIND_TEN_THOUSAND_MILES: &'static str = "confluence:clear-wind-ten-thousand-miles";
pub const VOID_BARRIER: &'static str = "confluence:void-barrier";
pub const VOID_RETURN_TO_NOTHING: &'static str = "confluence:void-return-to-nothing";

// ---------------------------------------------------------------------------
// Professions.
// ---------------------------------------------------------------------------

/// A Confluence Generation catalog entry.
pub open spec fn spec_confluence_entry(
    id: Seq<char>,
    name: Seq<char>,
    rule_text: Seq<char>,
    parents: Seq<Seq<char>>,
    ability_ids: Seq<Seq<char>>,
) -> CatalogEntryView {
    CatalogEntryView {
        id,
        module_id: CONFLUENCE_GENERATION_MODULE_ID@,
        name,
        rule_text,
        parents,
        ability_ids,
    }
}

/// The nine Confluence Generation professions, in catalog order.
pub open spec fn confluence_entry_table() -> Seq<CatalogEntryView> {
    seq![
        spec_confluence_entry(TUNER_ID@, "調律師"@, "目前無職業；以餘行牌等級總和３轉職"@, seq![], seq!["confluence:tuning"@]),
        spec_confluence_entry(STRING_CHANGER_ID@, "易弦師"@, "目前為調律師；以餘行牌等級總和６轉職"@, seq![TUNER_ID@], seq!["confluence:string-changing"@]),
        spec_confluence_entry(HEAVENLY_RESONATOR_ID@, "天響師"@, "目前為易弦師；以餘行牌等級總和９轉職"@, seq![STRING_CHANGER_ID@], seq!["confluence:heavenly-resonance"@]),
        spec_confluence_entry(DAO_MAGE_ID@, "道法師"@, "尋道者以火行６，或法師以木行６轉職"@, seq![SEEKER_ID@, MAGE_ID@], seq![]),
        spec_confluence_entry(DAO_SAINT_ID@, "道法聖"@, "目前為道法師；木５火５"@, seq![DAO_MAGE_ID@], seq!["confluence:living-dao"@]),
        spec_confluence_entry(CLEAR_WIND_ADEPT_ID@, "晴風士"@, "目前無職業；１２、２３、３４或４５"@, seq![], seq!["confluence:clear-wind"@]),
        spec_confluence_entry(CLEAR_WIND_ENVOY_ID@, "晴風使"@, "目前為晴風士；１２３、２３４或３４５"@, seq![CLEAR_WIND_ADEPT_ID@], seq!["confluence:tailwind"@]),
        spec_confluence_entry(VOID_SEEKER_ID@, "虛空追尋者"@, "自身無職業、星辰、精靈；三張同級２至５級牌"@, seq![], seq!["confluence:void-seeking"@]),
        spec_confluence_entry(VOID_DESTROYER_ID@, "虛空破滅者"@, "僅能由虛空追尋轉職"@, seq![VOID_SEEKER_ID@], seq!["confluence:void-destruction"@, "confluence:void-realm"@]),
    ]
}

/// The catalog entries of the Confluence Generation professions.
pub fn profession_catalog_entries() -> (r: Vec<ProfessionCatalogEntry>)
    ensures
        entry_views(r@) == confluence_entry_table(),
{
    let e0 = entry(TUNER_ID, CONFLUENCE_GENERATION_MODULE_ID, "調律師", "目前無職業；以餘行牌等級總和３轉職", &[], &["confluence:tuning"]);
    let e1 = entry(STRING_CHANGER_ID, CONFLUENCE_GENERATION_MODULE_ID, "易弦師", "目前為調律師；以餘行牌等級總和６轉職", &[TUNER_ID], &["confluence:string-changing"]);
    let e2 = entry(HEAVENLY_RESONATOR_ID, CONFLUENCE_GENERATION_MODULE_ID, "天響師", "目前為易弦師；以餘行牌等級總和９轉職", &[STRING_CHANGER_ID], &["confluence:heavenly-resonance"]);
    let e3 = entry(DAO_MAGE_ID, CONFLUENCE_GENERATION_MODULE_ID, "道法師", "尋道者以火行６，或法師以木行６轉職", &[SEEKER_ID, MAGE_ID], &[]);
    let e4 = entry(DAO_SAINT_ID, CONFLUENCE_GENERATION_MODULE_ID, "道法聖", "目前為道法師；木５火５", &[DAO_MAGE_ID], &["confluence:living-dao"]);
    let e5 = entry(CLEAR_WIND_ADEPT_ID, CONFLUENCE_GENERATION_MODULE_ID, "晴風士", "目前無職業；１２、２３、３４或４５", &[], &["confluence:clear-wind"]);
    let e6 = entry(CLEAR_WIND_ENVOY_ID, CONFLUENCE_GENERATION_MODULE_ID, "晴風使", "目前為晴風士；１２３、２３４或３４５", &[CLEAR_WIND_ADEPT_ID], &["confluence:tailwind"]);
    let e7 = entry(VOID_SEEKER_ID, CONFLUENCE_GENERATION_MODULE_ID, "虛空追尋者", "自身無職業、星辰、精靈；三張同級２至５級牌", &[], &["confluence:void-seeking"]);
    let e8 = entry(VOID_DESTROYER_ID, CONFLUENCE_GENERATION_MODULE_ID, "虛空破滅者", "僅能由虛空追尋轉職", &[VOID_SEEKER_ID], &["confluence:void-destruction", "confluence:void-realm"]);
    let v = vec![e0, e1, e2, e3, e4, e5, e6, e7, e8];
    proof {
        let t = confluence_entry_table();
        assert(v@[0]@.parents =~= t[0].parents);
        assert(v@[0]@.ability_ids =~= t[0].ability_ids);
        assert(v@[1]@.parents =~= t[1].parents);
        assert(v@[1]@.ability_ids =~= t[1].ability_ids);
        assert(v@[2]@.parents =~= t[2].parents);
        assert(v@[2]@.ability_ids =~= t[2].ability_ids);
        assert(v@[3]@.parents =~= t[3].parents);
        assert(v@[3]@.ability_ids =~= t[3].ability_ids);
        assert(v@[4]@.parents =~= t[4].parents);
        assert(v@[4]@.ability_ids =~= t[4].ability_ids);
        assert(v@[5]@.parents =~= t[5].parents);
        assert(v@[5]@.ability_ids =~= t[5].ability_ids);
        assert(v@[6]@.parents =~= t[6].parents);
        assert(v@[6]@.ability_ids =~= t[6].ability_ids);
        assert(v@[7]@.parents =~= t[7].parents);
        assert(v@[7]@.ability_ids =~= t[7].ability_ids);
        assert(v@[8]@.parents =~= t[8].parents);
        assert(v@[8]@.ability_ids =~= t[8].ability_ids);
        assert(entry_views(v@) =~= t);
    }
    v
}

// ---------------------------------------------------------------------------
// Formations.
// ---------------------------------------------------------------------------

/// The player-facing effect of a Confluence Generation spell.
pub open spec fn spec_confluence_spell_effect(id: Seq<char>) -> FormationEffect {
    if id == MIRROR_RESONANCE@ {
        FormationEffect::InspectHand
    } else if id == FOREST_RESONANCE@ {
        FormationEffect::RecoverHp
    } else if id == STREAM_RESONANCE@ || id == WIND_DANCE@ || id == CLEAR_WIND_TEN_THOUSAND_MILES@ {
        FormationEffect::DrawCards
    } else if id == BLAZE_RESONANCE@ {
        FormationEffect::DamagePreviousTeam { amount: 20 }
    } else if id == EARTH_RESONANCE@ {
        FormationEffect::CreateShield
    } else if id == THOUSAND_RESONANCE@ || id == MYRIAD_RESONANCE@ {
        FormationEffect::ResolveResonances
    } else if id == IMPRISONING_ARRAY@ {
        FormationEffect::PreventOtherPlayersFromActingOrDrawing { duration_turns: 1 }
    } else if id == ENDLESS_ARRAY@ {
        FormationEffect::LimitedUseRecovery
    } else if id == VOID_BARRIER@ {
        FormationEffect::ReduceEveryShieldBy20
    } else {
        FormationEffect::HalveBothTeamsHpThenDamageOpponent { amount: 20 }
    }
}

fn player_facing_formation_effect(id: &str) -> (r: FormationEffect)
    ensures
        r == spec_confluence_spell_effect(id@),
{
    if str_eq(id, MIRROR_RESONANCE) {
        FormationEffect::InspectHand
    } else if str_eq(id, FOREST_RESONANCE) {
        FormationEffect::RecoverHp
    } else if str_eq(id, STREAM_RESONANCE) || str_eq(id, WIND_DANCE) || str_eq(id, CLEAR_WIND_TEN_THOUSAND_MILES) {
        FormationEffect::DrawCards
    } else if str_eq(id, BLAZE_RESONANCE) {
        FormationEffect::DamagePreviousTeam { amount: 20 }
    } else if str_eq(id, EARTH_RESONANCE) {
        FormationEffect::CreateShield
    } else if str_eq(id, THOUSAND_RESONANCE) || str_eq(id, MYRIAD_RESONANCE) {
        FormationEffect::ResolveResonances
    } else if str_eq(id, IMPRISONING_ARRAY) {
        FormationEffect::PreventOtherPlayersFromActingOrDrawing { duration_turns: 1 }
    } else if str_eq(id, ENDLESS_ARRAY) {
        FormationEffect::LimitedUseRecovery
    } else if str_eq(id, VOID_BARRIER) {
        FormationEffect::ReduceEveryShieldBy20
    } else {
        FormationEffect::HalveBothTeamsHpThenDamageOpponent { amount: 20 }
    }
}

/// The view of a Confluence Generation spell, matched by its own custom pattern.
pub open spec fn spec_confluence_spell(id: Seq<char>, name: Seq<char>, rule_text: Seq<char>) -> SpecView {
    SpecView {
        formation: FormationDefView {
            id,
            name,
            rule_text,
            category: FormationCategory::Spell,
            pattern: PatternView::Custom(id),
            effect_id: id,
            point_formula: PointFormula::Fixed(0),
        },
        effect: EffectDefView {
            id,
            plan: EffectPlanView::ActiveSpell { resolver_id: id, effect: spec_confluence_spell_effect(id) },
        },
    }
}

fn spell(id: &str, name: &str, rule_text: &str) -> (r: BaseFormationSpec)
    ensures
        r@ == spec_confluence_spell(id@, name@, rule_text@),
{
    BaseFormationSpec {
        formation: FormationDef {
            id: owned(id),
            name: owned(name),
            rule_text: owned(rule_text),
            category: FormationCategory::Spell,
            pattern: FormationPattern::Custom(owned(id)),
            effect_id: owned(id),
            point_formula: PointFormula::Fixed(0),
        },
        effect: EffectDef {
            id: owned(id),
            plan: EffectPlan::ActiveSpell(
                SpellPlanDef {
                    resolver_id: owned(id),
                    player_facing_effect: player_facing_formation_effect(id),
                },
            ),
        },
    }
}

/// The views of the Confluence Generation formations, in catalog order.
pub open spec fn confluence_formation_table() -> Seq<SpecView> {
    seq![
        spec_confluence_spell(MIRROR_RESONANCE@, "鏡鳴"@, "餘行為金；金行牌＋餘級牌；檢視上家手牌並捨棄一張"@),
        spec_confluence_spell(FOREST_RESONANCE@, "森鳴"@, "餘行為木；木行牌＋餘級牌；回復２０點生命"@),
        spec_confluence_spell(STREAM_RESONANCE@, "淙鳴"@, "餘行為水；水行牌＋餘級牌；本回合抽牌＋２"@),
        spec_confluence_spell(BLAZE_RESONANCE@, "煌鳴"@, "餘行為火；火行牌＋餘級牌；上家扣除２０點生命"@),
        spec_confluence_spell(EARTH_RESONANCE@, "垠鳴"@, "餘行為土；土行牌＋餘級牌；建構１５點防護罩"@),
        spec_confluence_spell(THOUSAND_RESONANCE@, "千鳴"@, "餘行牌＋餘級牌＋餘行餘級牌；同時發動餘行五鳴術與指定五鳴術"@),
        spec_confluence_spell(MYRIAD_RESONANCE@, "萬鳴"@, "金木水火土，含餘行餘級牌；五種五鳴術效果"@),
        spec_confluence_spell(IMPRISONING_ARRAY@, "禁錮法陣"@, "５級牌；所有其他玩家無法行動及抽牌１回合"@),
        spec_confluence_spell(ENDLESS_ARRAY@, "無盡法陣"@, "５級牌；回復禁錮法陣全部使用次數"@),
        spec_confluence_spell(WIND_DANCE@, "舞風"@, "連續兩級牌；本回合抽牌＋１"@),
        spec_confluence_spell(CLEAR_WIND_TEN_THOUSAND_MILES@, "晴風萬里"@, "連續四級牌；抽十張牌，保留任意牌，其餘捨棄"@),
        spec_confluence_spell(VOID_BARRIER@, "虛空絕壁術"@, "三張同級牌；所有玩家防護罩扣除２０，被扣除者扣除２０點生命"@),
        spec_confluence_spell(VOID_RETURN_TO_NOTHING@, "虛空歸無術"@, "三張同級牌；雙方生命值減半，對方再扣除２０點生命"@),
    ]
}

/// The Confluence Generation formations.
pub fn formation_specs() -> (r: Vec<BaseFormationSpec>)
    ensures
        spec_views(r@) == confluence_formation_table(),
{
    let v = vec![
        spell(MIRROR_RESONANCE, "鏡鳴", "餘行為金；金行牌＋餘級牌；檢視上家手牌並捨棄一張"),
        spell(FOREST_RESONANCE, "森鳴", "餘行為木；木行牌＋餘級牌；回復２０點生命"),
        spell(STREAM_RESONANCE, "淙鳴", "餘行為水；水行牌＋餘級牌；本回合抽牌＋２"),
        spell(BLAZE_RESONANCE, "煌鳴", "餘行為火；火行牌＋餘級牌；上家扣除２０點生命"),
        spell(EARTH_RESONANCE, "垠鳴", "餘行為土；土行牌＋餘級牌；建構１５點防護罩"),
        spell(THOUSAND_RESONANCE, "千鳴", "餘行牌＋餘級牌＋餘行餘級牌；同時發動餘行五鳴術與指定五鳴術"),
        spell(MYRIAD_RESONANCE, "萬鳴", "金木水火土，含餘行餘級牌；五種五鳴術效果"),
        spell(IMPRISONING_ARRAY, "禁錮法陣", "５級牌；所有其他玩家無法行動及抽牌１回合"),
        spell(ENDLESS_ARRAY, "無盡法陣", "５級牌；回復禁錮法陣全部使用次數"),
        spell(WIND_DANCE, "舞風", "連續兩級牌；本回合抽牌＋１"),
        spell(CLEAR_WIND_TEN_THOUSAND_MILES, "晴風萬里", "連續四級牌；抽十張牌，保留任意牌，其餘捨棄"),
        spell(VOID_BARRIER, "虛空絕壁術", "三張同級牌；所有玩家防護罩扣除２０，被扣除者扣除２０點生命"),
        spell(VOID_RETURN_TO_NOTHING, "虛空歸無術", "三張同級牌；雙方生命值減半，對方再扣除２０點生命"),
    ];
    assert(spec_views(v@) =~= confluence_formation_table());
    v
}

/// Some formation of the table has identity `id`.
pub open spec fn table_has_formation(id: Seq<char>) -> bool {
    exists|i: int|
        0 <= i < confluence_formation_table().len() && #[trigger] confluence_formation_table()[i].formation.id
            == id
}

/// A Confluence Generation profession formation: its identity starts with
/// `confluence:` and it is one of the module's formations.
pub open spec fn spec_is_profession_formation(id: Seq<char>) -> bool {
    "confluence:"@.len() <= id.len() && id.subrange(0, "confluence:"@.len() as int) == "confluence:"@
        && table_has_formation(id)
}

/// Whether a formation is a Confluence Generation profession formation.
#[verifier::loop_isolation(false)]
pub fn is_profession_formation(id: &str) -> (r: bool)
    ensures
        r == spec_is_profession_formation(id@),
{
    if !str_starts_with(id, "confluence:") {
        return false;
    }
    let specs = formation_specs();
    let mut i: usize = 0;
    while i < specs.len()
        invariant
            i <= specs.len(),
            spec_views(specs@) == confluence_formation_table(),
            forall|j: int| 0 <= j < i ==> confluence_formation_table()[j].formation.id != id@,
        decreases specs.len() - i,
    {
        assert(spec_views(specs@)[i as int] == specs@[i as int]@);
        if str_eq(specs[i].formation.id.as_str(), id) {
            assert(confluence_formation_table()[i as int].formation.id == id@);
            return true;
        }
        i = i + 1;
    }
    false
}

/// The summary of a Confluence Generation ability.
pub open spec fn spec_ability_summary(id: Seq<char>) -> Option<Seq<char>> {
    if id == "confluence:tuning"@ {
        Some("調律：棄置高於餘級的牌，取得上家可回收棄牌"@)
    } else if id == "confluence:string-changing"@ {
        Some("易弦：調律牌亦可用於自身職業陣法"@)
    } else if id == "confluence:heavenly-resonance"@ {
        Some("天響：一次取得上家棄牌且不限制用途"@)
    } else if id == "confluence:living-dao"@ {
        Some("道法心生：禁錮法陣使用上限增加為二次"@)
    } else if id == "confluence:clear-wind"@ {
        Some("晴風：展示牌堆頂並選擇捨棄或放回"@)
    } else if id == "confluence:tailwind"@ {
        Some("順風：一次使本回合抽牌＋２；自身洗牌時回復"@)
    } else if id == "confluence:void-seeking"@ {
        Some("虛空追尋：以５５５施展虛空術時轉職"@)
    } else if id == "confluence:void-destruction"@ {
        Some("虛空破滅：轉職時對方扣除２０點生命"@)
    } else if id == "confluence:void-realm"@ {
        Some("虛空境界：一次防止本職業被破除"@)
    } else {
        None
    }
}

fn ability_summary(id: &str) -> (r: Option<&'static str>)
    ensures
        match r {
            Some(s) => spec_ability_summary(id@) == Some(s@),
            None => spec_ability_summary(id@) is None,
        },
{
    if str_eq(id, "confluence:tuning") {
        Some("調律：棄置高於餘級的牌，取得上家可回收棄牌")
    } else if str_eq(id, "confluence:string-changing") {
        Some("易弦：調律牌亦可用於自身職業陣法")
    } else if str_eq(id, "confluence:heavenly-resonance") {
        Some("天響：一次取得上家棄牌且不限制用途")
    } else if str_eq(id, "confluence:living-dao") {
        Some("道法心生：禁錮法陣使用上限增加為二次")
    } else if str_eq(id, "confluence:clear-wind") {
        Some("晴風：展示牌堆頂並選擇捨棄或放回")
    } else if str_eq(id, "confluence:tailwind") {
        Some("順風：一次使本回合抽牌＋２；自身洗牌時回復")
    } else if str_eq(id, "confluence:void-seeking") {
        Some("虛空追尋：以５５５施展虛空術時轉職")
    } else if str_eq(id, "confluence:void-destruction") {
        Some("虛空破滅：轉職時對方扣除２０點生命")
    } else if str_eq(id, "confluence:void-realm") {
        Some("虛空境界：一次防止本職業被破除")
    } else {
        None
    }
}

/// The summaries of the Confluence Generation abilities among the abilities in effect,
/// in order.
pub fn effective_ability_summaries(ability_ids: &[&'static str]) -> (r: Vec<&'static str>)
    ensures
        text_views(r@) == text_views(ability_ids@).filter_map(
            |a: Seq<char>| spec_ability_summary(a),
        ),
{
    let ghost ids = text_views(ability_ids@);
    let ghost f = |a: Seq<char>| spec_ability_summary(a);
    let mut r: Vec<&'static str> = Vec::new();
    let mut k: usize = 0;
    while k < ability_ids.len()
        invariant
            k <= ability_ids.len(),
            ids == text_views(ability_ids@),
            f == (|a: Seq<char>| spec_ability_summary(a)),
            text_views(r@) == ids.take(k as int).filter_map(f),
        decreases ability_ids.len() - k,
    {
        proof {
            ids.lemma_filter_map_take_succ(f, k as int);
        }
        match ability_summary(ability_ids[k]) {
            Some(s) => {
                r.push(s);
            },
            None => {},
        }
        assert(text_views(r@) =~= ids.take(k as int + 1).filter_map(f));
        k = k + 1;
    }
    assert(ids.take(ability_ids.len() as int) =~= ids);
    r
}

// ---------------------------------------------------------------------------
// Who may use a formation, and when.
// ---------------------------------------------------------------------------

/// Whether a player holding `profession`, whose line is `lineage`, may use the named
/// formation: each resonance and array belongs to a profession line or to one profession.
pub open spec fn spec_can_use_profession_formation(
    profession: Option<Seq<char>>,
    lineage: Seq<ProfessionId>,
    id: Seq<char>,
) -> bool {
    match profession {
        None => false,
        Some(p) => if id == MIRROR_RESONANCE@ || id == FOREST_RESONANCE@ || id == STREAM_RESONANCE@
            || id == BLAZE_RESONANCE@ || id == EARTH_RESONANCE@ {
            lineage_has(lineage, TUNER_ID@)
        } else if id == THOUSAND_RESONANCE@ {
            lineage_has(lineage, STRING_CHANGER_ID@)
        } else if id == MYRIAD_RESONANCE@ {
            p == HEAVENLY_RESONATOR_ID@
        } else if id == IMPRISONING_ARRAY@ {
            lineage_has(lineage, DAO_MAGE_ID@)
        } else if id == ENDLESS_ARRAY@ {
            p == DAO_SAINT_ID@
        } else if id == WIND_DANCE@ {
            lineage_has(lineage, CLEAR_WIND_ADEPT_ID@)
        } else if id == CLEAR_WIND_TEN_THOUSAND_MILES@ {
            p == CLEAR_WIND_ENVOY_ID@
        } else if id == VOID_BARRIER@ {
            lineage_has(lineage, VOID_SEEKER_ID@)
        } else if id == VOID_RETURN_TO_NOTHING@ {
            p == VOID_DESTROYER_ID@
        } else {
            false
        },
    }
}

/// Whether a player holding `profession`, whose line is `lineage`, may use the named
/// formation.
pub fn can_use_profession_formation(
    profession: Option<&ProfessionId>,
    lineage: &[ProfessionId],
    id: &str,
) -> (r: bool)
    ensures
        r == spec_can_use_profession_formation(opt_view(profession), lineage@, id@),
{
    let p = match profession {
        Some(p) => p.as_str(),
        None => {
            return false;
        },
    };
    if str_eq(id, MIRROR_RESONANCE) || str_eq(id, FOREST_RESONANCE) || str_eq(id, STREAM_RESONANCE)
        || str_eq(id, BLAZE_RESONANCE) || str_eq(id, EARTH_RESONANCE) {
        lineage_contains(lineage, TUNER_ID)
    } else if str_eq(id, THOUSAND_RESONANCE) {
        lineage_contains(lineage, STRING_CHANGER_ID)
    } else if str_eq(id, MYRIAD_RESONANCE) {
        str_eq(p, HEAVENLY_RESONATOR_ID)
    } else if str_eq(id, IMPRISONING_ARRAY) {
        lineage_contains(lineage, DAO_MAGE_ID)
    } else if str_eq(id, ENDLESS_ARRAY) {
        str_eq(p, DAO_SAINT_ID)
    } else if str_eq(id, WIND_DANCE) {
        lineage_contains(lineage, CLEAR_WIND_ADEPT_ID)
    } else if str_eq(id, CLEAR_WIND_TEN_THOUSAND_MILES) {
        str_eq(p, CLEAR_WIND_ENVOY_ID)
    } else if str_eq(id, VOID_BARRIER) {
        lineage_contains(lineage, VOID_SEEKER_ID)
    } else if str_eq(id, VOID_RETURN_TO_NOTHING) {
        str_eq(p, VOID_DESTROYER_ID)
    } else {
        false
    }
}

/// The name and rule text of each formation a player holding `profession`, whose line is
/// `lineage`, may use, in catalog order.
pub open spec fn spec_formation_summaries(profession: Seq<char>, lineage: Seq<ProfessionId>) -> Seq<
    (Seq<char>, Seq<char>),
> {
    confluence_formation_table().filter_map(
        |s: SpecView|
            if spec_can_use_profession_formation(Some(profession), lineage, s.formation.id) {
                Some((s.formation.name, s.formation.rule_text))
            } else {
                None
            },
    )
}

/// The name and rule text of each formation a player holding `profession` may use.
pub fn profession_formation_summaries(profession: &ProfessionId, lineage: &[ProfessionId]) -> (r:
    Vec<(String, String)>)
    ensures
        crate::rules::profession::pair_views(r@) == spec_formation_summaries(profession@, lineage@),
{
    let specs = formation_specs();
    let ghost table = confluence_formation_table();
    let ghost f = |s: SpecView|
        if spec_can_use_profession_formation(Some(profession@), lineage@, s.formation.id) {
            Some((s.formation.name, s.formation.rule_text))
        } else {
            None
        };
    let mut r: Vec<(String, String)> = Vec::new();
    let mut k: usize = 0;
    while k < specs.len()
        invariant
            k <= specs.len(),
            spec_views(specs@) == table,
            table == confluence_formation_table(),
            f == (|s: SpecView|
                if spec_can_use_profession_formation(Some(profession@), lineage@, s.formation.id) {
                    Some((s.formation.name, s.formation.rule_text))
                } else {
                    None
                }),
            crate::rules::profession::pair_views(r@) == table.take(k as int).filter_map(f),
        decreases specs.len() - k,
    {
        proof {
            table.lemma_filter_map_take_succ(f, k as int);
        }
        assert(spec_views(specs@)[k as int] == specs@[k as int]@);
        let formation = &specs[k].formation;
        if can_use_profession_formation(Some(profession), lineage, formation.id.as_str()) {
            r.push((formation.name.clone(), formation.rule_text.clone()));
        }
        assert(crate::rules::profession::pair_views(r@) =~= table.take(k as int + 1).filter_map(f));
        k = k + 1;
    }
    assert(table.take(specs.len() as int) =~= table);
    r
}

/// The first limited use, from position `k` on, of the owner under the key.
pub open spec fn limited_use_from(uses: Seq<LimitedUse>, owner: Seq<char>, key: Seq<char>, k: int) -> Option<
    int,
>
    decreases uses.len() - k,
{
    if k < 0 || k >= uses.len() {
        None
    } else if uses[k].owner@ == owner && uses[k].key@ == key {
        Some(k)
    } else {
        limited_use_from(uses, owner, key, k + 1)
    }
}

/// The limited use of an owner under a key, the first one the list holds.
pub fn limited_use<'a>(uses: &'a [LimitedUse], owner: &PlayerId, key: &str) -> (r: Option<
    &'a LimitedUse,
>)
    ensures
        match limited_use_from(uses@, owner@, key@, 0) {
            Some(k) => r == Some(&uses@[k]),
            None => r is None,
        },
{
    let mut k: usize = 0;
    while k < uses.len()
        invariant
            k <= uses.len(),
            limited_use_from(uses@, owner@, key@, 0) == limited_use_from(uses@, owner@, key@, k as int),
        decreases uses.len() - k,
    {
        if uses[k].owner.same(owner) && str_eq(uses[k].key.as_str(), key) {
            return Some(&uses[k]);
        }
        k = k + 1;
    }
    None
}

/// The first limited use, from position `k` on, under the key.
pub open spec fn use_by_key_from(uses: Seq<LimitedUse>, key: Seq<char>, k: int) -> Option<int>
    decreases uses.len() - k,
{
    if k < 0 || k >= uses.len() {
        None
    } else if uses[k].key@ == key {
        Some(k)
    } else {
        use_by_key_from(uses, key, k + 1)
    }
}

/// The Imprisoning Array needs a remaining use under its key; every other formation is
/// available.
pub open spec fn spec_available_for_selection(uses: Seq<LimitedUse>, id: Seq<char>) -> bool {
    if id == IMPRISONING_ARRAY@ {
        match use_by_key_from(uses, IMPRISONING_ARRAY_USE@, 0) {
            Some(k) => uses[k].remaining > 0,
            None => false,
        }
    } else {
        true
    }
}

/// Whether a formation is available given the player's limited uses.
#[verifier::loop_isolation(false)]
pub fn formation_available_for_selection(uses: &[LimitedUse], id: &str) -> (r: bool)
    ensures
        r == spec_available_for_selection(uses@, id@),
{
    if !str_eq(id, IMPRISONING_ARRAY) {
        return true;
    }
    let mut k: usize = 0;
    while k < uses.len()
        invariant
            k <= uses.len(),
            use_by_key_from(uses@, IMPRISONING_ARRAY_USE@, 0) == use_by_key_from(
                uses@,
                IMPRISONING_ARRAY_USE@,
                k as int,
            ),
        decreases uses.len() - k,
    {
        if str_eq(uses[k].key.as_str(), IMPRISONING_ARRAY_USE) {
            return uses[k].remaining > 0;
        }
        k = k + 1;
    }
    false
}

/// The Void Realm protects an unsuppressed Void Destroyer with a remaining use.
pub open spec fn spec_void_realm_protects(
    suppressed: bool,
    profession: Option<Seq<char>>,
    uses: Seq<LimitedUse>,
    player: Seq<char>,
) -> bool {
    &&& !suppressed
    &&& profession == Some(VOID_DESTROYER_ID@)
    &&& match limited_use_from(uses, player, VOID_REALM_USE@, 0) {
        Some(k) => uses[k].remaining > 0,
        None => false,
    }
}

/// Whether the Void Realm protects the player.
pub fn void_realm_protects(
    suppressed: bool,
    profession: Option<&ProfessionId>,
    uses: &[LimitedUse],
    player: &PlayerId,
) -> (r: bool)
    ensures
        r == spec_void_realm_protects(suppressed, opt_view(profession), uses@, player@),
{
    if suppressed {
        return false;
    }
    let destroyer = match profession {
        Some(p) => str_eq(p.as_str(), VOID_DESTROYER_ID),
        None => false,
    };
    if !destroyer {
        return false;
    }
    match limited_use(uses, player, VOID_REALM_USE) {
        Some(u) => u.remaining > 0,
        None => false,
    }
}

// ---------------------------------------------------------------------------
// Tuning obligations.
// ---------------------------------------------------------------------------

/// The first obligation, from position `k` on, of the owner applied on the turn.
pub open spec fn obligation_from(
    obligations: Seq<ConfluenceCardObligation>,
    owner: Seq<char>,
    turn: u64,
    k: int,
) -> Option<int>
    decreases obligations.len() - k,
{
    if k < 0 || k >= obligations.len() {
        None
    } else if obligations[k].owner@ == owner && obligations[k].applied_on_turn == turn {
        Some(k)
    } else {
        obligation_from(obligations, owner, turn, k + 1)
    }
}

/// The tuning obligation of a player on the current turn, the first one the list holds.
pub fn active_tuning_obligation<'a>(
    obligations: &'a [ConfluenceCardObligation],
    player: &PlayerId,
    turn_number: u64,
) -> (r: Option<&'a ConfluenceCardObligation>)
    ensures
        match obligation_from(obligations@, player@, turn_number, 0) {
            Some(k) => r == Some(&obligations@[k]),
            None => r is None,
        },
{
    let mut k: usize = 0;
    while k < obligations.len()
        invariant
            k <= obligations.len(),
            obligation_from(obligations@, player@, turn_number, 0) == obligation_from(
                obligations@,
                player@,
                turn_number,
                k as int,
            ),
        decreases obligations.len() - k,
    {
        if obligations[k].owner.same(player) && obligations[k].applied_on_turn == turn_number {
            return Some(&obligations[k]);
        }
        k = k + 1;
    }
    None
}

fn contains_card(cards: &[CardInstanceId], card: CardInstanceId) -> (r: bool)
    ensures
        r == cards@.contains(card),
{
    let mut i: usize = 0;
    while i < cards.len()
        invariant
            i <= cards.len(),
            forall|j: int| 0 <= j < i ==> cards@[j] != card,
        decreases cards.len() - i,
    {
        if cards[i] == card {
            return true;
        }
        i = i + 1;
    }
    false
}

/// A profession change satisfies the player's obligation when it uses the obligated card,
/// or when there is no obligation this turn.
pub fn profession_change_satisfies_obligation(
    obligations: &[ConfluenceCardObligation],
    player: &PlayerId,
    turn_number: u64,
    cards: &[CardInstanceId],
) -> (r: bool)
    ensures
        r == match obligation_from(obligations@, player@, turn_number, 0) {
            Some(k) => cards@.contains(obligations@[k].card),
            None => true,
        },
{
    match active_tuning_obligation(obligations, player, turn_number) {
        Some(o) => contains_card(cards, o.card),
        None => true,
    }
}

/// A formation selection satisfies an obligation when it uses the obligated card, the
/// obligation allows a profession formation, and the formation is one; without an
/// obligation every selection does.
pub fn formation_selection_satisfies_obligation(
    obligation: Option<&ConfluenceCardObligation>,
    formation_id: &str,
    cards: &[CardInstanceId],
) -> (r: bool)
    ensures
        r == match obligation {
            Some(o) => cards@.contains(o.card) && o.allow_profession_formation
                && spec_is_profession_formation(formation_id@),
            None => true,
        },
{
    match obligation {
        Some(o) => contains_card(cards, o.card) && o.allow_profession_formation
            && is_profession_formation(formation_id),
        None => true,
    }
}

// ---------------------------------------------------------------------------
// Formation patterns.
// ---------------------------------------------------------------------------

/// The element a five-resonance requires as residual element.
pub open spec fn resonance_element(id: Seq<char>) -> Option<Element> {
    if id == MIRROR_RESONANCE@ {
        Some(Element::Metal)
    } else if id == FOREST_RESONANCE@ {
        Some(Element::Wood)
    } else if id == STREAM_RESONANCE@ {
        Some(Element::Water)
    } else if id == BLAZE_RESONANCE@ {
        Some(Element::Fire)
    } else if id == EARTH_RESONANCE@ {
        Some(Element::Earth)
    } else {
        None
    }
}

fn resonance_element_of(id: &str) -> (r: Option<Element>)
    ensures
        r == resonance_element(id@),
{
    if str_eq(id, MIRROR_RESONANCE) {
        Some(Element::Metal)
    } else if str_eq(id, FOREST_RESONANCE) {
        Some(Element::Wood)
    } else if str_eq(id, STREAM_RESONANCE) {
        Some(Element::Water)
    } else if str_eq(id, BLAZE_RESONANCE) {
        Some(Element::Fire)
    } else if str_eq(id, EARTH_RESONANCE) {
        Some(Element::Earth)
    } else {
        None
    }
}

/// Two cards: one of element `e`, the other of level `level`.
pub open spec fn resonance_pair(cards: Seq<SubmittedCardFacts>, e: Element, level: u32) -> bool {
    cards.len() == 2 && exists|i: int, j: int|
        0 <= i < 2 && 0 <= j < 2 && i != j && cards[i].element == e && cards[j].level == level
}

/// Three cards: one of the residual element and level, another of the residual element,
/// and a third of the residual level.
pub open spec fn thousand_cards(cards: Seq<SubmittedCardFacts>, e: Element, level: u32) -> bool {
    cards.len() == 3 && exists|b: int, x: int, y: int|
        0 <= b < 3 && 0 <= x < 3 && 0 <= y < 3 && b != x && b != y && x != y
            && cards[b].element == e && cards[b].level == level && cards[x].element == e
            && cards[y].level == level
}

/// All the cards' elements are different.
pub open spec fn distinct_elements(cards: Seq<SubmittedCardFacts>) -> bool {
    forall|i: int, j: int| 0 <= i < j < cards.len() ==> cards[i].element != cards[j].element
}

/// Five cards of five elements, one of them of the residual element and level.
pub open spec fn myriad_cards(cards: Seq<SubmittedCardFacts>, e: Element, level: u32) -> bool {
    &&& cards.len() == 5
    &&& distinct_elements(cards)
    &&& exists|c: int| 0 <= c < 5 && cards[c].element == e && cards[c].level == level
}

/// The lowest level among the cards.
pub open spec fn min_level(cards: Seq<SubmittedCardFacts>) -> int
    decreases cards.len(),
{
    if cards.len() <= 1 {
        if cards.len() == 1 {
            cards[0].level as int
        } else {
            0
        }
    } else if cards.last().level < min_level(cards.drop_last()) {
        cards.last().level as int
    } else {
        min_level(cards.drop_last())
    }
}

/// `count` cards whose levels are consecutive: all different, and all within `count` of
/// the lowest.
pub open spec fn spec_consecutive_levels(cards: Seq<SubmittedCardFacts>, count: int) -> bool {
    &&& cards.len() == count
    &&& forall|i: int, j: int| 0 <= i < j < cards.len() ==> cards[i].level != cards[j].level
    &&& forall|i: int| 0 <= i < cards.len() ==> cards[i].level < min_level(cards) + count
}

proof fn lemma_min_level_bound(cards: Seq<SubmittedCardFacts>)
    requires
        cards.len() > 0,
    ensures
        forall|i: int| 0 <= i < cards.len() ==> min_level(cards) <= cards[i].level,
        exists|i: int| 0 <= i < cards.len() && min_level(cards) == cards[i].level,
    decreases cards.len(),
{
    if cards.len() > 1 {
        lemma_min_level_bound(cards.drop_last());
        let i = choose|i: int| 0 <= i < cards.drop_last().len() && min_level(cards.drop_last()) == cards.drop_last()[i].level;
        assert(cards[i] == cards.drop_last()[i]);
        assert forall|j: int| 0 <= j < cards.len() implies min_level(cards) <= cards[j].level by {
            if j < cards.len() - 1 {
                assert(cards[j] == cards.drop_last()[j]);
            }
        }
    }
}

/// Whether `count` cards have consecutive levels.
pub fn consecutive_levels(cards: &[SubmittedCardFacts], count: usize) -> (r: bool)
    ensures
        r == spec_consecutive_levels(cards@, count as int),
{
    if cards.len() != count {
        return false;
    }
    if count == 0 {
        return true;
    }
    let mut low: u32 = cards[0].level;
    let mut i: usize = 1;
    while i < cards.len()
        invariant
            1 <= i <= cards.len(),
            cards.len() == count,
            low == min_level(cards@.subrange(0, i as int)),
        decreases cards.len() - i,
    {
        assert(cards@.subrange(0, i as int + 1).drop_last() =~= cards@.subrange(0, i as int));
        if cards[i].level < low {
            low = cards[i].level;
        }
        i = i + 1;
    }
    assert(cards@.subrange(0, cards.len() as int) =~= cards@);
    let mut a: usize = 0;
    while a < cards.len()
        invariant
            a <= cards.len(),
            cards.len() == count,
            low == min_level(cards@),
            forall|x: int, y: int| 0 <= x < a && x < y < cards.len() ==> cards@[x].level != cards@[y].level,
            forall|x: int| 0 <= x < a ==> cards@[x].level < min_level(cards@) + count,
        decreases cards.len() - a,
    {
        proof {
            lemma_min_level_bound(cards@);
        }
        let above = cards[a].level - low;
        if above as usize >= count {
            return false;
        }
        let mut b: usize = a + 1;
        while b < cards.len()
            invariant
                a < b <= cards.len(),
                forall|y: int| a < y < b ==> cards@[a as int].level != cards@[y].level,
            decreases cards.len() - b,
        {
            if cards[a].level == cards[b].level {
                return false;
            }
            b = b + 1;
        }
        a = a + 1;
    }
    true
}

/// Whether the submitted cards, with the residual element and level (if any), form the
/// named Confluence Generation formation.
pub open spec fn spec_formation_matches(
    id: Seq<char>,
    residual: Option<(Element, u32)>,
    cards: Seq<SubmittedCardFacts>,
) -> bool {
    match resonance_element(id) {
        Some(required) => residual matches Some((e, l)) && e == required && resonance_pair(
            cards,
            required,
            l,
        ),
        None => if id == THOUSAND_RESONANCE@ {
            residual matches Some((e, l)) && thousand_cards(cards, e, l)
        } else if id == MYRIAD_RESONANCE@ {
            residual matches Some((e, l)) && myriad_cards(cards, e, l)
        } else if id == IMPRISONING_ARRAY@ || id == ENDLESS_ARRAY@ {
            cards.len() == 1 && cards[0].level == 5
        } else if id == WIND_DANCE@ {
            spec_consecutive_levels(cards, 2)
        } else if id == CLEAR_WIND_TEN_THOUSAND_MILES@ {
            spec_consecutive_levels(cards, 4)
        } else if id == VOID_BARRIER@ || id == VOID_RETURN_TO_NOTHING@ {
            cards.len() == 3 && crate::rules::matcher::all_level(cards, cards[0].level as int)
        } else {
            false
        },
    }
}

fn thousand(cards: &[SubmittedCardFacts], e: Element, level: u32) -> (r: bool)
    requires
        cards.len() == 3,
    ensures
        r == thousand_cards(cards@, e, level),
{
    let both = |b: usize| -> (r: bool)
        requires
            b < 3,
        ensures
            r == (cards@[b as int].element == e && cards@[b as int].level == level),
        { cards[b].element == e && cards[b].level == level };
    let el = |x: usize| -> (r: bool)
        requires
            x < 3,
        ensures
            r == (cards@[x as int].element == e),
        { cards[x].element == e };
    let lv = |y: usize| -> (r: bool)
        requires
            y < 3,
        ensures
            r == (cards@[y as int].level == level),
        { cards[y].level == level };
    let r = (both(0) && el(1) && lv(2)) || (both(0) && el(2) && lv(1)) || (both(1) && el(0) && lv(2))
        || (both(1) && el(2) && lv(0)) || (both(2) && el(0) && lv(1)) || (both(2) && el(1) && lv(0));
    if r {
        return true;
    }
    assert(!thousand_cards(cards@, e, level)) by {
        if thousand_cards(cards@, e, level) {
            let (b, x, y) = choose|b: int, x: int, y: int|
                0 <= b < 3 && 0 <= x < 3 && 0 <= y < 3 && b != x && b != y && x != y
                    && cards@[b].element == e && cards@[b].level == level && cards@[x].element == e
                    && cards@[y].level == level;
            assert(false);
        }
    }
    false
}

fn myriad(cards: &[SubmittedCardFacts], e: Element, level: u32) -> (r: bool)
    requires
        cards.len() == 5,
    ensures
        r == myriad_cards(cards@, e, level),
{
    let mut a: usize = 0;
    while a < 5
        invariant
            a <= 5,
            cards.len() == 5,
            forall|x: int, y: int| 0 <= x < a && x < y < 5 ==> cards@[x].element != cards@[y].element,
        decreases 5 - a,
    {
        let mut b: usize = a + 1;
        while b < 5
            invariant
                a < b <= 5,
                cards.len() == 5,
                forall|y: int| a < y < b ==> cards@[a as int].element != cards@[y].element,
            decreases 5 - b,
        {
            if cards[a].element == cards[b].element {
                return false;
            }
            b = b + 1;
        }
        a = a + 1;
    }
    let mut c: usize = 0;
    while c < 5
        invariant
            c <= 5,
            cards.len() == 5,
            distinct_elements(cards@),
            forall|k: int| 0 <= k < c ==> !(cards@[k].element == e && cards@[k].level == level),
        decreases 5 - c,
    {
        if cards[c].element == e && cards[c].level == level {
            return true;
        }
        c = c + 1;
    }
    false
}

/// Whether the submitted cards, with the residual element and level, form the named
/// Confluence Generation formation.
pub fn formation_matches(
    id: &str,
    residual: Option<(Element, u32)>,
    cards: &[SubmittedCardFacts],
) -> (r: bool)
    ensures
        r == spec_formation_matches(id@, residual, cards@),
{
    match resonance_element_of(id) {
        Some(required) => {
            return match residual {
                Some((e, l)) => {
                    if e != required || cards.len() != 2 {
                        return false;
                    }
                    let r = (cards[0].element == required && cards[1].level == l) || (
                    cards[1].element == required && cards[0].level == l);
                    if !r {
                        assert(!resonance_pair(cards@, required, l)) by {
                            if resonance_pair(cards@, required, l) {
                                let (i, j) = choose|i: int, j: int|
                                    0 <= i < 2 && 0 <= j < 2 && i != j && cards@[i].element
                                        == required && cards@[j].level == l;
                                assert(false);
                            }
                        }
                    }
                    r
                },
                None => false,
            };
        },
        None => {},
    }
    if str_eq(id, THOUSAND_RESONANCE) {
        match residual {
            Some((e, l)) => cards.len() == 3 && thousand(cards, e, l),
            None => false,
        }
    } else if str_eq(id, MYRIAD_RESONANCE) {
        match residual {
            Some((e, l)) => cards.len() == 5 && myriad(cards, e, l),
            None => false,
        }
    } else if str_eq(id, IMPRISONING_ARRAY) || str_eq(id, ENDLESS_ARRAY) {
        cards.len() == 1 && cards[0].level == 5
    } else if str_eq(id, WIND_DANCE) {
        consecutive_levels(cards, 2)
    } else if str_eq(id, CLEAR_WIND_TEN_THOUSAND_MILES) {
        consecutive_levels(cards, 4)
    } else if str_eq(id, VOID_BARRIER) || str_eq(id, VOID_RETURN_TO_NOTHING) {
        cards.len() == 3 && crate::rules::matcher::all_of_level(cards, cards[0].level)
    } else {
        false
    }
}

// ---------------------------------------------------------------------------
// Profession changes.
// ---------------------------------------------------------------------------

/// Cards of the residual element (if there is one) with levels totalling at least
/// `minimum`.
pub open spec fn residual_minimum(
    residual: Option<(Element, u32)>,
    facts: Seq<SubmittedCardFacts>,
    minimum: int,
) -> bool {
    residual matches Some((e, _)) && spec_one_element_minimum(facts, e, minimum)
}

/// Every submitted card is Wood or Fire.
pub open spec fn all_wood_or_fire(facts: Seq<SubmittedCardFacts>) -> bool {
    forall|i: int|
        0 <= i < facts.len() ==> facts[i].element == Element::Wood || facts[i].element
            == Element::Fire
}

/// Whether a player holding `current`, with the residual element and level (if any),
/// seated on a team without a star when `starless`, and owning a spirit when
/// `has_spirit`, may change into `target` with the submitted cards.
pub open spec fn spec_change_matches(
    current: Option<Seq<char>>,
    residual: Option<(Element, u32)>,
    starless: bool,
    has_spirit: bool,
    target: Seq<char>,
    facts: Seq<SubmittedCardFacts>,
) -> bool {
    if target == TUNER_ID@ {
        current is None && residual_minimum(residual, facts, 3)
    } else if target == STRING_CHANGER_ID@ {
        current == Some(TUNER_ID@) && residual_minimum(residual, facts, 6)
    } else if target == HEAVENLY_RESONATOR_ID@ {
        current == Some(STRING_CHANGER_ID@) && residual_minimum(residual, facts, 9)
    } else if target == DAO_MAGE_ID@ {
        if current == Some(SEEKER_ID@) {
            spec_one_element_minimum(facts, Element::Fire, 6)
        } else if current == Some(MAGE_ID@) {
            spec_one_element_minimum(facts, Element::Wood, 6)
        } else {
            false
        }
    } else if target == DAO_SAINT_ID@ {
        &&& current == Some(DAO_MAGE_ID@)
        &&& element_level_sum(facts, Element::Wood) >= 5
        &&& element_level_sum(facts, Element::Fire) >= 5
        &&& all_wood_or_fire(facts)
    } else if target == CLEAR_WIND_ADEPT_ID@ {
        current is None && spec_consecutive_levels(facts, 2)
    } else if target == CLEAR_WIND_ENVOY_ID@ {
        current == Some(CLEAR_WIND_ADEPT_ID@) && spec_consecutive_levels(facts, 3)
    } else if target == VOID_SEEKER_ID@ {
        &&& current is None
        &&& starless
        &&& !has_spirit
        &&& facts.len() == 3
        &&& 2 <= facts[0].level <= 5
        &&& crate::rules::matcher::all_level(facts, facts[0].level as int)
    } else {
        false
    }
}

fn is_current(current: Option<&ProfessionId>, id: &str) -> (r: bool)
    ensures
        r == (opt_view(current) == Some(id@)),
{
    match current {
        Some(c) => str_eq(c.as_str(), id),
        None => false,
    }
}

fn residual_minimum_of(residual: Option<(Element, u32)>, facts: &[SubmittedCardFacts], minimum: u32) -> (r:
    bool)
    ensures
        r == residual_minimum(residual, facts@, minimum as int),
{
    match residual {
        Some((e, _)) => one_element_minimum(facts, e, minimum),
        None => false,
    }
}

/// Whether a player may change into `target` with the submitted cards.
#[verifier::loop_isolation(false)]
pub fn change_matches(
    current: Option<&ProfessionId>,
    residual: Option<(Element, u32)>,
    starless: bool,
    has_spirit: bool,
    target: &ProfessionId,
    facts: &[SubmittedCardFacts],
) -> (r: bool)
    ensures
        r == spec_change_matches(opt_view(current), residual, starless, has_spirit, target@, facts@),
{
    let id = target.as_str();
    if str_eq(id, TUNER_ID) {
        current.is_none() && residual_minimum_of(residual, facts, 3)
    } else if str_eq(id, STRING_CHANGER_ID) {
        is_current(current, TUNER_ID) && residual_minimum_of(residual, facts, 6)
    } else if str_eq(id, HEAVENLY_RESONATOR_ID) {
        is_current(current, STRING_CHANGER_ID) && residual_minimum_of(residual, facts, 9)
    } else if str_eq(id, DAO_MAGE_ID) {
        if is_current(current, SEEKER_ID) {
            one_element_minimum(facts, Element::Fire, 6)
        } else if is_current(current, MAGE_ID) {
            one_element_minimum(facts, Element::Wood, 6)
        } else {
            false
        }
    } else if str_eq(id, DAO_SAINT_ID) {
        if !is_current(current, DAO_MAGE_ID) || !element_minimum(facts, Element::Wood, 5)
            || !element_minimum(facts, Element::Fire, 5) {
            return false;
        }
        let mut i: usize = 0;
        while i < facts.len()
            invariant
                i <= facts.len(),
                forall|j: int|
                    0 <= j < i ==> facts@[j].element == Element::Wood || facts@[j].element
                        == Element::Fire,
            decreases facts.len() - i,
        {
            if facts[i].element != Element::Wood && facts[i].element != Element::Fire {
                return false;
            }
            i = i + 1;
        }
        true
    } else if str_eq(id, CLEAR_WIND_ADEPT_ID) {
        current.is_none() && consecutive_levels(facts, 2)
    } else if str_eq(id, CLEAR_WIND_ENVOY_ID) {
        is_current(current, CLEAR_WIND_ADEPT_ID) && consecutive_levels(facts, 3)
    } else if str_eq(id, VOID_SEEKER_ID) {
        current.is_none() && starless && !has_spirit && facts.len() == 3 && 2 <= facts[0].level
            && facts[0].level <= 5 && crate::rules::matcher::all_of_level(facts, facts[0].level)
    } else {
        false
    }
}

/// Accepts the change of a player into `target` when the submitted cards match it, and
/// refuses it otherwise.
pub fn validate_profession_change(
    current: Option<&ProfessionId>,
    residual: Option<(Element, u32)>,
    starless: bool,
    has_spirit: bool,
    target: &ProfessionId,
    facts: &[SubmittedCardFacts],
) -> (r: Result<(), GameError>)
    ensures
        r is Ok <==> spec_change_matches(
            opt_view(current),
            residual,
            starless,
            has_spirit,
            target@,
            facts@,
        ),
        r is Err ==> r == Err::<(), GameError>(
            GameError::Validation(
                ValidationError::ProfessionChangePatternMismatch { profession: *target },
            ),
        ),
{
    if change_matches(current, residual, starless, has_spirit, target, facts) {
        Ok(())
    } else {
        Err(
            GameError::Validation(
                ValidationError::ProfessionChangePatternMismatch { profession: target.clone() },
            ),
        )
    }
}

/// The identity and name of each profession the submitted cards change into.
pub open spec fn spec_profession_changes(
    current: Option<Seq<char>>,
    residual: Option<(Element, u32)>,
    starless: bool,
    has_spirit: bool,
    facts: Seq<SubmittedCardFacts>,
) -> Seq<(Seq<char>, Seq<char>)> {
    confluence_entry_table().filter_map(
        |e: CatalogEntryView|
            if spec_change_matches(current, residual, starless, has_spirit, e.id, facts) {
                Some((e.id, e.name))
            } else {
                None
            },
    )
}

/// The professions of the module the submitted cards change a player into, each offered
/// with the submitted cards; none while the module is disabled.
pub fn playable_profession_changes(
    module_enabled: bool,
    current: Option<&ProfessionId>,
    residual: Option<(Element, u32)>,
    starless: bool,
    has_spirit: bool,
    cards: &[CardInstanceId],
    facts: &[SubmittedCardFacts],
) -> (r: Vec<crate::rules::detail::ProfessionChangeCandidate>)
    ensures
        !module_enabled ==> r@.len() == 0,
        module_enabled ==> r@.map_values(
            |c: crate::rules::detail::ProfessionChangeCandidate| crate::rules::profession::change_offer(c),
        ) == spec_profession_changes(opt_view(current), residual, starless, has_spirit, facts@),
        forall|i: int|
            0 <= i < r@.len() ==> (#[trigger] r@[i]).cards@ == cards@
                && r@[i].detail.consequences@.len() == 0,
{
    let mut r: Vec<crate::rules::detail::ProfessionChangeCandidate> = Vec::new();
    if !module_enabled {
        return r;
    }
    let entries = profession_catalog_entries();
    let ghost table = confluence_entry_table();
    let ghost f = |e: CatalogEntryView|
        if spec_change_matches(opt_view(current), residual, starless, has_spirit, e.id, facts@) {
            Some((e.id, e.name))
        } else {
            None
        };
    let mut k: usize = 0;
    while k < entries.len()
        invariant
            k <= entries.len(),
            entry_views(entries@) == table,
            table == confluence_entry_table(),
            f == (|e: CatalogEntryView|
                if spec_change_matches(opt_view(current), residual, starless, has_spirit, e.id, facts@) {
                    Some((e.id, e.name))
                } else {
                    None
                }),
            r@.map_values(|c: crate::rules::detail::ProfessionChangeCandidate| crate::rules::profession::change_offer(c))
                == table.take(k as int).filter_map(f),
            forall|i: int|
                0 <= i < r@.len() ==> (#[trigger] r@[i]).cards@ == cards@
                    && r@[i].detail.consequences@.len() == 0,
        decreases entries.len() - k,
    {
        proof {
            table.lemma_filter_map_take_succ(f, k as int);
        }
        assert(entry_views(entries@)[k as int] == entries@[k as int]@);
        let e = &entries[k];
        if change_matches(current, residual, starless, has_spirit, &e.id, facts) {
            r.push(
                crate::rules::detail::ProfessionChangeCandidate {
                    profession_id: e.id.clone(),
                    profession_name: owned(e.name),
                    cards: copy_cards(cards),
                    detail: crate::rules::detail::PlayerFacingActionDetail::pending_composition(),
                },
            );
        }
        assert(r@.map_values(|c: crate::rules::detail::ProfessionChangeCandidate| crate::rules::profession::change_offer(c))
            =~= table.take(k as int + 1).filter_map(f));
        k = k + 1;
    }
    assert(table.take(entries.len() as int) =~= table);
    r
}

// ---------------------------------------------------------------------------
// Thousand Resonance roles.
// ---------------------------------------------------------------------------

/// The five resonances the Thousand Resonance may add, by element and label.
pub open spec fn resonance_roles() -> Seq<(Element, Seq<char>, Seq<char>)> {
    seq![
        (Element::Metal, "confluence:thousand-resonance:Metal"@, "鏡鳴"@),
        (Element::Wood, "confluence:thousand-resonance:Wood"@, "森鳴"@),
        (Element::Water, "confluence:thousand-resonance:Water"@, "淙鳴"@),
        (Element::Fire, "confluence:thousand-resonance:Fire"@, "煌鳴"@),
        (Element::Earth, "confluence:thousand-resonance:Earth"@, "垠鳴"@),
    ]
}

/// The role options of a Thousand Resonance: each resonance other than that of the
/// residual element, declared on the first card.
pub open spec fn spec_role_options(
    id: Seq<char>,
    residual: Option<(Element, u32)>,
    cards: Seq<CardInstanceId>,
) -> Seq<(Seq<char>, CardInstanceId, Seq<char>)> {
    if id != THOUSAND_RESONANCE@ || cards.len() == 0 {
        seq![]
    } else {
        match residual {
            None => seq![],
            Some((re, _)) => resonance_roles().filter_map(
                |x: (Element, Seq<char>, Seq<char>)|
                    if x.0 != re {
                        Some((x.1, cards[0], "同時發動餘行五鳴術與"@ + x.2))
                    } else {
                        None
                    },
            ),
        }
    }
}

fn resonance_role(k: usize) -> (r: (Element, &'static str, &'static str))
    requires
        k < 5,
    ensures
        (r.0, r.1@, r.2@) == resonance_roles()[k as int],
{
    if k == 0 {
        (Element::Metal, "confluence:thousand-resonance:Metal", "鏡鳴")
    } else if k == 1 {
        (Element::Wood, "confluence:thousand-resonance:Wood", "森鳴")
    } else if k == 2 {
        (Element::Water, "confluence:thousand-resonance:Water", "淙鳴")
    } else if k == 3 {
        (Element::Fire, "confluence:thousand-resonance:Fire", "煌鳴")
    } else {
        (Element::Earth, "confluence:thousand-resonance:Earth", "垠鳴")
    }
}

/// The role options a Thousand Resonance offers for the submitted cards.
pub fn formation_role_options(
    id: &str,
    residual: Option<(Element, u32)>,
    cards: &[CardInstanceId],
) -> (r: Vec<(TargetDecl, String)>)
    ensures
        r@.map_values(|o: (TargetDecl, String)| crate::rules::hero::role_option_view(o))
            == spec_role_options(id@, residual, cards@),
{
    let mut r: Vec<(TargetDecl, String)> = Vec::new();
    let re = match residual {
        Some((re, _)) => re,
        None => {
            assert(r@.map_values(|o: (TargetDecl, String)| crate::rules::hero::role_option_view(o))
                =~= Seq::<(Seq<char>, CardInstanceId, Seq<char>)>::empty());
            return r;
        },
    };
    if !str_eq(id, THOUSAND_RESONANCE) || cards.len() == 0 {
        assert(r@.map_values(|o: (TargetDecl, String)| crate::rules::hero::role_option_view(o))
            =~= Seq::<(Seq<char>, CardInstanceId, Seq<char>)>::empty());
        return r;
    }
    let ghost roles = resonance_roles();
    let ghost f = |x: (Element, Seq<char>, Seq<char>)|
        if x.0 != re {
            Some((x.1, cards@[0], "同時發動餘行五鳴術與"@ + x.2))
        } else {
            None
        };
    let mut k: usize = 0;
    while k < 5
        invariant
            k <= 5,
            cards.len() > 0,
            roles == resonance_roles(),
            f == (|x: (Element, Seq<char>, Seq<char>)|
                if x.0 != re {
                    Some((x.1, cards@[0], "同時發動餘行五鳴術與"@ + x.2))
                } else {
                    None
                }),
            r@.map_values(|o: (TargetDecl, String)| crate::rules::hero::role_option_view(o))
                == roles.take(k as int).filter_map(f),
        decreases 5 - k,
    {
        proof {
            roles.lemma_filter_map_take_succ(f, k as int);
        }
        let (element, role, label) = resonance_role(k);
        if element != re {
            r.push(
                (
                    TargetDecl::FormationRole { role: owned(role), card: cards[0] },
                    owned("同時發動餘行五鳴術與").concat(label),
                ),
            );
        }
        assert(r@.map_values(|o: (TargetDecl, String)| crate::rules::hero::role_option_view(o))
            =~= roles.take(k as int + 1).filter_map(f));
        k = k + 1;
    }
    assert(roles.take(5) =~= roles);
    r
}


// ---------------------------------------------------------------------------
// Completing a tuning with a profession formation.
// ---------------------------------------------------------------------------

/// The Imprisoning Array needs a remaining use of the player under its key; every other
/// formation is always available.
pub open spec fn spec_available_for_player(uses: Seq<LimitedUse>, player: Seq<char>, id: Seq<char>) -> bool {
    if id == IMPRISONING_ARRAY@ {
        match limited_use_from(uses, player, IMPRISONING_ARRAY_USE@, 0) {
            Some(k) => uses[k].remaining > 0,
            None => false,
        }
    } else {
        true
    }
}

/// Some Confluence formation is usable by the player, available to it, and formed by the
/// submitted cards with the residual element and level.
pub open spec fn spec_tuning_formation_available(
    profession: Option<Seq<char>>,
    lineage: Seq<ProfessionId>,
    uses: Seq<LimitedUse>,
    player: Seq<char>,
    residual: Option<(Element, u32)>,
    facts: Seq<SubmittedCardFacts>,
) -> bool {
    exists|i: int|
        0 <= i < confluence_formation_table().len() && #[trigger] formation_fits(
            confluence_formation_table()[i].formation.id,
            profession,
            lineage,
            uses,
            player,
            residual,
            facts,
        )
}

/// The named formation is usable by the player, available to it, and formed by the cards.
pub open spec fn formation_fits(
    id: Seq<char>,
    profession: Option<Seq<char>>,
    lineage: Seq<ProfessionId>,
    uses: Seq<LimitedUse>,
    player: Seq<char>,
    residual: Option<(Element, u32)>,
    facts: Seq<SubmittedCardFacts>,
) -> bool {
    &&& spec_can_use_profession_formation(profession, lineage, id)
    &&& spec_available_for_player(uses, player, id)
    &&& spec_formation_matches(id, residual, facts)
}

/// Whether the cards a tuning obliges the player to use can complete it with one of the
/// Confluence formations the player may use and still has uses of.
pub fn tuning_formation_available(
    profession: Option<&ProfessionId>,
    lineage: &[ProfessionId],
    uses: &[LimitedUse],
    player: &PlayerId,
    residual: Option<(Element, u32)>,
    facts: &[SubmittedCardFacts],
) -> (r: bool)
    ensures
        r == spec_tuning_formation_available(opt_view(profession), lineage@, uses@, player@, residual, facts@),
{
    let specs = formation_specs();
    let ghost table = confluence_formation_table();
    let mut i: usize = 0;
    while i < specs.len()
        invariant
            i <= specs.len(),
            spec_views(specs@) == table,
            table == confluence_formation_table(),
            forall|j: int|
                0 <= j < i ==> !formation_fits(
                    #[trigger] table[j].formation.id,
                    opt_view(profession),
                    lineage@,
                    uses@,
                    player@,
                    residual,
                    facts@,
                ),
        decreases specs.len() - i,
    {
        let id = specs[i].formation.id.as_str();
        assert(table[i as int].formation.id == id@);
        let available = if str_eq(id, IMPRISONING_ARRAY) {
            match limited_use(uses, player, IMPRISONING_ARRAY_USE) {
                Some(u) => u.remaining > 0,
                None => false,
            }
        } else {
            true
        };
        if can_use_profession_formation(profession, lineage, id) && available && formation_matches(
            id,
            residual,
            facts,
        ) {
            assert(formation_fits(
                table[i as int].formation.id,
                opt_view(profession),
                lineage@,
                uses@,
                player@,
                residual,
                facts@,
            ));
            return true;
        }
        i = i + 1;
    }
    proof {
        assert forall|j: int| 0 <= j < table.len() implies !#[trigger] formation_fits(
            table[j].formation.id,
            opt_view(profession),
            lineage@,
            uses@,
            player@,
            residual,
            facts@,
        ) by {}
    }
    false
}

} // verus!
