//! The Hero Schools rule module: the five schools' professions, their
//! abilities, and their profession formations.
use crate::domain::{Element, GameError, ProfessionId, ValidationError, owned, str_eq, HERO_SCHOOLS_MODULE_ID};
use crate::rules::detail::{FormationCategory, FormationEffect, ProfessionAbilityEffect, VirtualFormationScope};
use crate::rules::matcher::{FormationPattern, PatternView, SubmittedCardFacts, count_element, count_facts, level_sum, elements_of, level_sum_at_least};
use crate::rules::profession::{ProfessionCatalogEntry, CatalogEntryView, entry_views, lineage_contains, lineage_has, opt_view};
use crate::rules::registry::{
    AttackCategory, AttackPlanDef, BaseFormationSpec, DamageTarget, EffectDef, EffectDefView,
    EffectPlan, EffectPlanView, FormationDef, FormationDefView, PointFormula, SpecView, SpellPlanDef,
};
use crate::rules::catalog::spec_views;
use vstd::prelude::*;

verus! {

pub const WARRIOR_ID: &'static str = "warrior";
pub const WAR_GOD_ID: &'static str = "war-god";
pub const HERO_ID: &'static str = "hero";
pub const SEEKER_ID: &'static str = "seeker";
pub const EXPOUNDER_ID: &'static str = "expounder";
pub const BENEVOLENT_ID: &'static str = "benevolent";
pub const MESMER_ID: &'static str = "mesmer";
pub const SPIRIT_MESMER_ID: &'static str = "spirit-mesmer";
pub const HERMIT_ID: &'static str = "hermit";
pub const MAGE_ID: &'static str = "mage";
pub const MAGE_GUIDE_ID: &'static str = "mage-guide";
pub const SAGE_ID: &'static str = "sage";
pub const WINDWALKER_ID: &'static str = "windwalker";
pub const SHADOW_WALKER_ID: &'static str = "shadow-walker";
pub const MARTIAL_ARTIST_ID: &'static str = "martial-artist";
pub const FIRST_WANDERER_ID: &'static str = "first-wanderer";
pub const IMMORTAL_ID: &'static str = "immortal";
pub const SAINT_ID: &'static str = "saint";

/// The abilities a Hero Schools profession grants.
#[derive(Clone, Copy, Debug, PartialEq, Eq, Structural)]
pub enum ProfessionAbility {
    PhysicalDamageResistance,
    WeaponProficiency,
    DefenseProficiency,
    CountershockProficiency,
    WeaponMastery,
    ShockBurstProficiency,
    MetalResistance,
    BattleSoul,
    SeekerDiscount,
    GeneratingFormationProficiency,
    OvercomingFormationProficiency,
    ReturnToOriginProficiency,
    FiveElementsCycleProficiency,
    WoodResistance,
    SpellProtection,
    Illusion,
    SealProficiency,
    IllusionRefinement,
    BarrierProficiency,
    Phantasm,
    WaterResistance,
    TripleElementProficiency,
    RadianceProficiency,
    FiveStreamsUniteProficiency,
    FireResistance,
    ArcaneEssence,
    Windwalking,
    MetamorphosisProficiency,
    ShadowCut,
    ChaosProficiency,
    EarthResistance,
    ShadowEscape,
    Choice,
    Breakthrough,
    ImmortalDrawBonus,
    Meditation,
    SacredArt,
    Revelation,
}

/// The identity of an ability.
pub open spec fn spec_ability_id(a: ProfessionAbility) -> Seq<char> {
    match a {
        ProfessionAbility::PhysicalDamageResistance => "hero:physical-damage-resistance"@,
        ProfessionAbility::WeaponProficiency => "hero:weapon-proficiency"@,
        ProfessionAbility::DefenseProficiency => "hero:defense-proficiency"@,
        ProfessionAbility::CountershockProficiency => "hero:countershock-proficiency"@,
        ProfessionAbility::WeaponMastery => "hero:weapon-mastery"@,
        ProfessionAbility::ShockBurstProficiency => "hero:shock-burst-proficiency"@,
        ProfessionAbility::MetalResistance => "hero:metal-resistance"@,
        ProfessionAbility::BattleSoul => "hero:battle-soul"@,
        ProfessionAbility::SeekerDiscount => "hero:seeker-discount"@,
        ProfessionAbility::GeneratingFormationProficiency => "hero:generating-formation-proficiency"@,
        ProfessionAbility::OvercomingFormationProficiency => "hero:overcoming-formation-proficiency"@,
        ProfessionAbility::ReturnToOriginProficiency => "hero:return-to-origin-proficiency"@,
        ProfessionAbility::FiveElementsCycleProficiency => "hero:five-elements-cycle-proficiency"@,
        ProfessionAbility::WoodResistance => "hero:wood-resistance"@,
        ProfessionAbility::SpellProtection => "hero:spell-protection"@,
        ProfessionAbility::Illusion => "hero:illusion"@,
        ProfessionAbility::SealProficiency => "hero:seal-proficiency"@,
        ProfessionAbility::IllusionRefinement => "hero:illusion-refinement"@,
        ProfessionAbility::BarrierProficiency => "hero:barrier-proficiency"@,
        ProfessionAbility::Phantasm => "hero:phantasm"@,
        ProfessionAbility::WaterResistance => "hero:water-resistance"@,
        ProfessionAbility::TripleElementProficiency => "hero:triple-element-proficiency"@,
        ProfessionAbility::RadianceProficiency => "hero:radiance-proficiency"@,
        ProfessionAbility::FiveStreamsUniteProficiency => "hero:five-streams-unite-proficiency"@,
        ProfessionAbility::FireResistance => "hero:fire-resistance"@,
        ProfessionAbility::ArcaneEssence => "hero:arcane-essence"@,
        ProfessionAbility::Windwalking => "hero:windwalking"@,
        ProfessionAbility::MetamorphosisProficiency => "hero:metamorphosis-proficiency"@,
        ProfessionAbility::ShadowCut => "hero:shadow-cut"@,
        ProfessionAbility::ChaosProficiency => "hero:chaos-proficiency"@,
        ProfessionAbility::EarthResistance => "hero:earth-resistance"@,
        ProfessionAbility::ShadowEscape => "hero:shadow-escape"@,
        ProfessionAbility::Choice => "hero:choice"@,
        ProfessionAbility::Breakthrough => "hero:breakthrough"@,
        ProfessionAbility::ImmortalDrawBonus => "hero:immortal-draw-bonus"@,
        ProfessionAbility::Meditation => "hero:meditation"@,
        ProfessionAbility::SacredArt => "hero:sacred-art"@,
        ProfessionAbility::Revelation => "hero:revelation"@,
    }
}

impl ProfessionAbility {
    /// The identity of the ability.
    pub fn id(self) -> (r: &'static str)
        ensures
            r@ == spec_ability_id(self),
    {
        match self {
            ProfessionAbility::PhysicalDamageResistance => "hero:physical-damage-resistance",
            ProfessionAbility::WeaponProficiency => "hero:weapon-proficiency",
            ProfessionAbility::DefenseProficiency => "hero:defense-proficiency",
            ProfessionAbility::CountershockProficiency => "hero:countershock-proficiency",
            ProfessionAbility::WeaponMastery => "hero:weapon-mastery",
            ProfessionAbility::ShockBurstProficiency => "hero:shock-burst-proficiency",
            ProfessionAbility::MetalResistance => "hero:metal-resistance",
            ProfessionAbility::BattleSoul => "hero:battle-soul",
            ProfessionAbility::SeekerDiscount => "hero:seeker-discount",
            ProfessionAbility::GeneratingFormationProficiency => "hero:generating-formation-proficiency",
            ProfessionAbility::OvercomingFormationProficiency => "hero:overcoming-formation-proficiency",
            ProfessionAbility::ReturnToOriginProficiency => "hero:return-to-origin-proficiency",
            ProfessionAbility::FiveElementsCycleProficiency => "hero:five-elements-cycle-proficiency",
            ProfessionAbility::WoodResistance => "hero:wood-resistance",
            ProfessionAbility::SpellProtection => "hero:spell-protection",
            ProfessionAbility::Illusion => "hero:illusion",
            ProfessionAbility::SealProficiency => "hero:seal-proficiency",
            ProfessionAbility::IllusionRefinement => "hero:illusion-refinement",
            ProfessionAbility::BarrierProficiency => "hero:barrier-proficiency",
            ProfessionAbility::Phantasm => "hero:phantasm",
            ProfessionAbility::WaterResistance => "hero:water-resistance",
            ProfessionAbility::TripleElementProficiency => "hero:triple-element-proficiency",
            ProfessionAbility::RadianceProficiency => "hero:radiance-proficiency",
            ProfessionAbility::FiveStreamsUniteProficiency => "hero:five-streams-unite-proficiency",
            ProfessionAbility::FireResistance => "hero:fire-resistance",
            ProfessionAbility::ArcaneEssence => "hero:arcane-essence",
            ProfessionAbility::Windwalking => "hero:windwalking",
            ProfessionAbility::MetamorphosisProficiency => "hero:metamorphosis-proficiency",
            ProfessionAbility::ShadowCut => "hero:shadow-cut",
            ProfessionAbility::ChaosProficiency => "hero:chaos-proficiency",
            ProfessionAbility::EarthResistance => "hero:earth-resistance",
            ProfessionAbility::ShadowEscape => "hero:shadow-escape",
            ProfessionAbility::Choice => "hero:choice",
            ProfessionAbility::Breakthrough => "hero:breakthrough",
            ProfessionAbility::ImmortalDrawBonus => "hero:immortal-draw-bonus",
            ProfessionAbility::Meditation => "hero:meditation",
            ProfessionAbility::SacredArt => "hero:sacred-art",
            ProfessionAbility::Revelation => "hero:revelation",
        }
    }
}

/// A Hero Schools profession.
#[derive(Debug, PartialEq, Eq)]
pub struct ProfessionDef {
    pub id: ProfessionId,
    pub name: &'static str,
    pub rule_text: &'static str,
    pub prerequisite: Option<ProfessionId>,
    pub required_element: Element,
    pub minimum_level_sum: u32,
    pub parent: Option<ProfessionId>,
    pub abilities: Vec<ProfessionAbility>,
}

/// The abstract content of a profession.
pub struct ProfessionView {
    pub id: Seq<char>,
    pub name: Seq<char>,
    pub rule_text: Seq<char>,
    pub prerequisite: Option<Seq<char>>,
    pub required_element: Element,
    pub minimum_level_sum: u32,
    pub parent: Option<Seq<char>>,
    pub abilities: Seq<ProfessionAbility>,
}

/// The view of an optional profession identity.
pub open spec fn opt_id(p: Option<ProfessionId>) -> Option<Seq<char>> {
    match p {
        Some(id) => Some(id@),
        None => None,
    }
}

impl View for ProfessionDef {
    type V = ProfessionView;

    open spec fn view(&self) -> ProfessionView {
        ProfessionView {
            id: self.id@,
            name: self.name@,
            rule_text: self.rule_text@,
            prerequisite: opt_id(self.prerequisite),
            required_element: self.required_element,
            minimum_level_sum: self.minimum_level_sum,
            parent: opt_id(self.parent),
            abilities: self.abilities@,
        }
    }
}

fn opt_profession(id: Option<&str>) -> (r: Option<ProfessionId>)
    ensures
        match id {
            Some(s) => r matches Some(p) && p@ == s@,
            None => r is None,
        },
{
    match id {
        Some(s) => Some(ProfessionId::new(s)),
        None => None,
    }
}

fn profession_def(
    id: &'static str,
    name: &'static str,
    rule_text: &'static str,
    prerequisite: Option<&'static str>,
    required_element: Element,
    minimum_level_sum: u32,
    parent: Option<&'static str>,
    abilities: Vec<ProfessionAbility>,
) -> (r: ProfessionDef)
    ensures
        r@ == (ProfessionView {
            id: id@,
            name: name@,
            rule_text: rule_text@,
            prerequisite: match prerequisite {
                Some(s) => Some(s@),
                None => None,
            },
            required_element,
            minimum_level_sum,
            parent: match parent {
                Some(s) => Some(s@),
                None => None,
            },
            abilities: abilities@,
        }),
{
    ProfessionDef {
        id: ProfessionId::new(id),
        name,
        rule_text,
        prerequisite: opt_profession(prerequisite),
        required_element,
        minimum_level_sum,
        parent: opt_profession(parent),
        abilities,
    }
}

/// The eighteen published professions, in catalog order.
pub open spec fn hero_catalog_table() -> Seq<ProfessionView> {
    seq![
        ProfessionView {
            id: WARRIOR_ID@,
            name: "戰士"@,
            rule_text: "無前置職業；以任意張金行牌、等級總和３以上轉職"@,
            prerequisite: None,
            required_element: Element::Metal,
            minimum_level_sum: 3,
            parent: None,
            abilities: seq![ProfessionAbility::PhysicalDamageResistance, ProfessionAbility::WeaponProficiency, ProfessionAbility::DefenseProficiency, ProfessionAbility::CountershockProficiency],
        },
        ProfessionView {
            id: WAR_GOD_ID@,
            name: "戰神"@,
            rule_text: "前置職業為戰士；以任意張金行牌、等級總和６以上轉職"@,
            prerequisite: Some(WARRIOR_ID@),
            required_element: Element::Metal,
            minimum_level_sum: 6,
            parent: Some(WARRIOR_ID@),
            abilities: seq![ProfessionAbility::WeaponMastery, ProfessionAbility::ShockBurstProficiency],
        },
        ProfessionView {
            id: HERO_ID@,
            name: "勇者"@,
            rule_text: "前置職業為戰神；以任意張金行牌、等級總和９以上轉職"@,
            prerequisite: Some(WAR_GOD_ID@),
            required_element: Element::Metal,
            minimum_level_sum: 9,
            parent: Some(WAR_GOD_ID@),
            abilities: seq![ProfessionAbility::MetalResistance, ProfessionAbility::BattleSoul],
        },
        ProfessionView {
            id: SEEKER_ID@,
            name: "尋道者"@,
            rule_text: "無前置職業；以任意張木行牌、等級總和３以上轉職"@,
            prerequisite: None,
            required_element: Element::Wood,
            minimum_level_sum: 3,
            parent: None,
            abilities: seq![ProfessionAbility::SeekerDiscount, ProfessionAbility::GeneratingFormationProficiency, ProfessionAbility::OvercomingFormationProficiency],
        },
        ProfessionView {
            id: EXPOUNDER_ID@,
            name: "述道者"@,
            rule_text: "前置職業為尋道者；以任意張木行牌、等級總和６以上轉職"@,
            prerequisite: Some(SEEKER_ID@),
            required_element: Element::Wood,
            minimum_level_sum: 6,
            parent: Some(SEEKER_ID@),
            abilities: seq![ProfessionAbility::ReturnToOriginProficiency, ProfessionAbility::FiveElementsCycleProficiency],
        },
        ProfessionView {
            id: BENEVOLENT_ID@,
            name: "仁者"@,
            rule_text: "前置職業為述道者；以任意張木行牌、等級總和９以上轉職"@,
            prerequisite: Some(EXPOUNDER_ID@),
            required_element: Element::Wood,
            minimum_level_sum: 9,
            parent: Some(EXPOUNDER_ID@),
            abilities: seq![ProfessionAbility::WoodResistance, ProfessionAbility::SpellProtection],
        },
        ProfessionView {
            id: MESMER_ID@,
            name: "幻術師"@,
            rule_text: "無前置職業；以任意張水行牌、等級總和３以上轉職"@,
            prerequisite: None,
            required_element: Element::Water,
            minimum_level_sum: 3,
            parent: None,
            abilities: seq![ProfessionAbility::Illusion, ProfessionAbility::SealProficiency],
        },
        ProfessionView {
            id: SPIRIT_MESMER_ID@,
            name: "幻靈使"@,
            rule_text: "前置職業為幻術師；以任意張水行牌、等級總和６以上轉職"@,
            prerequisite: Some(MESMER_ID@),
            required_element: Element::Water,
            minimum_level_sum: 6,
            parent: Some(MESMER_ID@),
            abilities: seq![ProfessionAbility::IllusionRefinement, ProfessionAbility::BarrierProficiency],
        },
        ProfessionView {
            id: HERMIT_ID@,
            name: "隱者"@,
            rule_text: "前置職業為幻靈使；以任意張水行牌、等級總和９以上轉職"@,
            prerequisite: Some(SPIRIT_MESMER_ID@),
            required_element: Element::Water,
            minimum_level_sum: 9,
            parent: Some(SPIRIT_MESMER_ID@),
            abilities: seq![ProfessionAbility::WaterResistance, ProfessionAbility::Phantasm],
        },
        ProfessionView {
            id: MAGE_ID@,
            name: "法師"@,
            rule_text: "無前置職業；以任意張火行牌、等級總和３以上轉職"@,
            prerequisite: None,
            required_element: Element::Fire,
            minimum_level_sum: 3,
            parent: None,
            abilities: seq![ProfessionAbility::TripleElementProficiency],
        },
        ProfessionView {
            id: MAGE_GUIDE_ID@,
            name: "法導"@,
            rule_text: "前置職業為法師；以任意張火行牌、等級總和６以上轉職"@,
            prerequisite: Some(MAGE_ID@),
            required_element: Element::Fire,
            minimum_level_sum: 6,
            parent: Some(MAGE_ID@),
            abilities: seq![ProfessionAbility::RadianceProficiency, ProfessionAbility::FiveStreamsUniteProficiency],
        },
        ProfessionView {
            id: SAGE_ID@,
            name: "智者"@,
            rule_text: "前置職業為法導；以任意張火行牌、等級總和９以上轉職"@,
            prerequisite: Some(MAGE_GUIDE_ID@),
            required_element: Element::Fire,
            minimum_level_sum: 9,
            parent: Some(MAGE_GUIDE_ID@),
            abilities: seq![ProfessionAbility::FireResistance, ProfessionAbility::ArcaneEssence],
        },
        ProfessionView {
            id: WINDWALKER_ID@,
            name: "風行者"@,
            rule_text: "無前置職業；以任意張土行牌、等級總和３以上轉職"@,
            prerequisite: None,
            required_element: Element::Earth,
            minimum_level_sum: 3,
            parent: None,
            abilities: seq![ProfessionAbility::Windwalking, ProfessionAbility::MetamorphosisProficiency],
        },
        ProfessionView {
            id: SHADOW_WALKER_ID@,
            name: "影行者"@,
            rule_text: "前置職業為風行者；以任意張土行牌、等級總和６以上轉職"@,
            prerequisite: Some(WINDWALKER_ID@),
            required_element: Element::Earth,
            minimum_level_sum: 6,
            parent: Some(WINDWALKER_ID@),
            abilities: seq![ProfessionAbility::ShadowCut, ProfessionAbility::ChaosProficiency],
        },
        ProfessionView {
            id: MARTIAL_ARTIST_ID@,
            name: "武者"@,
            rule_text: "前置職業為影行者；以任意張土行牌、等級總和９以上轉職"@,
            prerequisite: Some(SHADOW_WALKER_ID@),
            required_element: Element::Earth,
            minimum_level_sum: 9,
            parent: Some(SHADOW_WALKER_ID@),
            abilities: seq![ProfessionAbility::EarthResistance, ProfessionAbility::ShadowEscape],
        },
        ProfessionView {
            id: FIRST_WANDERER_ID@,
            name: "初行客"@,
            rule_text: "無前置職業；以一張１級牌轉職"@,
            prerequisite: None,
            required_element: Element::Metal,
            minimum_level_sum: 1,
            parent: None,
            abilities: seq![ProfessionAbility::Choice, ProfessionAbility::Breakthrough],
        },
        ProfessionView {
            id: IMMORTAL_ID@,
            name: "仙者"@,
            rule_text: "前置職業為任一五大學派二階職業；以三張５級牌轉職"@,
            prerequisite: None,
            required_element: Element::Metal,
            minimum_level_sum: 15,
            parent: None,
            abilities: seq![ProfessionAbility::ImmortalDrawBonus, ProfessionAbility::Meditation],
        },
        ProfessionView {
            id: SAINT_ID@,
            name: "聖者"@,
            rule_text: "前置職業為任一五大學派二階職業；以三張４級牌轉職"@,
            prerequisite: None,
            required_element: Element::Metal,
            minimum_level_sum: 12,
            parent: None,
            abilities: seq![ProfessionAbility::SacredArt, ProfessionAbility::Revelation],
        },
    ]
}

/// The views of a list of professions.
pub open spec fn profession_views(s: Seq<ProfessionDef>) -> Seq<ProfessionView> {
    s.map_values(|p: ProfessionDef| p@)
}

/// The eighteen published professions: three tiers for each of the five schools, the
/// First Wanderer, the Immortal and the Saint.
pub fn catalog() -> (r: Vec<ProfessionDef>)
    ensures
        profession_views(r@) == hero_catalog_table(),
{
    let p0 = profession_def(
            WARRIOR_ID,
            "戰士",
            "無前置職業；以任意張金行牌、等級總和３以上轉職",
            None,
            Element::Metal,
            3,
            None,
            vec![ProfessionAbility::PhysicalDamageResistance, ProfessionAbility::WeaponProficiency, ProfessionAbility::DefenseProficiency, ProfessionAbility::CountershockProficiency],
        );
    let p1 = profession_def(
            WAR_GOD_ID,
            "戰神",
            "前置職業為戰士；以任意張金行牌、等級總和６以上轉職",
            Some(WARRIOR_ID),
            Element::Metal,
            6,
            Some(WARRIOR_ID),
            vec![ProfessionAbility::WeaponMastery, ProfessionAbility::ShockBurstProficiency],
        );
    let p2 = profession_def(
            HERO_ID,
            "勇者",
            "前置職業為戰神；以任意張金行牌、等級總和９以上轉職",
            Some(WAR_GOD_ID),
            Element::Metal,
            9,
            Some(WAR_GOD_ID),
            vec![ProfessionAbility::MetalResistance, ProfessionAbility::BattleSoul],
        );
    let p3 = profession_def(
            SEEKER_ID,
            "尋道者",
            "無前置職業；以任意張木行牌、等級總和３以上轉職",
            None,
            Element::Wood,
            3,
            None,
            vec![ProfessionAbility::SeekerDiscount, ProfessionAbility::GeneratingFormationProficiency, ProfessionAbility::OvercomingFormationProficiency],
        );
    let p4 = profession_def(
            EXPOUNDER_ID,
            "述道者",
            "前置職業為尋道者；以任意張木行牌、等級總和６以上轉職",
            Some(SEEKER_ID),
            Element::Wood,
            6,
            Some(SEEKER_ID),
            vec![ProfessionAbility::ReturnToOriginProficiency, ProfessionAbility::FiveElementsCycleProficiency],
        );
    let p5 = profession_def(
            BENEVOLENT_ID,
            "仁者",
            "前置職業為述道者；以任意張木行牌、等級總和９以上轉職",
            Some(EXPOUNDER_ID),
            Element::Wood,
            9,
            Some(EXPOUNDER_ID),
            vec![ProfessionAbility::WoodResistance, ProfessionAbility::SpellProtection],
        );
    let p6 = profession_def(
            MESMER_ID,
            "幻術師",
            "無前置職業；以任意張水行牌、等級總和３以上轉職",
            None,
            Element::Water,
            3,
            None,
            vec![ProfessionAbility::Illusion, ProfessionAbility::SealProficiency],
        );
    let p7 = profession_def(
            SPIRIT_MESMER_ID,
            "幻靈使",
            "前置職業為幻術師；以任意張水行牌、等級總和６以上轉職",
            Some(MESMER_ID),
            Element::Water,
            6,
            Some(MESMER_ID),
            vec![ProfessionAbility::IllusionRefinement, ProfessionAbility::BarrierProficiency],
        );
    let p8 = profession_def(
            HERMIT_ID,
            "隱者",
            "前置職業為幻靈使；以任意張水行牌、等級總和９以上轉職",
            Some(SPIRIT_MESMER_ID),
            Element::Water,
            9,
            Some(SPIRIT_MESMER_ID),
            vec![ProfessionAbility::WaterResistance, ProfessionAbility::Phantasm],
        );
    let p9 = profession_def(
            MAGE_ID,
            "法師",
            "無前置職業；以任意張火行牌、等級總和３以上轉職",
            None,
            Element::Fire,
            3,
            None,
            vec![ProfessionAbility::TripleElementProficiency],
        );
    let p10 = profession_def(
            MAGE_GUIDE_ID,
            "法導",
            "前置職業為法師；以任意張火行牌、等級總和６以上轉職",
            Some(MAGE_ID),
            Element::Fire,
            6,
            Some(MAGE_ID),
            vec![ProfessionAbility::RadianceProficiency, ProfessionAbility::FiveStreamsUniteProficiency],
        );
    let p11 = profession_def(
            SAGE_ID,
            "智者",
            "前置職業為法導；以任意張火行牌、等級總和９以上轉職",
            Some(MAGE_GUIDE_ID),
            Element::Fire,
            9,
            Some(MAGE_GUIDE_ID),
            vec![ProfessionAbility::FireResistance, ProfessionAbility::ArcaneEssence],
        );
    let p12 = profession_def(
            WINDWALKER_ID,
            "風行者",
            "無前置職業；以任意張土行牌、等級總和３以上轉職",
            None,
            Element::Earth,
            3,
            None,
            vec![ProfessionAbility::Windwalking, ProfessionAbility::MetamorphosisProficiency],
        );
    let p13 = profession_def(
            SHADOW_WALKER_ID,
            "影行者",
            "前置職業為風行者；以任意張土行牌、等級總和６以上轉職",
            Some(WINDWALKER_ID),
            Element::Earth,
            6,
            Some(WINDWALKER_ID),
            vec![ProfessionAbility::ShadowCut, ProfessionAbility::ChaosProficiency],
        );
    let p14 = profession_def(
            MARTIAL_ARTIST_ID,
            "武者",
            "前置職業為影行者；以任意張土行牌、等級總和９以上轉職",
            Some(SHADOW_WALKER_ID),
            Element::Earth,
            9,
            Some(SHADOW_WALKER_ID),
            vec![ProfessionAbility::EarthResistance, ProfessionAbility::ShadowEscape],
        );
    let p15 = profession_def(
            FIRST_WANDERER_ID,
            "初行客",
            "無前置職業；以一張１級牌轉職",
            None,
            Element::Metal,
            1,
            None,
            vec![ProfessionAbility::Choice, ProfessionAbility::Breakthrough],
        );
    let p16 = profession_def(
            IMMORTAL_ID,
            "仙者",
            "前置職業為任一五大學派二階職業；以三張５級牌轉職",
            None,
            Element::Metal,
            15,
            None,
            vec![ProfessionAbility::ImmortalDrawBonus, ProfessionAbility::Meditation],
        );
    let p17 = profession_def(
            SAINT_ID,
            "聖者",
            "前置職業為任一五大學派二階職業；以三張４級牌轉職",
            None,
            Element::Metal,
            12,
            None,
            vec![ProfessionAbility::SacredArt, ProfessionAbility::Revelation],
        );
    let v = vec![p0, p1, p2, p3, p4, p5, p6, p7, p8, p9, p10, p11, p12, p13, p14, p15, p16, p17];
    proof {
        assert(v@[0]@.abilities =~= hero_catalog_table()[0].abilities);
        assert(v@[0]@ == hero_catalog_table()[0]);
        assert(v@[1]@.abilities =~= hero_catalog_table()[1].abilities);
        assert(v@[1]@ == hero_catalog_table()[1]);
        assert(v@[2]@.abilities =~= hero_catalog_table()[2].abilities);
        assert(v@[2]@ == hero_catalog_table()[2]);
        assert(v@[3]@.abilities =~= hero_catalog_table()[3].abilities);
        assert(v@[3]@ == hero_catalog_table()[3]);
        assert(v@[4]@.abilities =~= hero_catalog_table()[4].abilities);
        assert(v@[4]@ == hero_catalog_table()[4]);
        assert(v@[5]@.abilities =~= hero_catalog_table()[5].abilities);
        assert(v@[5]@ == hero_catalog_table()[5]);
        assert(v@[6]@.abilities =~= hero_catalog_table()[6].abilities);
        assert(v@[6]@ == hero_catalog_table()[6]);
        assert(v@[7]@.abilities =~= hero_catalog_table()[7].abilities);
        assert(v@[7]@ == hero_catalog_table()[7]);
        assert(v@[8]@.abilities =~= hero_catalog_table()[8].abilities);
        assert(v@[8]@ == hero_catalog_table()[8]);
        assert(v@[9]@.abilities =~= hero_catalog_table()[9].abilities);
        assert(v@[9]@ == hero_catalog_table()[9]);
        assert(v@[10]@.abilities =~= hero_catalog_table()[10].abilities);
        assert(v@[10]@ == hero_catalog_table()[10]);
        assert(v@[11]@.abilities =~= hero_catalog_table()[11].abilities);
        assert(v@[11]@ == hero_catalog_table()[11]);
        assert(v@[12]@.abilities =~= hero_catalog_table()[12].abilities);
        assert(v@[12]@ == hero_catalog_table()[12]);
        assert(v@[13]@.abilities =~= hero_catalog_table()[13].abilities);
        assert(v@[13]@ == hero_catalog_table()[13]);
        assert(v@[14]@.abilities =~= hero_catalog_table()[14].abilities);
        assert(v@[14]@ == hero_catalog_table()[14]);
        assert(v@[15]@.abilities =~= hero_catalog_table()[15].abilities);
        assert(v@[15]@ == hero_catalog_table()[15]);
        assert(v@[16]@.abilities =~= hero_catalog_table()[16].abilities);
        assert(v@[16]@ == hero_catalog_table()[16]);
        assert(v@[17]@.abilities =~= hero_catalog_table()[17].abilities);
        assert(v@[17]@ == hero_catalog_table()[17]);
    }
    assert(profession_views(v@) =~= hero_catalog_table());
    v
}

fn abilities(list: &[ProfessionAbility]) -> (r: Vec<ProfessionAbility>)
    ensures
        r@ == list@,
{
    let mut r: Vec<ProfessionAbility> = Vec::new();
    let mut i: usize = 0;
    while i < list.len()
        invariant
            i <= list.len(),
            r@ == list@.subrange(0, i as int),
        decreases list.len() - i,
    {
        r.push(list[i]);
        assert(r@ =~= list@.subrange(0, i as int + 1));
        i = i + 1;
    }
    assert(list@.subrange(0, list.len() as int) =~= list@);
    r
}

/// The player-facing effect of a Hero Schools spell formation.
pub open spec fn spec_hero_spell_effect(id: Seq<char>) -> FormationEffect {
    if id == "reincarnation"@ {
        FormationEffect::RecoverHp
    } else if id == "purple-light-shield"@ {
        FormationEffect::CreateShield
    } else if id == "shadow-assault"@ {
        FormationEffect::DamagePreviousTeamByLevelSumTimes { multiplier: 3 }
    } else if id == "instant-shadow-death"@ {
        FormationEffect::HalvePreviousTeamHp
    } else if id == "holy-wind"@ {
        FormationEffect::DamageNextTeamAndTakeHighestLevelHandCard { damage: 20 }
    } else {
        FormationEffect::BreakProfession
    }
}

fn player_facing_formation_effect(id: &str) -> (r: FormationEffect)
    ensures
        r == spec_hero_spell_effect(id@),
{
    if str_eq(id, "reincarnation") {
        FormationEffect::RecoverHp
    } else if str_eq(id, "purple-light-shield") {
        FormationEffect::CreateShield
    } else if str_eq(id, "shadow-assault") {
        FormationEffect::DamagePreviousTeamByLevelSumTimes { multiplier: 3 }
    } else if str_eq(id, "instant-shadow-death") {
        FormationEffect::HalvePreviousTeamHp
    } else if str_eq(id, "holy-wind") {
        FormationEffect::DamageNextTeamAndTakeHighestLevelHandCard { damage: 20 }
    } else {
        FormationEffect::BreakProfession
    }
}

/// The view of a Hero Schools attack formation: physical for Divine Weapon and
/// Falling Light Slash, special otherwise.
pub open spec fn spec_hero_attack(
    id: Seq<char>,
    name: Seq<char>,
    rule_text: Seq<char>,
    pattern: PatternView,
    formula: PointFormula,
) -> SpecView {
    SpecView {
        formation: FormationDefView {
            id,
            name,
            rule_text,
            category: FormationCategory::Attack,
            pattern,
            effect_id: id,
            point_formula: formula,
        },
        effect: EffectDefView {
            id,
            plan: EffectPlanView::Attack(
                AttackPlanDef {
                    category: if id == "divine-weapon"@ || id == "falling-light-slash"@ {
                        AttackCategory::Physical
                    } else {
                        AttackCategory::Special
                    },
                    point_formula: formula,
                    damage_target: DamageTarget::PreviousPlayer,
                },
            ),
        },
    }
}

/// The view of a Hero Schools spell formation.
pub open spec fn spec_hero_spell(
    id: Seq<char>,
    name: Seq<char>,
    rule_text: Seq<char>,
    pattern: PatternView,
) -> SpecView {
    SpecView {
        formation: FormationDefView {
            id,
            name,
            rule_text,
            category: FormationCategory::Spell,
            pattern,
            effect_id: id,
            point_formula: PointFormula::Fixed(0),
        },
        effect: EffectDefView {
            id,
            plan: EffectPlanView::ActiveSpell { resolver_id: id, effect: spec_hero_spell_effect(id) },
        },
    }
}

fn profession_attack_with_formula(
    id: &str,
    name: &str,
    rule_text: &str,
    pattern: FormationPattern,
    point_formula: PointFormula,
) -> (r: BaseFormationSpec)
    ensures
        r@ == spec_hero_attack(id@, name@, rule_text@, pattern@, point_formula),
{
    let category = if str_eq(id, "divine-weapon") || str_eq(id, "falling-light-slash") {
        AttackCategory::Physical
    } else {
        AttackCategory::Special
    };
    BaseFormationSpec {
        formation: FormationDef {
            id: owned(id),
            name: owned(name),
            rule_text: owned(rule_text),
            category: FormationCategory::Attack,
            pattern,
            effect_id: owned(id),
            point_formula,
        },
        effect: EffectDef {
            id: owned(id),
            plan: EffectPlan::Attack(
                AttackPlanDef { category, point_formula, damage_target: DamageTarget::PreviousPlayer },
            ),
        },
    }
}

fn profession_spell(id: &str, name: &str, rule_text: &str, pattern: FormationPattern) -> (r:
    BaseFormationSpec)
    ensures
        r@ == spec_hero_spell(id@, name@, rule_text@, pattern@),
{
    BaseFormationSpec {
        formation: FormationDef {
            id: owned(id),
            name: owned(name),
            rule_text: owned(rule_text),
            category: FormationCategory::Spell,
            pattern,
            effect_id: owned(id),
            point_formula: PointFormula::Fixed(0),
        },
        effect: EffectDef {
            id: owned(id),
            plan: EffectPlan::ActiveSpell(
                SpellPlanDef {
                    resolver_id: owned(id),
                    player_facing_effect: player_facing_formation_effect(id),
                },
            ),
        },
    }
}

fn custom(id: &str) -> (r: FormationPattern)
    ensures
        r@ == PatternView::Custom(id@),
{
    FormationPattern::Custom(owned(id))
}

fn exact4(a: Element, b: Element, c: Element, d: Element) -> (r: FormationPattern)
    ensures
        r@ == PatternView::ExactElements(seq![a, b, c, d]),
{
    let v = vec![a, b, c, d];
    assert(v@ =~= seq![a, b, c, d]);
    FormationPattern::ExactElements(v)
}

/// The views of the Hero Schools formations, in catalog order.
pub open spec fn hero_formation_table() -> Seq<SpecView> {
    seq![
        spec_hero_attack("divine-weapon"@, "神兵"@, "金＋同級牌／物理攻擊，點數＝等級總和×３"@, PatternView::Custom("metal-and-same-level"@), PointFormula::LevelSumTimes(3)),
        spec_hero_attack("falling-light-slash"@, "落光斬"@, "金金火火／物理攻擊，點數＝等級總和×６"@, PatternView::ExactElements(seq![Element::Metal, Element::Metal, Element::Fire, Element::Fire]), PointFormula::LevelSumTimes(6)),
        spec_hero_attack("dao-defense"@, "道禦"@, "木＋同級牌／特殊攻擊，點數＝等級總和×３，反制攻擊傷害"@, PatternView::Custom("wood-and-same-level"@), PointFormula::LevelSumTimes(3)),
        spec_hero_spell("reincarnation"@, "轉生術"@, "木＋三張連續相生且等級總和１０以上／回復生命，點數＝木×２５"@, PatternView::Custom("reincarnation"@)),
        spec_hero_attack("magic-seal"@, "幻印"@, "水＋同級牌／特殊攻擊，點數＝等級總和×３，反制術式"@, PatternView::Custom("water-and-same-level"@), PointFormula::LevelSumTimes(3)),
        spec_hero_spell("purple-light-shield"@, "紫光防罩"@, "水水＋三張任意牌／建構防護罩，點數＝等級總和×５"@, PatternView::Custom("water-water-three-any"@)),
        spec_hero_attack("magic-shock"@, "法震"@, "火＋同級牌／特殊攻擊，點數＝等級總和×３，反制攻擊傷害平分"@, PatternView::Custom("fire-and-same-level"@), PointFormula::LevelSumTimes(3)),
        spec_hero_attack("magic-reflection-flash"@, "魔法反光閃"@, "火火＋兩張非火牌／特殊攻擊，點數＝火×火×５，本回合無法抽牌"@, PatternView::Custom("fire-fire-two-non-fire"@), PointFormula::ElementProductTimes { element: Element::Fire, multiplier: 5 }),
        spec_hero_spell("shadow-assault"@, "影襲"@, "土＋同級牌／主動術式，上家扣除生命，點數＝等級總和×３"@, PatternView::Custom("earth-and-same-level"@)),
        spec_hero_spell("instant-shadow-death"@, "刃影瞬殺"@, "任意張數土、等級總和１０以上／主動術式，上家生命減半"@, PatternView::Custom("earth-sum-ten"@)),
        spec_hero_attack("condensed-void-arrow"@, "凝華斷空箭"@, "三張同級牌／特殊攻擊，點數＝２０，本回合抽牌＋２"@, PatternView::Custom("three-same-level"@), PointFormula::Fixed(20)),
        spec_hero_attack("sky-bow-roar"@, "天弓嘯"@, "５５５／特殊攻擊，點數＝６０"@, PatternView::Custom("three-level-five"@), PointFormula::Fixed(60)),
        spec_hero_attack("holy-light-break"@, "聖光破"@, "一張偶級牌／特殊攻擊，點數＝１０"@, PatternView::Custom("single-even-level"@), PointFormula::Fixed(10)),
        spec_hero_spell("holy-wind"@, "聖風"@, "４４４／主動術式，下家扣除２０點生命並取得其一張最高等級手牌"@, PatternView::Custom("three-level-four"@)),
        spec_hero_spell("void-reversion"@, "虛空返璞術"@, "三張同級牌／主動術式，自身扣除２０點生命並破除職業"@, PatternView::Custom("three-same-level"@)),
    ]
}

/// The Hero Schools profession formations.
pub fn formation_specs() -> (r: Vec<BaseFormationSpec>)
    ensures
        spec_views(r@) == hero_formation_table(),
{
    let v = vec![
        profession_attack_with_formula("divine-weapon", "神兵", "金＋同級牌／物理攻擊，點數＝等級總和×３", custom("metal-and-same-level"), PointFormula::LevelSumTimes(3)),
        profession_attack_with_formula("falling-light-slash", "落光斬", "金金火火／物理攻擊，點數＝等級總和×６", exact4(Element::Metal, Element::Metal, Element::Fire, Element::Fire), PointFormula::LevelSumTimes(6)),
        profession_attack_with_formula("dao-defense", "道禦", "木＋同級牌／特殊攻擊，點數＝等級總和×３，反制攻擊傷害", custom("wood-and-same-level"), PointFormula::LevelSumTimes(3)),
        profession_spell("reincarnation", "轉生術", "木＋三張連續相生且等級總和１０以上／回復生命，點數＝木×２５", custom("reincarnation")),
        profession_attack_with_formula("magic-seal", "幻印", "水＋同級牌／特殊攻擊，點數＝等級總和×３，反制術式", custom("water-and-same-level"), PointFormula::LevelSumTimes(3)),
        profession_spell("purple-light-shield", "紫光防罩", "水水＋三張任意牌／建構防護罩，點數＝等級總和×５", custom("water-water-three-any")),
        profession_attack_with_formula("magic-shock", "法震", "火＋同級牌／特殊攻擊，點數＝等級總和×３，反制攻擊傷害平分", custom("fire-and-same-level"), PointFormula::LevelSumTimes(3)),
        profession_attack_with_formula("magic-reflection-flash", "魔法反光閃", "火火＋兩張非火牌／特殊攻擊，點數＝火×火×５，本回合無法抽牌", custom("fire-fire-two-non-fire"), PointFormula::ElementProductTimes { element: Element::Fire, multiplier: 5 }),
        profession_spell("shadow-assault", "影襲", "土＋同級牌／主動術式，上家扣除生命，點數＝等級總和×３", custom("earth-and-same-level")),
        profession_spell("instant-shadow-death", "刃影瞬殺", "任意張數土、等級總和１０以上／主動術式，上家生命減半", custom("earth-sum-ten")),
        profession_attack_with_formula("condensed-void-arrow", "凝華斷空箭", "三張同級牌／特殊攻擊，點數＝２０，本回合抽牌＋２", custom("three-same-level"), PointFormula::Fixed(20)),
        profession_attack_with_formula("sky-bow-roar", "天弓嘯", "５５５／特殊攻擊，點數＝６０", custom("three-level-five"), PointFormula::Fixed(60)),
        profession_attack_with_formula("holy-light-break", "聖光破", "一張偶級牌／特殊攻擊，點數＝１０", custom("single-even-level"), PointFormula::Fixed(10)),
        profession_spell("holy-wind", "聖風", "４４４／主動術式，下家扣除２０點生命並取得其一張最高等級手牌", custom("three-level-four")),
        profession_spell("void-reversion", "虛空返璞術", "三張同級牌／主動術式，自身扣除２０點生命並破除職業", custom("three-same-level")),
    ];
    assert(spec_views(v@) =~= hero_formation_table());
    v
}

/// The first profession of the catalog, from position `k` on, with identity `id`.
pub open spec fn profession_lookup_from(id: Seq<char>, k: int) -> Option<ProfessionView>
    decreases 18 - k,
{
    if k < 0 || k >= 18 {
        None
    } else if hero_catalog_table()[k].id == id {
        Some(hero_catalog_table()[k])
    } else {
        profession_lookup_from(id, k + 1)
    }
}

/// The profession with identity `id`.
pub fn profession(id: &ProfessionId) -> (r: Option<ProfessionDef>)
    ensures
        match r {
            Some(p) => profession_lookup_from(id@, 0) == Some(p@),
            None => profession_lookup_from(id@, 0) is None,
        },
{
    let mut catalog = catalog();
    assert(profession_views(catalog@).len() == 18);
    let mut k: usize = 0;
    while k < catalog.len()
        invariant
            k <= catalog.len(),
            catalog.len() == 18,
            profession_views(catalog@) == hero_catalog_table(),
            profession_lookup_from(id@, 0) == profession_lookup_from(id@, k as int),
        decreases catalog.len() - k,
    {
        assert(profession_views(catalog@)[k as int] == catalog@[k as int]@);
        if str_eq(catalog[k].id.as_str(), id.as_str()) {
            let found = catalog.remove(k);
            return Some(found);
        }
        k = k + 1;
    }
    None
}

/// The identities of a list of abilities.
pub open spec fn ability_ids(s: Seq<ProfessionAbility>) -> Seq<Seq<char>> {
    s.map_values(|a: ProfessionAbility| spec_ability_id(a))
}

/// The catalog entry of a profession: its parent, if any, is its only parent.
pub open spec fn spec_hero_entry(p: ProfessionView) -> CatalogEntryView {
    CatalogEntryView {
        id: p.id,
        module_id: HERO_SCHOOLS_MODULE_ID@,
        name: p.name,
        rule_text: p.rule_text,
        parents: match p.parent {
            Some(q) => seq![q],
            None => Seq::empty(),
        },
        ability_ids: ability_ids(p.abilities),
    }
}

/// The catalog entries of the Hero Schools professions, in catalog order.
pub fn profession_catalog_entries() -> (r: Vec<ProfessionCatalogEntry>)
    ensures
        r.len() == 18,
        forall|i: int|
            0 <= i < 18 ==> (#[trigger] r@[i])@ == spec_hero_entry(hero_catalog_table()[i]),
{
    let catalog = catalog();
    assert(profession_views(catalog@).len() == 18);
    let mut entries: Vec<ProfessionCatalogEntry> = Vec::new();
    let mut k: usize = 0;
    while k < catalog.len()
        invariant
            k <= catalog.len(),
            catalog.len() == 18,
            profession_views(catalog@) == hero_catalog_table(),
            entries.len() == k,
            forall|i: int|
                0 <= i < k ==> (#[trigger] entries@[i])@ == spec_hero_entry(hero_catalog_table()[i]),
        decreases catalog.len() - k,
    {
        assert(profession_views(catalog@)[k as int] == catalog@[k as int]@);
        let p = &catalog[k];
        let mut parents: Vec<ProfessionId> = Vec::new();
        match &p.parent {
            Some(q) => parents.push(q.clone()),
            None => {},
        }
        let mut ids: Vec<&'static str> = Vec::new();
        let mut j: usize = 0;
        while j < p.abilities.len()
            invariant
                j <= p.abilities.len(),
                ids@.len() == j,
                forall|t: int| 0 <= t < j ==> (#[trigger] ids@[t])@ == spec_ability_id(p.abilities@[t]),
            decreases p.abilities.len() - j,
        {
            ids.push(p.abilities[j].id());
            j = j + 1;
        }
        let entry = ProfessionCatalogEntry {
            id: p.id.clone(),
            module_id: HERO_SCHOOLS_MODULE_ID,
            name: p.name,
            rule_text: p.rule_text,
            parents,
            ability_ids: ids,
        };
        proof {
            assert(entry@.parents =~= spec_hero_entry(p@).parents);
            assert(entry@.ability_ids =~= spec_hero_entry(p@).ability_ids);
        }
        entries.push(entry);
        k = k + 1;
    }
    entries
}

/// Cards fulfil a profession's own requirement: at least one card, all of its element,
/// levels totalling at least its minimum.
pub open spec fn spec_requirement_matches(p: ProfessionView, facts: Seq<SubmittedCardFacts>) -> bool {
    facts.len() > 0 && (forall|i: int| 0 <= i < facts.len() ==> facts[i].element
        == p.required_element) && level_sum(facts) >= p.minimum_level_sum
}

/// Whether cards fulfil a profession's own requirement.
pub fn requirement_matches(profession: &ProfessionDef, facts: &[SubmittedCardFacts]) -> (r: bool)
    ensures
        r == spec_requirement_matches(profession@, facts@),
{
    if facts.len() == 0 {
        return false;
    }
    let mut i: usize = 0;
    while i < facts.len()
        invariant
            i <= facts.len(),
            forall|j: int| 0 <= j < i ==> facts@[j].element == profession.required_element,
        decreases facts.len() - i,
    {
        if facts[i].element != profession.required_element {
            return false;
        }
        i = i + 1;
    }
    level_sum_at_least(facts, profession.minimum_level_sum)
}

/// Whether the cards change a player without a profession into the named first-tier
/// profession: it must have no prerequisite, and the cards must fulfil its requirement.
pub fn matches_initial_profession(profession_id: &str, facts: &[SubmittedCardFacts]) -> (r: bool)
    ensures
        r == exists|k: int|
            0 <= k < 18 && hero_catalog_table()[k].id == profession_id@
                && hero_catalog_table()[k].prerequisite is None && spec_requirement_matches(
                hero_catalog_table()[k],
                facts@,
            ),
{
    let catalog = catalog();
    assert(profession_views(catalog@).len() == 18);
    let mut k: usize = 0;
    while k < catalog.len()
        invariant
            k <= catalog.len(),
            catalog.len() == 18,
            profession_views(catalog@) == hero_catalog_table(),
            forall|j: int|
                0 <= j < k ==> !(hero_catalog_table()[j].id == profession_id@
                    && hero_catalog_table()[j].prerequisite is None && spec_requirement_matches(
                    hero_catalog_table()[j],
                    facts@,
                )),
        decreases catalog.len() - k,
    {
        assert(profession_views(catalog@)[k as int] == catalog@[k as int]@);
        let p = &catalog[k];
        if str_eq(p.id.as_str(), profession_id) && p.prerequisite.is_none()
            && requirement_matches(p, facts) {
            return true;
        }
        k = k + 1;
    }
    false
}

/// The first-tier professions of the five schools.
pub open spec fn spec_is_first_tier(id: Seq<char>) -> bool {
    id == WARRIOR_ID@ || id == SEEKER_ID@ || id == MESMER_ID@ || id == MAGE_ID@ || id
        == WINDWALKER_ID@
}

/// The second-tier professions of the five schools.
pub open spec fn spec_is_second_tier(id: Seq<char>) -> bool {
    id == WAR_GOD_ID@ || id == EXPOUNDER_ID@ || id == SPIRIT_MESMER_ID@ || id == MAGE_GUIDE_ID@
        || id == SHADOW_WALKER_ID@
}

/// The legendary professions.
pub open spec fn spec_is_legendary(id: Seq<char>) -> bool {
    id == HERO_ID@ || id == BENEVOLENT_ID@ || id == HERMIT_ID@ || id == SAGE_ID@ || id
        == MARTIAL_ARTIST_ID@ || id == IMMORTAL_ID@ || id == SAINT_ID@
}

/// Whether a profession is a first-tier school profession.
pub fn is_first_tier(profession: &ProfessionId) -> (r: bool)
    ensures
        r == spec_is_first_tier(profession@),
{
    let id = profession.as_str();
    str_eq(id, WARRIOR_ID) || str_eq(id, SEEKER_ID) || str_eq(id, MESMER_ID) || str_eq(id, MAGE_ID)
        || str_eq(id, WINDWALKER_ID)
}

/// Whether a profession is a second-tier school profession.
pub fn is_second_tier(profession: &ProfessionId) -> (r: bool)
    ensures
        r == spec_is_second_tier(profession@),
{
    let id = profession.as_str();
    str_eq(id, WAR_GOD_ID) || str_eq(id, EXPOUNDER_ID) || str_eq(id, SPIRIT_MESMER_ID) || str_eq(
        id,
        MAGE_GUIDE_ID,
    ) || str_eq(id, SHADOW_WALKER_ID)
}

/// Whether a profession is legendary.
pub fn is_legendary(profession: &ProfessionId) -> (r: bool)
    ensures
        r == spec_is_legendary(profession@),
{
    let id = profession.as_str();
    str_eq(id, HERO_ID) || str_eq(id, BENEVOLENT_ID) || str_eq(id, HERMIT_ID) || str_eq(id, SAGE_ID)
        || str_eq(id, MARTIAL_ARTIST_ID) || str_eq(id, IMMORTAL_ID) || str_eq(id, SAINT_ID)
}

/// The cards other than the one at `skip` are all of `element` and total at least `minimum`.
pub open spec fn spec_rest_fulfils(
    facts: Seq<SubmittedCardFacts>,
    skip: int,
    element: Element,
    minimum: int,
) -> bool {
    &&& forall|i: int| 0 <= i < facts.len() && i != skip ==> facts[i].element == element
    &&& level_sum(crate::rules::matcher::without(facts, skip)) >= minimum
}

/// Whether a player holding `current` may change into `p` with the submitted cards:
/// the First Wanderer needs one level-one card; the Immortal and the Saint need a
/// second-tier profession and three cards of level five or four; others need their
/// prerequisite and requirement, or, for a First Wanderer, a level-one card alone for a
/// first tier or a level-one card beside the requirement for a second tier.
pub open spec fn spec_profession_change_matches(
    current: Option<Seq<char>>,
    p: ProfessionView,
    facts: Seq<SubmittedCardFacts>,
) -> bool {
    if p.id == FIRST_WANDERER_ID@ {
        facts.len() == 1 && facts[0].level == 1
    } else if p.id == IMMORTAL_ID@ {
        (current matches Some(c) && spec_is_second_tier(c)) && facts.len() == 3 && forall|i: int|
            0 <= i < 3 ==> facts[i].level == 5
    } else if p.id == SAINT_ID@ {
        (current matches Some(c) && spec_is_second_tier(c)) && facts.len() == 3 && forall|i: int|
            0 <= i < 3 ==> facts[i].level == 4
    } else if (match p.prerequisite {
        Some(required) => current == Some(required),
        None => true,
    }) && spec_requirement_matches(p, facts) {
        true
    } else if current != Some(FIRST_WANDERER_ID@) {
        false
    } else if spec_is_first_tier(p.id) {
        facts.len() == 1 && facts[0].level == 1
    } else if spec_is_second_tier(p.id) {
        exists|c: int|
            0 <= c < facts.len() && facts[c].level == 1 && #[trigger] spec_rest_fulfils(
                facts,
                c,
                p.required_element,
                p.minimum_level_sum as int,
            )
    } else {
        false
    }
}

/// Whether a player holding `current` may change into `profession` with the cards.
#[verifier::loop_isolation(false)]
pub fn profession_change_matches(
    current: Option<&ProfessionId>,
    profession: &ProfessionDef,
    facts: &[SubmittedCardFacts],
) -> (r: bool)
    ensures
        r == spec_profession_change_matches(
            match current {
                Some(c) => Some(c@),
                None => None,
            },
            profession@,
            facts@,
        ),
{
    let id = profession.id.as_str();
    if str_eq(id, FIRST_WANDERER_ID) {
        return facts.len() == 1 && facts[0].level == 1;
    }
    if str_eq(id, IMMORTAL_ID) || str_eq(id, SAINT_ID) {
        let level: u32 = if str_eq(id, IMMORTAL_ID) {
            5
        } else {
            4
        };
        let tier = match current {
            Some(c) => is_second_tier(c),
            None => false,
        };
        if !tier || facts.len() != 3 {
            return false;
        }
        return facts[0].level == level && facts[1].level == level && facts[2].level == level;
    }
    let normal_prerequisite = match (&profession.prerequisite, current) {
        (Some(required), Some(c)) => str_eq(required.as_str(), c.as_str()),
        (Some(_), None) => false,
        (None, _) => true,
    };
    if normal_prerequisite && requirement_matches(profession, facts) {
        return true;
    }
    let wanderer = match current {
        Some(c) => str_eq(c.as_str(), FIRST_WANDERER_ID),
        None => false,
    };
    if !wanderer {
        return false;
    }
    if is_first_tier(&profession.id) {
        return facts.len() == 1 && facts[0].level == 1;
    }
    if is_second_tier(&profession.id) {
        let mut c: usize = 0;
        while c < facts.len()
            invariant
                c <= facts.len(),
                forall|d: int|
                    0 <= d < c ==> !(facts@[d].level == 1 && spec_rest_fulfils(
                        facts@,
                        d,
                        profession.required_element,
                        profession.minimum_level_sum as int,
                    )),
            decreases facts.len() - c,
        {
            if facts[c].level == 1 {
                let mut others_match = true;
                let mut i: usize = 0;
                while i < facts.len()
                    invariant
                        i <= facts.len(),
                        others_match == forall|j: int|
                            0 <= j < i && j != c ==> facts@[j].element
                                == profession.required_element,
                    decreases facts.len() - i,
                {
                    if i != c && facts[i].element != profession.required_element {
                        others_match = false;
                    }
                    i = i + 1;
                }
                if others_match {
                    let rest = crate::rules::matcher::cards_without(facts, c);
                    if level_sum_at_least(rest.as_slice(), profession.minimum_level_sum) {
                        assert(spec_rest_fulfils(
                            facts@,
                            c as int,
                            profession.required_element,
                            profession.minimum_level_sum as int,
                        ));
                        assert(facts@[c as int].level == 1);
                        assert(exists|k: int|
                            0 <= k < facts@.len() && facts@[k].level == 1 && #[trigger] spec_rest_fulfils(
                                facts@,
                                k,
                                profession@.required_element,
                                profession@.minimum_level_sum as int,
                            ));
                        return true;
                    }
                }
            }
            c = c + 1;
        }
        return false;
    }
    false
}

/// The element a Hero Schools triple formation is of.
pub open spec fn spec_triple_formation_element(id: Seq<char>) -> Option<Element> {
    if id == "triple-metal"@ {
        Some(Element::Metal)
    } else if id == "triple-wood"@ {
        Some(Element::Wood)
    } else if id == "triple-water"@ {
        Some(Element::Water)
    } else if id == "triple-fire"@ {
        Some(Element::Fire)
    } else if id == "triple-earth"@ {
        Some(Element::Earth)
    } else {
        None
    }
}

/// The element of a triple elemental formation.
pub fn triple_formation_element(formation_id: &str) -> (r: Option<Element>)
    ensures
        r == spec_triple_formation_element(formation_id@),
{
    if str_eq(formation_id, "triple-metal") {
        Some(Element::Metal)
    } else if str_eq(formation_id, "triple-wood") {
        Some(Element::Wood)
    } else if str_eq(formation_id, "triple-water") {
        Some(Element::Water)
    } else if str_eq(formation_id, "triple-fire") {
        Some(Element::Fire)
    } else if str_eq(formation_id, "triple-earth") {
        Some(Element::Earth)
    } else {
        None
    }
}

/// Two elements generate one another, in either direction.
pub open spec fn spec_mutually_generating(a: Element, b: Element) -> bool {
    (a == Element::Metal && b == Element::Water) || (a == Element::Water && b == Element::Metal) || (a
        == Element::Water && b == Element::Wood) || (a == Element::Wood && b == Element::Water) || (a
        == Element::Wood && b == Element::Fire) || (a == Element::Fire && b == Element::Wood) || (a
        == Element::Fire && b == Element::Earth) || (a == Element::Earth && b == Element::Fire) || (a
        == Element::Earth && b == Element::Metal) || (a == Element::Metal && b == Element::Earth)
}

/// Two elements overcome one another, in either direction.
pub open spec fn spec_mutually_overcoming(a: Element, b: Element) -> bool {
    (a == Element::Metal && b == Element::Wood) || (a == Element::Wood && b == Element::Metal) || (a
        == Element::Wood && b == Element::Earth) || (a == Element::Earth && b == Element::Wood) || (a
        == Element::Earth && b == Element::Water) || (a == Element::Water && b == Element::Earth) || (a
        == Element::Water && b == Element::Fire) || (a == Element::Fire && b == Element::Water) || (a
        == Element::Fire && b == Element::Metal) || (a == Element::Metal && b == Element::Fire)
}

fn generates(a: Element, b: Element) -> (r: bool)
    ensures
        r == spec_mutually_generating(a, b),
{
    (a == Element::Metal && b == Element::Water) || (a == Element::Water && b == Element::Metal) || (a
        == Element::Water && b == Element::Wood) || (a == Element::Wood && b == Element::Water) || (a
        == Element::Wood && b == Element::Fire) || (a == Element::Fire && b == Element::Wood) || (a
        == Element::Fire && b == Element::Earth) || (a == Element::Earth && b == Element::Fire) || (a
        == Element::Earth && b == Element::Metal) || (a == Element::Metal && b == Element::Earth)
}

fn overcomes(a: Element, b: Element) -> (r: bool)
    ensures
        r == spec_mutually_overcoming(a, b),
{
    (a == Element::Metal && b == Element::Wood) || (a == Element::Wood && b == Element::Metal) || (a
        == Element::Wood && b == Element::Earth) || (a == Element::Earth && b == Element::Wood) || (a
        == Element::Earth && b == Element::Water) || (a == Element::Water && b == Element::Earth) || (a
        == Element::Water && b == Element::Fire) || (a == Element::Fire && b == Element::Water) || (a
        == Element::Fire && b == Element::Metal) || (a == Element::Metal && b == Element::Fire)
}

/// Whether a list of abilities holds `a`.
pub fn has_ability(abilities: &[ProfessionAbility], a: ProfessionAbility) -> (r: bool)
    ensures
        r == abilities@.contains(a),
{
    let mut i: usize = 0;
    while i < abilities.len()
        invariant
            i <= abilities.len(),
            forall|j: int| 0 <= j < i ==> abilities@[j] != a,
        decreases abilities.len() - i,
    {
        if abilities[i] == a {
            assert(abilities@[i as int] == a);
            return true;
        }
        i = i + 1;
    }
    false
}

/// Four cards whose elements are all different.
pub open spec fn spec_four_different_elements(c: Seq<SubmittedCardFacts>) -> bool {
    c.len() == 4 && c[0].element != c[1].element && c[0].element != c[2].element && c[0].element
        != c[3].element && c[1].element != c[2].element && c[1].element != c[3].element
        && c[2].element != c[3].element
}

/// What a proficiency of the given abilities lets the cards form for a base formation.
pub open spec fn spec_matches_proficiency(
    abilities: Seq<ProfessionAbility>,
    formation_id: Seq<char>,
    c: Seq<SubmittedCardFacts>,
) -> bool {
    if formation_id == "weapon"@ && abilities.contains(ProfessionAbility::WeaponProficiency) {
        c.len() == 2 && count_facts(c, Element::Metal) >= 1
    } else if formation_id == "defense"@ && abilities.contains(ProfessionAbility::DefenseProficiency) {
        c.len() == 2 && count_facts(c, Element::Wood) >= 1
    } else if formation_id == "countershock"@ && abilities.contains(
        ProfessionAbility::CountershockProficiency,
    ) {
        c.len() == 2 && count_facts(c, Element::Fire) >= 1
    } else if formation_id == "shock-burst"@ && abilities.contains(
        ProfessionAbility::ShockBurstProficiency,
    ) {
        c.len() == 4 && count_facts(c, Element::Fire) >= 2 && count_facts(c, Element::Water) >= 1
    } else if formation_id == "generating-formation"@ && abilities.contains(
        ProfessionAbility::GeneratingFormationProficiency,
    ) {
        c.len() == 2 && spec_mutually_generating(c[0].element, c[1].element)
    } else if formation_id == "overcoming-formation"@ && abilities.contains(
        ProfessionAbility::OvercomingFormationProficiency,
    ) {
        c.len() == 2 && spec_mutually_overcoming(c[0].element, c[1].element)
    } else if formation_id == "return-to-origin"@ && abilities.contains(
        ProfessionAbility::ReturnToOriginProficiency,
    ) {
        c.len() == 4 && count_facts(c, Element::Water) >= 2 && count_facts(c, Element::Earth) >= 1
    } else if formation_id == "five-elements-cycle"@ && abilities.contains(
        ProfessionAbility::FiveElementsCycleProficiency,
    ) {
        spec_four_different_elements(c)
    } else if formation_id == "seal"@ && abilities.contains(ProfessionAbility::SealProficiency) {
        c.len() == 2 && count_facts(c, Element::Water) >= 1
    } else if formation_id == "barrier"@ && abilities.contains(ProfessionAbility::BarrierProficiency) {
        c.len() == 4 && count_facts(c, Element::Wood) >= 2 && count_facts(c, Element::Metal) >= 1
    } else if abilities.contains(ProfessionAbility::TripleElementProficiency)
        && spec_triple_formation_element(formation_id) is Some {
        c.len() == 3 && count_facts(c, spec_triple_formation_element(formation_id).unwrap()) == 2
    } else if formation_id == "radiance"@ && abilities.contains(ProfessionAbility::RadianceProficiency) {
        c.len() == 4 && count_facts(c, Element::Metal) >= 2 && count_facts(c, Element::Fire) >= 1
    } else if formation_id == "five-streams-unite"@ && abilities.contains(
        ProfessionAbility::FiveStreamsUniteProficiency,
    ) {
        c.len() == 4 && c[1].level == c[0].level && c[2].level == c[0].level && c[3].level
            == c[0].level
    } else if formation_id == "metamorphosis"@ && abilities.contains(
        ProfessionAbility::MetamorphosisProficiency,
    ) {
        c.len() == 2 && count_facts(c, Element::Earth) >= 1
    } else if formation_id == "chaos"@ && abilities.contains(ProfessionAbility::ChaosProficiency) {
        c.len() == 4 && count_facts(c, Element::Earth) >= 2 && count_facts(c, Element::Wood) >= 1
    } else {
        false
    }
}

/// Whether a proficiency among the abilities lets the cards form the base formation.
pub fn matches_proficiency(
    abilities: &[ProfessionAbility],
    formation_id: &str,
    cards: &[SubmittedCardFacts],
) -> (r: bool)
    ensures
        r == spec_matches_proficiency(abilities@, formation_id@, cards@),
{
    let id = formation_id;
    let n = cards.len();
    if str_eq(id, "weapon") && has_ability(abilities, ProfessionAbility::WeaponProficiency) {
        n == 2 && count_element(cards, Element::Metal) >= 1
    } else if str_eq(id, "defense") && has_ability(abilities, ProfessionAbility::DefenseProficiency) {
        n == 2 && count_element(cards, Element::Wood) >= 1
    } else if str_eq(id, "countershock") && has_ability(
        abilities,
        ProfessionAbility::CountershockProficiency,
    ) {
        n == 2 && count_element(cards, Element::Fire) >= 1
    } else if str_eq(id, "shock-burst") && has_ability(
        abilities,
        ProfessionAbility::ShockBurstProficiency,
    ) {
        n == 4 && count_element(cards, Element::Fire) >= 2 && count_element(cards, Element::Water)
            >= 1
    } else if str_eq(id, "generating-formation") && has_ability(
        abilities,
        ProfessionAbility::GeneratingFormationProficiency,
    ) {
        n == 2 && generates(cards[0].element, cards[1].element)
    } else if str_eq(id, "overcoming-formation") && has_ability(
        abilities,
        ProfessionAbility::OvercomingFormationProficiency,
    ) {
        n == 2 && overcomes(cards[0].element, cards[1].element)
    } else if str_eq(id, "return-to-origin") && has_ability(
        abilities,
        ProfessionAbility::ReturnToOriginProficiency,
    ) {
        n == 4 && count_element(cards, Element::Water) >= 2 && count_element(cards, Element::Earth)
            >= 1
    } else if str_eq(id, "five-elements-cycle") && has_ability(
        abilities,
        ProfessionAbility::FiveElementsCycleProficiency,
    ) {
        n == 4 && cards[0].element != cards[1].element && cards[0].element != cards[2].element
            && cards[0].element != cards[3].element && cards[1].element != cards[2].element
            && cards[1].element != cards[3].element && cards[2].element != cards[3].element
    } else if str_eq(id, "seal") && has_ability(abilities, ProfessionAbility::SealProficiency) {
        n == 2 && count_element(cards, Element::Water) >= 1
    } else if str_eq(id, "barrier") && has_ability(abilities, ProfessionAbility::BarrierProficiency) {
        n == 4 && count_element(cards, Element::Wood) >= 2 && count_element(cards, Element::Metal)
            >= 1
    } else if has_ability(abilities, ProfessionAbility::TripleElementProficiency)
        && triple_formation_element(id).is_some() {
        let element = triple_formation_element(id).unwrap();
        n == 3 && count_element(cards, element) == 2
    } else if str_eq(id, "radiance") && has_ability(abilities, ProfessionAbility::RadianceProficiency) {
        n == 4 && count_element(cards, Element::Metal) >= 2 && count_element(cards, Element::Fire)
            >= 1
    } else if str_eq(id, "five-streams-unite") && has_ability(
        abilities,
        ProfessionAbility::FiveStreamsUniteProficiency,
    ) {
        n == 4 && cards[1].level == cards[0].level && cards[2].level == cards[0].level
            && cards[3].level == cards[0].level
    } else if str_eq(id, "metamorphosis") && has_ability(
        abilities,
        ProfessionAbility::MetamorphosisProficiency,
    ) {
        n == 2 && count_element(cards, Element::Earth) >= 1
    } else if str_eq(id, "chaos") && has_ability(abilities, ProfessionAbility::ChaosProficiency) {
        n == 4 && count_element(cards, Element::Earth) >= 2 && count_element(cards, Element::Wood)
            >= 1
    } else {
        false
    }
}

/// How a profession's abilities change incoming attack damage.
#[derive(Clone, Copy, Debug, PartialEq, Eq, Structural)]
pub enum IncomingDamageModifier {
    Unchanged,
    HalfRoundUp,
    Prevent,
}

/// The resistance ability against an element.
pub open spec fn spec_resistance(e: Element) -> ProfessionAbility {
    match e {
        Element::Metal => ProfessionAbility::MetalResistance,
        Element::Wood => ProfessionAbility::WoodResistance,
        Element::Water => ProfessionAbility::WaterResistance,
        Element::Fire => ProfessionAbility::FireResistance,
        Element::Earth => ProfessionAbility::EarthResistance,
    }
}

/// How a target's abilities change an incoming attack: a matching elemental resistance
/// prevents damage; physical damage resistance halves physical damage, rounding up.
pub open spec fn spec_incoming_damage_modifier(
    abilities: Seq<ProfessionAbility>,
    category: AttackCategory,
    is_damage: bool,
) -> IncomingDamageModifier {
    if !is_damage {
        IncomingDamageModifier::Unchanged
    } else if (category matches AttackCategory::Elemental(e) && abilities.contains(
        spec_resistance(e),
    )) {
        IncomingDamageModifier::Prevent
    } else if category == AttackCategory::Physical && abilities.contains(
        ProfessionAbility::PhysicalDamageResistance,
    ) {
        IncomingDamageModifier::HalfRoundUp
    } else {
        IncomingDamageModifier::Unchanged
    }
}

/// How a target whose profession grants `abilities` changes an incoming attack.
pub fn incoming_damage_modifier(
    abilities: &[ProfessionAbility],
    category: AttackCategory,
    is_damage: bool,
) -> (r: IncomingDamageModifier)
    ensures
        r == spec_incoming_damage_modifier(abilities@, category, is_damage),
{
    if !is_damage {
        return IncomingDamageModifier::Unchanged;
    }
    let resisted = match category {
        AttackCategory::Elemental(e) => {
            let resistance = match e {
                Element::Metal => ProfessionAbility::MetalResistance,
                Element::Wood => ProfessionAbility::WoodResistance,
                Element::Water => ProfessionAbility::WaterResistance,
                Element::Fire => ProfessionAbility::FireResistance,
                Element::Earth => ProfessionAbility::EarthResistance,
            };
            has_ability(abilities, resistance)
        },
        _ => false,
    };
    if resisted {
        IncomingDamageModifier::Prevent
    } else if category == AttackCategory::Physical && has_ability(
        abilities,
        ProfessionAbility::PhysicalDamageResistance,
    ) {
        IncomingDamageModifier::HalfRoundUp
    } else {
        IncomingDamageModifier::Unchanged
    }
}

/// Half of `x`, rounded toward zero.
pub open spec fn half_toward_zero(x: int) -> int {
    if x >= 0 {
        x / 2
    } else {
        -((-x) / 2)
    }
}

/// The life cost of retrieving a discard: halved, rounding half up, by the Seeker
/// discount.
pub fn discard_retrieval_cost(abilities: &[ProfessionAbility], normal_cost: i32) -> (r: i32)
    requires
        abilities@.contains(ProfessionAbility::SeekerDiscount) ==> normal_cost < i32::MAX,
    ensures
        r == if abilities@.contains(ProfessionAbility::SeekerDiscount) {
            half_toward_zero(normal_cost + 1)
        } else {
            normal_cost as int
        },
{
    if has_ability(abilities, ProfessionAbility::SeekerDiscount) {
        (normal_cost + 1) / 2
    } else {
        normal_cost
    }
}

/// The player-facing effect of an activated Hero Schools ability.
pub open spec fn spec_ability_effect(id: Seq<char>) -> Option<ProfessionAbilityEffect> {
    if id == "shadow-cut"@ {
        Some(ProfessionAbilityEffect::DamagePreviousTeamByCardLevelTimes { multiplier: 2 })
    } else if id == "meditation"@ {
        Some(ProfessionAbilityEffect::IncreaseTurnDraw { amount: 1 })
    } else if id == "revelation"@ {
        Some(ProfessionAbilityEffect::DrawThreeThenChooseOne)
    } else if id == "illusion"@ {
        Some(
            ProfessionAbilityEffect::CreateVirtualFormationCard {
                scope: VirtualFormationScope::ElementalStrike,
            },
        )
    } else if id == "phantasm"@ {
        Some(
            ProfessionAbilityEffect::CreateVirtualFormationCard {
                scope: VirtualFormationScope::BaseFormation,
            },
        )
    } else {
        None
    }
}

/// The player-facing effect of an activated Hero Schools ability.
pub fn player_facing_ability_effect(id: &str) -> (r: Option<ProfessionAbilityEffect>)
    ensures
        r == spec_ability_effect(id@),
{
    if str_eq(id, "shadow-cut") {
        Some(ProfessionAbilityEffect::DamagePreviousTeamByCardLevelTimes { multiplier: 2 })
    } else if str_eq(id, "meditation") {
        Some(ProfessionAbilityEffect::IncreaseTurnDraw { amount: 1 })
    } else if str_eq(id, "revelation") {
        Some(ProfessionAbilityEffect::DrawThreeThenChooseOne)
    } else if str_eq(id, "illusion") {
        Some(
            ProfessionAbilityEffect::CreateVirtualFormationCard {
                scope: VirtualFormationScope::ElementalStrike,
            },
        )
    } else if str_eq(id, "phantasm") {
        Some(
            ProfessionAbilityEffect::CreateVirtualFormationCard {
                scope: VirtualFormationScope::BaseFormation,
            },
        )
    } else {
        None
    }
}

/// Whether an activated Hero Schools ability discards the selected cards.
pub fn player_facing_ability_discards_selected_cards(id: &str) -> (r: bool)
    ensures
        r == spec_ability_effect(id@) is Some,
{
    str_eq(id, "shadow-cut") || str_eq(id, "meditation") || str_eq(id, "revelation") || str_eq(
        id,
        "illusion",
    ) || str_eq(id, "phantasm")
}

/// Whether a formation is one of the Hero Schools profession formations.
pub open spec fn spec_is_hero_formation(id: Seq<char>) -> bool {
    exists|i: int| 0 <= i < 15 && hero_formation_table()[i].formation.id == id
}

/// Whether a formation is one of the Hero Schools profession formations.
pub fn is_profession_formation(formation_id: &str) -> (r: bool)
    ensures
        r == spec_is_hero_formation(formation_id@),
{
    let specs = formation_specs();
    assert(spec_views(specs@).len() == 15);
    let mut i: usize = 0;
    while i < specs.len()
        invariant
            i <= specs.len(),
            specs.len() == 15,
            spec_views(specs@) == hero_formation_table(),
            forall|j: int| 0 <= j < i ==> hero_formation_table()[j].formation.id != formation_id@,
        decreases specs.len() - i,
    {
        assert(spec_views(specs@)[i as int] == specs@[i as int]@);
        if str_eq(specs[i].formation.id.as_str(), formation_id) {
            return true;
        }
        i = i + 1;
    }
    false
}

/// The summary of an ability.
pub open spec fn spec_ability_summary(a: ProfessionAbility) -> Seq<char> {
    match a {
        ProfessionAbility::PhysicalDamageResistance => "卸勁：受到的物理傷害減半"@,
        ProfessionAbility::WeaponProficiency => "武器專精：金＋任意牌可組成武器"@,
        ProfessionAbility::DefenseProficiency => "防禦專精：木＋任意牌可組成防禦"@,
        ProfessionAbility::CountershockProficiency => "反震專精：火＋任意牌可組成反震"@,
        ProfessionAbility::WeaponMastery => "武器精研：施展武器的回合抽牌＋１"@,
        ProfessionAbility::ShockBurstProficiency => "震暴專精：火火水＋任意牌可組成震暴"@,
        ProfessionAbility::MetalResistance => "金行抗性：受到的金行傷害無效"@,
        ProfessionAbility::BattleSoul => "戰魄：施展震暴時，其他玩家無法行動及抽牌１回合"@,
        ProfessionAbility::SeekerDiscount => "尋道術：棄牌回收的生命代價減半"@,
        ProfessionAbility::GeneratingFormationProficiency => "生陣專精：兩張相生牌可組成生陣"@,
        ProfessionAbility::OvercomingFormationProficiency => "剋陣專精：兩張相剋牌可組成剋陣"@,
        ProfessionAbility::ReturnToOriginProficiency => "歸元專精：水水土＋任意牌可組成歸元"@,
        ProfessionAbility::FiveElementsCycleProficiency => "五行輪迴專精：四張不同屬性牌可組成五行輪迴"@,
        ProfessionAbility::WoodResistance => "木行抗性：受到的木行傷害無效"@,
        ProfessionAbility::SpellProtection => "道源：術式不受封印、幻印影響"@,
        ProfessionAbility::Illusion => "幻術：捨棄兩張牌，準備任意牌施展五行擊術"@,
        ProfessionAbility::SealProficiency => "封印專精：水＋任意牌可組成封印"@,
        ProfessionAbility::IllusionRefinement => "幻術精研：幻術產生３級以下牌時抽牌＋１"@,
        ProfessionAbility::BarrierProficiency => "氣壁專精：木木金＋任意牌可組成氣壁"@,
        ProfessionAbility::Phantasm => "幻朧：捨棄兩張牌，準備任意牌組成基礎陣法"@,
        ProfessionAbility::WaterResistance => "水行抗性：受到的水行傷害無效"@,
        ProfessionAbility::TripleElementProficiency => "五行三張攻擊專精：兩張同行＋一張非同行牌，點數－６"@,
        ProfessionAbility::RadianceProficiency => "光芒專精：金金火＋任意牌可組成光芒"@,
        ProfessionAbility::FiveStreamsUniteProficiency => "五流歸一專精：四張同級牌可組成五流歸一，點數－１５"@,
        ProfessionAbility::FireResistance => "火行抗性：受到的火行傷害無效"@,
        ProfessionAbility::ArcaneEssence => "法粹：專精組成的三張攻擊可召喚星辰"@,
        ProfessionAbility::Windwalking => "風行術：１５點以下攻擊不受其他陣法反制"@,
        ProfessionAbility::MetamorphosisProficiency => "幻化專精：土＋任意牌可組成幻化"@,
        ProfessionAbility::ShadowCut => "影切：捨棄一張牌，上家扣除該牌等級×２生命"@,
        ProfessionAbility::ChaosProficiency => "混沌專精：土土木＋任意牌可組成混沌"@,
        ProfessionAbility::EarthResistance => "土行抗性：受到的土行傷害無效"@,
        ProfessionAbility::ShadowEscape => "影遁：不受上家光芒、混沌及其幻化複製效果"@,
        ProfessionAbility::Choice => "抉擇：以１級牌轉職為任一五大學派一階職業"@,
        ProfessionAbility::Breakthrough => "突破：以１級牌加原需求直升任一五大學派二階職業"@,
        ProfessionAbility::ImmortalDrawBonus => "仙術：施展指定四張陣法時抽牌＋１"@,
        ProfessionAbility::Meditation => "冥思：捨棄一張４級以上牌，本回合抽牌＋１"@,
        ProfessionAbility::SacredArt => "聖術：基礎四張陣法可將一張４級以上牌視為兩張"@,
        ProfessionAbility::Revelation => "啟示：捨棄一張４級以上牌，抽三選一"@,
    }
}

impl ProfessionAbility {
    /// The summary of the ability.
    pub fn summary(self) -> (r: &'static str)
        ensures
            r@ == spec_ability_summary(self),
    {
        match self {
            ProfessionAbility::PhysicalDamageResistance => "卸勁：受到的物理傷害減半",
            ProfessionAbility::WeaponProficiency => "武器專精：金＋任意牌可組成武器",
            ProfessionAbility::DefenseProficiency => "防禦專精：木＋任意牌可組成防禦",
            ProfessionAbility::CountershockProficiency => "反震專精：火＋任意牌可組成反震",
            ProfessionAbility::WeaponMastery => "武器精研：施展武器的回合抽牌＋１",
            ProfessionAbility::ShockBurstProficiency => "震暴專精：火火水＋任意牌可組成震暴",
            ProfessionAbility::MetalResistance => "金行抗性：受到的金行傷害無效",
            ProfessionAbility::BattleSoul => "戰魄：施展震暴時，其他玩家無法行動及抽牌１回合",
            ProfessionAbility::SeekerDiscount => "尋道術：棄牌回收的生命代價減半",
            ProfessionAbility::GeneratingFormationProficiency => "生陣專精：兩張相生牌可組成生陣",
            ProfessionAbility::OvercomingFormationProficiency => "剋陣專精：兩張相剋牌可組成剋陣",
            ProfessionAbility::ReturnToOriginProficiency => "歸元專精：水水土＋任意牌可組成歸元",
            ProfessionAbility::FiveElementsCycleProficiency => "五行輪迴專精：四張不同屬性牌可組成五行輪迴",
            ProfessionAbility::WoodResistance => "木行抗性：受到的木行傷害無效",
            ProfessionAbility::SpellProtection => "道源：術式不受封印、幻印影響",
            ProfessionAbility::Illusion => "幻術：捨棄兩張牌，準備任意牌施展五行擊術",
            ProfessionAbility::SealProficiency => "封印專精：水＋任意牌可組成封印",
            ProfessionAbility::IllusionRefinement => "幻術精研：幻術產生３級以下牌時抽牌＋１",
            ProfessionAbility::BarrierProficiency => "氣壁專精：木木金＋任意牌可組成氣壁",
            ProfessionAbility::Phantasm => "幻朧：捨棄兩張牌，準備任意牌組成基礎陣法",
            ProfessionAbility::WaterResistance => "水行抗性：受到的水行傷害無效",
            ProfessionAbility::TripleElementProficiency => "五行三張攻擊專精：兩張同行＋一張非同行牌，點數－６",
            ProfessionAbility::RadianceProficiency => "光芒專精：金金火＋任意牌可組成光芒",
            ProfessionAbility::FiveStreamsUniteProficiency => "五流歸一專精：四張同級牌可組成五流歸一，點數－１５",
            ProfessionAbility::FireResistance => "火行抗性：受到的火行傷害無效",
            ProfessionAbility::ArcaneEssence => "法粹：專精組成的三張攻擊可召喚星辰",
            ProfessionAbility::Windwalking => "風行術：１５點以下攻擊不受其他陣法反制",
            ProfessionAbility::MetamorphosisProficiency => "幻化專精：土＋任意牌可組成幻化",
            ProfessionAbility::ShadowCut => "影切：捨棄一張牌，上家扣除該牌等級×２生命",
            ProfessionAbility::ChaosProficiency => "混沌專精：土土木＋任意牌可組成混沌",
            ProfessionAbility::EarthResistance => "土行抗性：受到的土行傷害無效",
            ProfessionAbility::ShadowEscape => "影遁：不受上家光芒、混沌及其幻化複製效果",
            ProfessionAbility::Choice => "抉擇：以１級牌轉職為任一五大學派一階職業",
            ProfessionAbility::Breakthrough => "突破：以１級牌加原需求直升任一五大學派二階職業",
            ProfessionAbility::ImmortalDrawBonus => "仙術：施展指定四張陣法時抽牌＋１",
            ProfessionAbility::Meditation => "冥思：捨棄一張４級以上牌，本回合抽牌＋１",
            ProfessionAbility::SacredArt => "聖術：基礎四張陣法可將一張４級以上牌視為兩張",
            ProfessionAbility::Revelation => "啟示：捨棄一張４級以上牌，抽三選一",
        }
    }
}

/// The summaries of the abilities in effect, in order.
pub fn effective_ability_summaries(abilities: &[ProfessionAbility]) -> (r: Vec<&'static str>)
    ensures
        r@.len() == abilities@.len(),
        forall|i: int| 0 <= i < r@.len() ==> (#[trigger] r@[i])@ == spec_ability_summary(abilities@[i]),
{
    let mut r: Vec<&'static str> = Vec::new();
    let mut i: usize = 0;
    while i < abilities.len()
        invariant
            i <= abilities.len(),
            r@.len() == i,
            forall|k: int| 0 <= k < i ==> (#[trigger] r@[k])@ == spec_ability_summary(abilities@[k]),
        decreases abilities.len() - i,
    {
        r.push(abilities[i].summary());
        i = i + 1;
    }
    r
}

/// Whether a player holding `profession`, whose line is `lineage`, may use the named
/// formation: each profession formation belongs to a second-tier line or to one
/// legendary profession; the Void Reversion and every other formation are open to all.
pub open spec fn spec_can_use_profession_formation(
    profession: Option<Seq<char>>,
    lineage: Seq<ProfessionId>,
    id: Seq<char>,
) -> bool {
    if id == "void-reversion"@ {
        true
    } else {
        match profession {
            None => false,
            Some(p) => if id == "divine-weapon"@ {
                lineage_has(lineage, WAR_GOD_ID@)
            } else if id == "falling-light-slash"@ {
                p == HERO_ID@
            } else if id == "dao-defense"@ {
                lineage_has(lineage, EXPOUNDER_ID@)
            } else if id == "reincarnation"@ {
                p == BENEVOLENT_ID@
            } else if id == "magic-seal"@ {
                lineage_has(lineage, SPIRIT_MESMER_ID@)
            } else if id == "purple-light-shield"@ {
                p == HERMIT_ID@
            } else if id == "magic-shock"@ {
                lineage_has(lineage, MAGE_GUIDE_ID@)
            } else if id == "magic-reflection-flash"@ {
                p == SAGE_ID@
            } else if id == "shadow-assault"@ {
                lineage_has(lineage, SHADOW_WALKER_ID@)
            } else if id == "instant-shadow-death"@ {
                p == MARTIAL_ARTIST_ID@
            } else if id == "condensed-void-arrow"@ || id == "sky-bow-roar"@ {
                p == IMMORTAL_ID@
            } else if id == "holy-light-break"@ || id == "holy-wind"@ {
                p == SAINT_ID@
            } else {
                true
            },
        }
    }
}

/// Whether a player holding `profession`, whose line is `lineage`, may use the named
/// formation.
pub fn can_use_profession_formation(
    profession: Option<&ProfessionId>,
    lineage: &[ProfessionId],
    id: &str,
) -> (r: bool)
    ensures
        r == spec_can_use_profession_formation(
            match profession {
                Some(p) => Some(p@),
                None => None,
            },
            lineage@,
            id@,
        ),
{
    if str_eq(id, "void-reversion") {
        return true;
    }
    let p = match profession {
        Some(p) => p.as_str(),
        None => {
            return false;
        },
    };
    if str_eq(id, "divine-weapon") {
        lineage_contains(lineage, WAR_GOD_ID)
    } else if str_eq(id, "falling-light-slash") {
        str_eq(p, HERO_ID)
    } else if str_eq(id, "dao-defense") {
        lineage_contains(lineage, EXPOUNDER_ID)
    } else if str_eq(id, "reincarnation") {
        str_eq(p, BENEVOLENT_ID)
    } else if str_eq(id, "magic-seal") {
        lineage_contains(lineage, SPIRIT_MESMER_ID)
    } else if str_eq(id, "purple-light-shield") {
        str_eq(p, HERMIT_ID)
    } else if str_eq(id, "magic-shock") {
        lineage_contains(lineage, MAGE_GUIDE_ID)
    } else if str_eq(id, "magic-reflection-flash") {
        str_eq(p, SAGE_ID)
    } else if str_eq(id, "shadow-assault") {
        lineage_contains(lineage, SHADOW_WALKER_ID)
    } else if str_eq(id, "instant-shadow-death") {
        str_eq(p, MARTIAL_ARTIST_ID)
    } else if str_eq(id, "condensed-void-arrow") || str_eq(id, "sky-bow-roar") {
        str_eq(p, IMMORTAL_ID)
    } else if str_eq(id, "holy-light-break") || str_eq(id, "holy-wind") {
        str_eq(p, SAINT_ID)
    } else {
        true
    }
}

/// The name and rule text of each profession formation, other than the Void Reversion,
/// that a player holding `profession`, whose line is `lineage`, may use.
pub open spec fn spec_formation_summaries(profession: Seq<char>, lineage: Seq<ProfessionId>) -> Seq<
    (Seq<char>, Seq<char>),
> {
    hero_formation_table().filter_map(
        |s: SpecView|
            if s.formation.id != "void-reversion"@ && spec_can_use_profession_formation(
                Some(profession),
                lineage,
                s.formation.id,
            ) && spec_is_hero_formation(s.formation.id) {
                Some((s.formation.name, s.formation.rule_text))
            } else {
                None
            },
    )
}

/// The views of a list of text pairs.
pub open spec fn pair_views(s: Seq<(String, String)>) -> Seq<(Seq<char>, Seq<char>)> {
    s.map_values(|p: (String, String)| (p.0@, p.1@))
}

/// The name and rule text of each profession formation a player holding `profession`
/// may use, other than the Void Reversion.
pub fn profession_formation_summaries(profession: &ProfessionId, lineage: &[ProfessionId]) -> (r:
    Vec<(String, String)>)
    ensures
        pair_views(r@) == spec_formation_summaries(profession@, lineage@),
{
    let specs = formation_specs();
    let ghost table = hero_formation_table();
    let ghost f = |s: SpecView|
        if s.formation.id != "void-reversion"@ && spec_can_use_profession_formation(
            Some(profession@),
            lineage@,
            s.formation.id,
        ) && spec_is_hero_formation(s.formation.id) {
            Some((s.formation.name, s.formation.rule_text))
        } else {
            None
        };
    let mut r: Vec<(String, String)> = Vec::new();
    let mut k: usize = 0;
    while k < specs.len()
        invariant
            k <= specs.len(),
            spec_views(specs@) == table,
            table == hero_formation_table(),
            f == (|s: SpecView|
                if s.formation.id != "void-reversion"@ && spec_can_use_profession_formation(
                    Some(profession@),
                    lineage@,
                    s.formation.id,
                ) && spec_is_hero_formation(s.formation.id) {
                    Some((s.formation.name, s.formation.rule_text))
                } else {
                    None
                }),
            pair_views(r@) == table.take(k as int).filter_map(f),
        decreases specs.len() - k,
    {
        proof {
            table.lemma_filter_map_take_succ(f, k as int);
        }
        assert(spec_views(specs@)[k as int] == specs@[k as int]@);
        let formation = &specs[k].formation;
        let id = formation.id.as_str();
        if !str_eq(id, "void-reversion") && can_use_profession_formation(Some(profession), lineage, id)
            && is_profession_formation(id) {
            r.push((formation.name.clone(), formation.rule_text.clone()));
        }
        assert(pair_views(r@) =~= table.take(k as int + 1).filter_map(f));
        k = k + 1;
    }
    assert(table.take(specs.len() as int) =~= table);
    r
}

/// How many used cards are known to print `e`.
pub open spec fn count_known(elements: Seq<Option<Element>>, e: Element) -> int
    decreases elements.len(),
{
    if elements.len() == 0 {
        0
    } else {
        count_known(elements.drop_last(), e) + if elements.last() == Some(e) {
            1int
        } else {
            0
        }
    }
}

/// Every used card's printed element is known.
pub open spec fn all_known(elements: Seq<Option<Element>>) -> bool {
    forall|i: int| 0 <= i < elements.len() ==> elements[i] is Some
}

fn count_known_of(elements: &[Option<Element>], e: Element) -> (r: usize)
    ensures
        r == count_known(elements@, e),
{
    let mut n: usize = 0;
    let mut i: usize = 0;
    while i < elements.len()
        invariant
            i <= elements.len(),
            n == count_known(elements@.subrange(0, i as int), e),
            n <= i,
        decreases elements.len() - i,
    {
        assert(elements@.subrange(0, i as int + 1).drop_last() =~= elements@.subrange(0, i as int));
        if elements[i] == Some(e) {
            n = n + 1;
        }
        i = i + 1;
    }
    assert(elements@.subrange(0, elements.len() as int) =~= elements@);
    n
}

fn all_elements_known(elements: &[Option<Element>]) -> (r: bool)
    ensures
        r == all_known(elements@),
{
    let mut i: usize = 0;
    while i < elements.len()
        invariant
            i <= elements.len(),
            forall|j: int| 0 <= j < i ==> elements@[j] is Some,
        decreases elements.len() - i,
    {
        if elements[i].is_none() {
            return false;
        }
        i = i + 1;
    }
    true
}

/// A triple attack of `e` made of two cards of `e` and one other known card.
pub open spec fn mage_triple(elements: Seq<Option<Element>>, id: Seq<char>) -> bool {
    spec_triple_formation_element(id) matches Some(e) && elements.len() == 3 && count_known(
        elements,
        e,
    ) == 2
}

/// The attack points after the Hero Schools proficiencies of a player whose profession
/// grants `abilities` (its profession not suppressed): six fewer, never below zero, for a
/// triple attack made by the triple element proficiency, and fifteen fewer for a Five
/// Streams Unite of four cards.
pub open spec fn spec_modified_attack_points(
    suppressed: bool,
    abilities: Seq<ProfessionAbility>,
    id: Seq<char>,
    elements: Seq<Option<Element>>,
    points: int,
) -> int {
    if suppressed {
        points
    } else if mage_triple(elements, id) && abilities.contains(
        ProfessionAbility::TripleElementProficiency,
    ) && all_known(elements) {
        if points - 6 < 0 {
            0
        } else {
            points - 6
        }
    } else if id == "five-streams-unite"@ && abilities.contains(
        ProfessionAbility::FiveStreamsUniteProficiency,
    ) && elements.len() == 4 {
        if points - 15 < 0 {
            0
        } else {
            points - 15
        }
    } else {
        points
    }
}

/// The attack points after the Hero Schools proficiencies, given the printed elements of
/// the used cards (`None` where a card is unknown).
pub fn modify_attack_points(
    suppressed: bool,
    abilities: &[ProfessionAbility],
    formation_id: &str,
    card_elements: &[Option<Element>],
    points: i32,
) -> (r: i32)
    ensures
        r == spec_modified_attack_points(
            suppressed,
            abilities@,
            formation_id@,
            card_elements@,
            points as int,
        ),
{
    if suppressed {
        return points;
    }
    let triple = match triple_formation_element(formation_id) {
        Some(e) => card_elements.len() == 3 && count_known_of(card_elements, e) == 2,
        None => false,
    };
    if triple && has_ability(abilities, ProfessionAbility::TripleElementProficiency)
        && all_elements_known(card_elements) {
        if points < i32::MIN + 6 || points - 6 < 0 {
            0
        } else {
            points - 6
        }
    } else if str_eq(formation_id, "five-streams-unite") && has_ability(
        abilities,
        ProfessionAbility::FiveStreamsUniteProficiency,
    ) && card_elements.len() == 4 {
        if points < i32::MIN + 15 || points - 15 < 0 {
            0
        } else {
            points - 15
        }
    } else {
        points
    }
}

/// A star may be summoned after a formation unless it is a triple attack made by the
/// triple element proficiency, which needs the Arcane Essence of an unsuppressed
/// profession.
pub open spec fn spec_star_summoning_allowed(
    suppressed: bool,
    abilities: Seq<ProfessionAbility>,
    id: Seq<char>,
    elements: Seq<Option<Element>>,
) -> bool {
    if !mage_triple(elements, id) {
        true
    } else {
        !suppressed && abilities.contains(ProfessionAbility::ArcaneEssence)
    }
}

/// Whether a star may be summoned after the formation.
pub fn star_summoning_allowed(
    suppressed: bool,
    abilities: &[ProfessionAbility],
    formation_id: &str,
    card_elements: &[Option<Element>],
) -> (r: bool)
    ensures
        r == spec_star_summoning_allowed(suppressed, abilities@, formation_id@, card_elements@),
{
    let e = match triple_formation_element(formation_id) {
        Some(e) => e,
        None => {
            return true;
        },
    };
    if !(card_elements.len() == 3 && count_known_of(card_elements, e) == 2) {
        return true;
    }
    !suppressed && has_ability(abilities, ProfessionAbility::ArcaneEssence)
}

/// Windwalking keeps attacks of fifteen points or fewer from being countered by other
/// formations, for an unsuppressed profession that grants it.
pub fn windwalking_applies(suppressed: bool, abilities: &[ProfessionAbility], attack_points: i32) -> (r:
    bool)
    ensures
        r == (!suppressed && attack_points <= 15 && abilities@.contains(
            ProfessionAbility::Windwalking,
        )),
{
    !suppressed && attack_points <= 15 && has_ability(abilities, ProfessionAbility::Windwalking)
}

/// Spell Protection keeps an unsuppressed profession's spells from being countered.
pub fn spell_counter_immunity(suppressed: bool, abilities: &[ProfessionAbility]) -> (r: bool)
    ensures
        r == (!suppressed && abilities@.contains(ProfessionAbility::SpellProtection)),
{
    !suppressed && has_ability(abilities, ProfessionAbility::SpellProtection)
}


/// The identity and name of each profession of the catalog the submitted cards change
/// a player holding `current` into.
pub open spec fn spec_profession_changes(
    current: Option<Seq<char>>,
    facts: Seq<SubmittedCardFacts>,
) -> Seq<(Seq<char>, Seq<char>)> {
    hero_catalog_table().filter_map(
        |p: ProfessionView|
            if spec_profession_change_matches(current, p, facts) {
                Some((p.id, p.name))
            } else {
                None
            },
    )
}

/// The identity and name a profession change candidate offers.
pub open spec fn change_offer(c: crate::rules::detail::ProfessionChangeCandidate) -> (
    Seq<char>,
    Seq<char>,
) {
    (c.profession_id@, c.profession_name@)
}

/// The professions the submitted cards change a player holding `current` into, each
/// offered with the submitted cards; none while the module is disabled.
pub fn playable_profession_changes(
    module_enabled: bool,
    current: Option<&ProfessionId>,
    cards: &[crate::domain::CardInstanceId],
    facts: &[SubmittedCardFacts],
) -> (r: Vec<crate::rules::detail::ProfessionChangeCandidate>)
    ensures
        !module_enabled ==> r@.len() == 0,
        module_enabled ==> r@.map_values(
            |c: crate::rules::detail::ProfessionChangeCandidate| change_offer(c),
        ) == spec_profession_changes(opt_view(current), facts@),
        forall|i: int|
            0 <= i < r@.len() ==> (#[trigger] r@[i]).cards@ == cards@
                && r@[i].detail.consequences@.len() == 0,
{
    let mut r: Vec<crate::rules::detail::ProfessionChangeCandidate> = Vec::new();
    if !module_enabled {
        return r;
    }
    let catalog = catalog();
    let ghost table = hero_catalog_table();
    let ghost f = |p: ProfessionView|
        if spec_profession_change_matches(opt_view(current), p, facts@) {
            Some((p.id, p.name))
        } else {
            None
        };
    let mut k: usize = 0;
    while k < catalog.len()
        invariant
            k <= catalog.len(),
            profession_views(catalog@) == table,
            table == hero_catalog_table(),
            f == (|p: ProfessionView|
                if spec_profession_change_matches(opt_view(current), p, facts@) {
                    Some((p.id, p.name))
                } else {
                    None
                }),
            r@.map_values(|c: crate::rules::detail::ProfessionChangeCandidate| change_offer(c))
                == table.take(k as int).filter_map(f),
            forall|i: int|
                0 <= i < r@.len() ==> (#[trigger] r@[i]).cards@ == cards@
                    && r@[i].detail.consequences@.len() == 0,
        decreases catalog.len() - k,
    {
        proof {
            table.lemma_filter_map_take_succ(f, k as int);
        }
        assert(profession_views(catalog@)[k as int] == catalog@[k as int]@);
        let p = &catalog[k];
        if profession_change_matches(current, p, facts) {
            r.push(
                crate::rules::detail::ProfessionChangeCandidate {
                    profession_id: p.id.clone(),
                    profession_name: owned(p.name),
                    cards: crate::domain::copy_cards(cards),
                    detail: crate::rules::detail::PlayerFacingActionDetail::pending_composition(),
                },
            );
        }
        assert(r@.map_values(|c: crate::rules::detail::ProfessionChangeCandidate| change_offer(c))
            =~= table.take(k as int + 1).filter_map(f));
        k = k + 1;
    }
    assert(table.take(catalog.len() as int) =~= table);
    r
}

/// The error a refused profession change meets: the module disabled, an unknown
/// profession, an unmet prerequisite (for a player who is not a First Wanderer), or cards
/// that do not match.
pub open spec fn change_error(
    module_enabled: bool,
    current: Option<ProfessionId>,
    target: ProfessionId,
    facts: Seq<SubmittedCardFacts>,
    e: crate::domain::GameError,
) -> bool {
    if !module_enabled {
        e == GameError::Validation(ValidationError::HeroSchoolsDisabled)
    } else {
        match profession_lookup_from(target@, 0) {
            None => e == GameError::Validation(ValidationError::UnknownProfession(target)),
            Some(p) => {
                &&& !spec_profession_change_matches(opt_id(current), p, facts)
                &&& match p.prerequisite {
                    Some(required) => if opt_id(current) != Some(required) && opt_id(current) != Some(
                        FIRST_WANDERER_ID@,
                    ) {
                        e matches GameError::Validation(
                            ValidationError::ProfessionPrerequisiteNotMet {
                                profession,
                                required: r,
                                actual,
                            },
                        ) && profession == target && r@ == required && actual == current
                    } else {
                        e == GameError::Validation(
                            ValidationError::ProfessionChangePatternMismatch { profession: target },
                        )
                    },
                    None => e == GameError::Validation(
                        ValidationError::ProfessionChangePatternMismatch { profession: target },
                    ),
                }
            },
        }
    }
}

/// The change is accepted: the module is enabled, the profession is known and the cards
/// change the player into it.
pub open spec fn change_accepted(
    module_enabled: bool,
    current: Option<Seq<char>>,
    target: Seq<char>,
    facts: Seq<SubmittedCardFacts>,
) -> bool {
    module_enabled && match profession_lookup_from(target, 0) {
        Some(p) => spec_profession_change_matches(current, p, facts),
        None => false,
    }
}

fn clone_current(current: Option<&ProfessionId>) -> (r: Option<ProfessionId>)
    ensures
        r == match current {
            Some(p) => Some(*p),
            None => None,
        },
{
    match current {
        Some(p) => Some(p.clone()),
        None => None,
    }
}

/// Checks a Hero Schools profession change of a player holding `current` into `target`.
pub fn validate_profession_change(
    module_enabled: bool,
    current: Option<&ProfessionId>,
    target: &ProfessionId,
    facts: &[SubmittedCardFacts],
) -> (r: Result<(), crate::domain::GameError>)
    ensures
        r is Ok <==> change_accepted(module_enabled, opt_view(current), target@, facts@),
        r matches Err(e) ==> change_error(
            module_enabled,
            match current {
                Some(p) => Some(*p),
                None => None,
            },
            *target,
            facts@,
            e,
        ),
{
    if !module_enabled {
        return Err(GameError::Validation(ValidationError::HeroSchoolsDisabled));
    }
    let p = match profession(target) {
        Some(p) => p,
        None => {
            return Err(GameError::Validation(ValidationError::UnknownProfession(target.clone())));
        },
    };
    if !profession_change_matches(current, &p, facts) {
        match &p.prerequisite {
            Some(required) => {
                let held = match current {
                    Some(c) => str_eq(c.as_str(), required.as_str()),
                    None => false,
                };
                let wanderer = match current {
                    Some(c) => str_eq(c.as_str(), FIRST_WANDERER_ID),
                    None => false,
                };
                if !held && !wanderer {
                    return Err(
                        GameError::Validation(
                            ValidationError::ProfessionPrerequisiteNotMet {
                                profession: target.clone(),
                                required: required.clone(),
                                actual: clone_current(current),
                            },
                        ),
                    );
                }
            },
            None => {},
        }
        return Err(
            GameError::Validation(
                ValidationError::ProfessionChangePatternMismatch { profession: target.clone() },
            ),
        );
    }
    Ok(())
}

/// The card at `i` can stand alone in a Reincarnation: it is a Wood card, and the other
/// three cards form a generating sequence with levels totalling at least ten.
pub open spec fn standalone_wood(facts: Seq<SubmittedCardFacts>, i: int) -> bool {
    &&& 0 <= i < facts.len()
    &&& facts[i].element == Element::Wood
    &&& crate::rules::matcher::without(facts, i).len() == 3
    &&& level_sum(crate::rules::matcher::without(facts, i)) >= 10
    &&& crate::rules::matcher::unordered_sequence(
        elements_of(crate::rules::matcher::without(facts, i)),
        3,
        crate::rules::matcher::ElementCycle::Generating,
    )
}

/// The role options of a Reincarnation among the first `n` cards: each card that can
/// stand alone, with the life it recovers (its level times twenty-five).
pub open spec fn role_options_upto(
    cards: Seq<crate::domain::CardInstanceId>,
    facts: Seq<SubmittedCardFacts>,
    n: int,
) -> Seq<(Seq<char>, crate::domain::CardInstanceId, Seq<char>)>
    decreases n,
{
    if n <= 0 {
        seq![]
    } else if standalone_wood(facts, n - 1) {
        role_options_upto(cards, facts, n - 1).push(
            (
                "standalone-wood"@,
                cards[n - 1],
                "回復 "@ + crate::rules::base::spec_decimal((facts[n - 1].level * 25) as nat)
                    + " 點生命"@,
            ),
        )
    } else {
        role_options_upto(cards, facts, n - 1)
    }
}

/// The role options of a formation: only a Reincarnation offers any.
pub open spec fn spec_role_options(
    formation_id: Seq<char>,
    cards: Seq<crate::domain::CardInstanceId>,
    facts: Seq<SubmittedCardFacts>,
) -> Seq<(Seq<char>, crate::domain::CardInstanceId, Seq<char>)> {
    if formation_id == "reincarnation"@ {
        role_options_upto(cards, facts, cards.len() as int)
    } else {
        seq![]
    }
}

/// The view of a role option.
pub open spec fn role_option_view(o: (crate::rules::detail::TargetDecl, String)) -> (
    Seq<char>,
    crate::domain::CardInstanceId,
    Seq<char>,
) {
    match o.0 {
        crate::rules::detail::TargetDecl::FormationRole { role, card } => (role@, card, o.1@),
        crate::rules::detail::TargetDecl::CardMultiplicity { card, .. } => (seq![], card, o.1@),
    }
}

/// The role options a formation offers for the submitted cards and their facts.
pub fn formation_role_options(
    formation_id: &str,
    cards: &[crate::domain::CardInstanceId],
    facts: &[SubmittedCardFacts],
) -> (r: Vec<(crate::rules::detail::TargetDecl, String)>)
    requires
        forall|i: int| 0 <= i < facts@.len() ==> #[trigger] facts@[i].level * 25 <= u32::MAX,
    ensures
        r@.map_values(|o: (crate::rules::detail::TargetDecl, String)| role_option_view(o))
            == spec_role_options(formation_id@, cards@, facts@),
{
    let mut r: Vec<(crate::rules::detail::TargetDecl, String)> = Vec::new();
    if !str_eq(formation_id, "reincarnation") {
        assert(r@.map_values(|o: (crate::rules::detail::TargetDecl, String)| role_option_view(o))
            =~= Seq::<(Seq<char>, crate::domain::CardInstanceId, Seq<char>)>::empty());
        return r;
    }
    let mut i: usize = 0;
    while i < cards.len()
        invariant
            i <= cards.len(),
            forall|k: int| 0 <= k < facts@.len() ==> #[trigger] facts@[k].level * 25 <= u32::MAX,
            r@.map_values(|o: (crate::rules::detail::TargetDecl, String)| role_option_view(o))
                == role_options_upto(cards@, facts@, i as int),
        decreases cards.len() - i,
    {
        let ghost before = r@;
        if i < facts.len() && facts[i].element == Element::Wood {
            let rest = crate::rules::matcher::cards_without(facts, i);
            if rest.len() == 3 && level_sum_at_least(rest.as_slice(), 10) {
                let elements = crate::rules::matcher::submitted_elements(rest.as_slice());
                if crate::rules::matcher::matches_unordered_sequence(
                    elements.as_slice(),
                    3,
                    crate::rules::matcher::ElementCycle::Generating,
                ) {
                    let amount = facts[i].level * 25;
                    let label = owned("回復 ").concat(crate::rules::base::decimal(amount).as_str()).concat(
                        " 點生命",
                    );
                    r.push(
                        (
                            crate::rules::detail::TargetDecl::FormationRole {
                                role: owned("standalone-wood"),
                                card: cards[i],
                            },
                            label,
                        ),
                    );
                }
            }
        }
        assert(r@.map_values(|o: (crate::rules::detail::TargetDecl, String)| role_option_view(o))
            =~= role_options_upto(cards@, facts@, i as int + 1));
        i = i + 1;
    }
    r
}


// ---------------------------------------------------------------------------
// Abilities by identity.
// ---------------------------------------------------------------------------

/// The abilities of the first `n` professions of the table, one profession after another.
pub open spec fn abilities_upto(t: Seq<ProfessionView>, n: int) -> Seq<ProfessionAbility>
    decreases n,
{
    if n <= 0 || n > t.len() {
        seq![]
    } else {
        abilities_upto(t, n - 1) + t[n - 1].abilities
    }
}

/// The last ability of the list with the identity `id`.
pub open spec fn last_named(s: Seq<ProfessionAbility>, id: Seq<char>) -> Option<ProfessionAbility>
    decreases s.len(),
{
    if s.len() == 0 {
        None
    } else if spec_ability_id(s.last()) == id {
        Some(s.last())
    } else {
        last_named(s.drop_last(), id)
    }
}

/// The catalog ability with the identity `id`, if the catalog grants one.
pub open spec fn spec_ability_named(id: Seq<char>) -> Option<ProfessionAbility> {
    last_named(abilities_upto(hero_catalog_table(), hero_catalog_table().len() as int), id)
}

proof fn lemma_last_named_push(s: Seq<ProfessionAbility>, a: ProfessionAbility, id: Seq<char>)
    ensures
        last_named(s.push(a), id) == if spec_ability_id(a) == id {
            Some(a)
        } else {
            last_named(s, id)
        },
{
    assert(s.push(a).drop_last() =~= s);
}

fn ability_named(professions: &Vec<ProfessionDef>, id: &str) -> (r: Option<ProfessionAbility>)
    ensures
        r == last_named(abilities_upto(profession_views(professions@), professions@.len() as int), id@),
{
    let ghost t = profession_views(professions@);
    let mut found: Option<ProfessionAbility> = None;
    let mut i: usize = 0;
    while i < professions.len()
        invariant
            i <= professions.len(),
            t == profession_views(professions@),
            t.len() == professions@.len(),
            found == last_named(abilities_upto(t, i as int), id@),
        decreases professions.len() - i,
    {
        let abilities = &professions[i].abilities;
        assert(t[i as int].abilities == abilities@);
        let mut j: usize = 0;
        while j < abilities.len()
            invariant
                i < professions.len(),
                j <= abilities.len(),
                t == profession_views(professions@),
                t.len() == professions@.len(),
                t[i as int].abilities == abilities@,
                found == last_named(abilities_upto(t, i as int) + abilities@.take(j as int), id@),
            decreases abilities.len() - j,
        {
            let a = abilities[j];
            proof {
                assert(abilities_upto(t, i as int) + abilities@.take(j as int + 1) =~= (abilities_upto(
                    t,
                    i as int,
                ) + abilities@.take(j as int)).push(a));
                lemma_last_named_push(abilities_upto(t, i as int) + abilities@.take(j as int), a, id@);
            }
            if str_eq(a.id(), id) {
                found = Some(a);
            }
            j = j + 1;
        }
        assert(abilities@.take(abilities.len() as int) =~= abilities@);
        assert(abilities_upto(t, i as int + 1) == abilities_upto(t, i as int) + t[i as int].abilities);
        i = i + 1;
    }
    found
}

/// The Hero Schools abilities among the ability identities in effect, in order; an
/// identity the catalog does not grant is left out.
pub fn effective_abilities(ability_ids: &[&str]) -> (r: Vec<ProfessionAbility>)
    ensures
        r@ == ability_ids@.map_values(|a: &str| a@).filter_map(|a: Seq<char>| spec_ability_named(a)),
{
    let professions = catalog();
    let ghost ids = ability_ids@.map_values(|a: &str| a@);
    let ghost f = |a: Seq<char>| spec_ability_named(a);
    let mut out: Vec<ProfessionAbility> = Vec::new();
    let mut k: usize = 0;
    while k < ability_ids.len()
        invariant
            k <= ability_ids.len(),
            profession_views(professions@) == hero_catalog_table(),
            professions@.len() == hero_catalog_table().len(),
            ids == ability_ids@.map_values(|a: &str| a@),
            f == (|a: Seq<char>| spec_ability_named(a)),
            out@ == ids.take(k as int).filter_map(f),
        decreases ability_ids.len() - k,
    {
        assert(ids.take(k as int + 1).drop_last() =~= ids.take(k as int));
        assert(ids.take(k as int + 1).last() == ability_ids@[k as int]@);
        match ability_named(&professions, ability_ids[k]) {
            Some(a) => {
                out.push(a);
            },
            None => {},
        }
        assert(out@ =~= ids.take(k as int + 1).filter_map(f));
        k = k + 1;
    }
    assert(ids.take(ability_ids.len() as int) =~= ids);
    out
}


/// The Seeker discount never raises a retrieval cost, and a cost of at least one life
/// stays at least one.
pub proof fn lemma_discount_never_raises_the_cost(normal_cost: int)
    requires
        0 <= normal_cost,
    ensures
        half_toward_zero(normal_cost + 1) <= normal_cost,
        normal_cost >= 1 ==> half_toward_zero(normal_cost + 1) >= 1,
{
}

} // verus!
