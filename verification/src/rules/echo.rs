//! The Echo rule module: seven melodies, their echo policies, and their formations.
use crate::domain::{Element, owned, str_eq};
use crate::rules::catalog::{spec_views, repeat_element};
use crate::rules::detail::{FormationCategory, FormationEffect};
use crate::rules::matcher::{FormationPattern, PatternView};
use crate::rules::registry::{
    BaseFormationSpec, EffectDef, EffectDefView, EffectPlan, EffectPlanView, FormationDef,
    FormationDefView, PointFormula, SpecView, SpellPlanDef,
};
use vstd::prelude::*;

verus! {

pub const RINGING_METAL: &'static str = "echo:ringing-metal";
pub const FALLING_WOOD: &'static str = "echo:falling-wood";
pub const FLOWING_WATER: &'static str = "echo:flowing-water";
pub const WAR_FIRE: &'static str = "echo:war-fire";
pub const SPLIT_EARTH: &'static str = "echo:split-earth";
pub const PURE_FIRE: &'static str = "echo:pure-fire";
pub const PLANT_EARTH: &'static str = "echo:plant-earth";

/// How a melody may be echoed on a later turn.
#[derive(Clone, Copy, Debug, PartialEq, Eq)]
pub enum EchoPolicy {
    /// The performer may pay one card of these printed elements to echo it.
    OptionalCost { allowed_printed_elements: [Element; 2] },
    /// The melody echoes without a cost.
    Automatic,
    /// The melody never echoes.
    Never,
}

/// Why a melody's main effect is being carried out.
#[derive(Clone, Copy, Debug, PartialEq, Eq, Structural)]
pub enum MelodyExecutionOrigin {
    FormationUse,
    Echo,
    PlantedEarth,
}

impl MelodyExecutionOrigin {
    /// Only a melody performed as a formation can schedule an echo; an echo or a planted
    /// melody never schedules another.
    pub fn can_schedule_echo(self) -> (r: bool)
        ensures
            r == (self == MelodyExecutionOrigin::FormationUse),
    {
        match self {
            MelodyExecutionOrigin::FormationUse => true,
            _ => false,
        }
    }
}

impl EchoPolicy {
    /// Whether a melody with this policy schedules an echo when carried out from `origin`.
    pub fn is_schedulable_from(self, origin: MelodyExecutionOrigin) -> (r: bool)
        ensures
            r == (origin == MelodyExecutionOrigin::FormationUse && !(self is Never)),
    {
        origin.can_schedule_echo() && !matches!(self, EchoPolicy::Never)
    }
}

/// A melody of the Echo module.
#[derive(Clone, Copy, Debug, PartialEq, Eq)]
pub struct MelodyDef {
    pub id: &'static str,
    pub name: &'static str,
    pub element: Element,
    pub custom_pattern: Option<&'static str>,
    pub echo_policy: EchoPolicy,
}

/// The abstract content of a melody.
pub struct MelodyView {
    pub id: Seq<char>,
    pub name: Seq<char>,
    pub element: Element,
    pub custom_pattern: Option<Seq<char>>,
    pub echo_policy: EchoPolicy,
}

impl View for MelodyDef {
    type V = MelodyView;

    open spec fn view(&self) -> MelodyView {
        MelodyView {
            id: self.id@,
            name: self.name@,
            element: self.element,
            custom_pattern: match self.custom_pattern {
                Some(p) => Some(p@),
                None => None,
            },
            echo_policy: self.echo_policy,
        }
    }
}

/// A basic melody: two cards of its element, echoed for a card of the allowed elements.
pub open spec fn spec_basic_melody(
    id: Seq<char>,
    name: Seq<char>,
    element: Element,
    allowed: [Element; 2],
) -> MelodyView {
    MelodyView {
        id,
        name,
        element,
        custom_pattern: None,
        echo_policy: EchoPolicy::OptionalCost { allowed_printed_elements: allowed },
    }
}

/// The seven published melodies, in catalog order.
pub open spec fn melody_table() -> Seq<MelodyView> {
    seq![
        spec_basic_melody(RINGING_METAL@, "商調‧鳴金"@, Element::Metal, [Element::Metal, Element::Earth]),
        MelodyView {
            id: PURE_FIRE@,
            name: "變徵‧淨火"@,
            element: Element::Fire,
            custom_pattern: Some(PURE_FIRE@),
            echo_policy: EchoPolicy::Automatic,
        },
        MelodyView {
            id: PLANT_EARTH@,
            name: "變宮‧植土"@,
            element: Element::Earth,
            custom_pattern: Some(PLANT_EARTH@),
            echo_policy: EchoPolicy::Never,
        },
        spec_basic_melody(FALLING_WOOD@, "角調‧落木"@, Element::Wood, [Element::Wood, Element::Water]),
        spec_basic_melody(FLOWING_WATER@, "羽調‧流水"@, Element::Water, [Element::Water, Element::Metal]),
        spec_basic_melody(WAR_FIRE@, "徵調‧戰火"@, Element::Fire, [Element::Fire, Element::Wood]),
        spec_basic_melody(SPLIT_EARTH@, "宮調‧裂土"@, Element::Earth, [Element::Earth, Element::Fire]),
    ]
}

/// The views of a list of melodies.
pub open spec fn melody_views(s: Seq<MelodyDef>) -> Seq<MelodyView> {
    s.map_values(|m: MelodyDef| m@)
}

fn melody_definition(
    id: &'static str,
    name: &'static str,
    element: Element,
    allowed_printed_elements: [Element; 2],
) -> (r: MelodyDef)
    ensures
        r@ == spec_basic_melody(id@, name@, element, allowed_printed_elements),
{
    MelodyDef {
        id,
        name,
        element,
        custom_pattern: None,
        echo_policy: EchoPolicy::OptionalCost { allowed_printed_elements },
    }
}

/// The seven published melodies: five basic melodies with an optional echo cost, Pure
/// Fire that echoes automatically, and Plant Earth that never echoes.
pub fn melody_catalog() -> (r: Vec<MelodyDef>)
    ensures
        melody_views(r@) == melody_table(),
{
    let v = vec![
        melody_definition(
            RINGING_METAL,
            "商調‧鳴金",
            Element::Metal,
            [Element::Metal, Element::Earth],
        ),
        MelodyDef {
            id: PURE_FIRE,
            name: "變徵‧淨火",
            element: Element::Fire,
            custom_pattern: Some(PURE_FIRE),
            echo_policy: EchoPolicy::Automatic,
        },
        MelodyDef {
            id: PLANT_EARTH,
            name: "變宮‧植土",
            element: Element::Earth,
            custom_pattern: Some(PLANT_EARTH),
            echo_policy: EchoPolicy::Never,
        },
        melody_definition(FALLING_WOOD, "角調‧落木", Element::Wood, [Element::Wood, Element::Water]),
        melody_definition(
            FLOWING_WATER,
            "羽調‧流水",
            Element::Water,
            [Element::Water, Element::Metal],
        ),
        melody_definition(WAR_FIRE, "徵調‧戰火", Element::Fire, [Element::Fire, Element::Wood]),
        melody_definition(SPLIT_EARTH, "宮調‧裂土", Element::Earth, [Element::Earth, Element::Fire]),
    ];
    assert(melody_views(v@) =~= melody_table());
    v
}

/// The first melody of the catalog with identity `id`, from position `k` on.
pub open spec fn melody_lookup_from(id: Seq<char>, k: int) -> Option<MelodyView>
    decreases 7 - k,
{
    if k < 0 || k >= 7 {
        None
    } else if melody_table()[k].id == id {
        Some(melody_table()[k])
    } else {
        melody_lookup_from(id, k + 1)
    }
}

/// The melody with identity `id`.
pub fn melody(id: &str) -> (r: Option<MelodyDef>)
    ensures
        match r {
            Some(m) => melody_lookup_from(id@, 0) == Some(m@),
            None => melody_lookup_from(id@, 0) is None,
        },
{
    let catalog = melody_catalog();
    assert(melody_views(catalog@).len() == 7);
    let mut k: usize = 0;
    while k < catalog.len()
        invariant
            k <= catalog.len(),
            catalog.len() == 7,
            melody_views(catalog@) == melody_table(),
            melody_lookup_from(id@, 0) == melody_lookup_from(id@, k as int),
        decreases catalog.len() - k,
    {
        assert(melody_views(catalog@)[k as int] == catalog@[k as int]@);
        if str_eq(catalog[k].id, id) {
            return Some(catalog[k]);
        }
        k = k + 1;
    }
    None
}

/// Whether two cards form Pure Fire: Fire and Water, levels totalling at least seven.
pub fn matches_pure_fire(submitted: &[crate::rules::matcher::SubmittedCardFacts]) -> (r: bool)
    ensures
        r == crate::rules::matcher::spec_custom(
            crate::rules::matcher::CustomMatcher::PureFire,
            submitted@,
        ),
{
    crate::rules::matcher::custom_matches(crate::rules::matcher::CustomMatcher::PureFire, submitted)
}

/// The printed rule text of a melody.
pub open spec fn spec_melody_rule_text(id: Seq<char>) -> Seq<char> {
    if id == RINGING_METAL@ {
        "金金；檢索自身牌組一張牌，展示並放到洗牌後牌組最上方"@
    } else if id == FALLING_WOOD@ {
        "木木；自身隊伍回復１５點生命"@
    } else if id == FLOWING_WATER@ {
        "水水；自身獲得一層流水狀態"@
    } else if id == WAR_FIRE@ {
        "火火；上家隊伍扣除１５點生命"@
    } else if id == SPLIT_EARTH@ {
        "土土；檢視下家手牌並選擇其下回合無效的一個陣法"@
    } else if id == PURE_FIRE@ {
        "火水且等級合計７以上；指定玩家的合格時效效果減少１回合或１層"@
    } else {
        "土木且等級合計７以上；下次自己回合開始選擇一種基礎曲調主效果"@
    }
}

fn rule_text(id: &str) -> (r: &'static str)
    ensures
        r@ == spec_melody_rule_text(id@),
{
    if str_eq(id, RINGING_METAL) {
        "金金；檢索自身牌組一張牌，展示並放到洗牌後牌組最上方"
    } else if str_eq(id, FALLING_WOOD) {
        "木木；自身隊伍回復１５點生命"
    } else if str_eq(id, FLOWING_WATER) {
        "水水；自身獲得一層流水狀態"
    } else if str_eq(id, WAR_FIRE) {
        "火火；上家隊伍扣除１５點生命"
    } else if str_eq(id, SPLIT_EARTH) {
        "土土；檢視下家手牌並選擇其下回合無效的一個陣法"
    } else if str_eq(id, PURE_FIRE) {
        "火水且等級合計７以上；指定玩家的合格時效效果減少１回合或１層"
    } else {
        "土木且等級合計７以上；下次自己回合開始選擇一種基礎曲調主效果"
    }
}

/// The formation of a melody: an active spell resolving the melody's main effect,
/// patterned by its custom rule or by two cards of its element.
pub open spec fn spec_melody_formation(m: MelodyView) -> SpecView {
    SpecView {
        formation: FormationDefView {
            id: m.id,
            name: m.name,
            rule_text: spec_melody_rule_text(m.id),
            category: FormationCategory::Spell,
            pattern: match m.custom_pattern {
                Some(p) => PatternView::Custom(p),
                None => PatternView::ExactElements(seq![m.element, m.element]),
            },
            effect_id: m.id,
            point_formula: PointFormula::Fixed(0),
        },
        effect: EffectDefView {
            id: m.id,
            plan: EffectPlanView::ActiveSpell {
                resolver_id: m.id,
                effect: FormationEffect::ResolveMelodyMainEffect,
            },
        },
    }
}

/// The views of the Echo formations, one per melody, in catalog order.
pub open spec fn echo_formation_table() -> Seq<SpecView> {
    melody_table().map_values(|m: MelodyView| spec_melody_formation(m))
}

/// The Echo module's formations, one per melody, in catalog order.
pub fn formation_specs() -> (r: Vec<BaseFormationSpec>)
    ensures
        r.len() == 7,
        forall|i: int| 0 <= i < 7 ==> (#[trigger] r@[i])@ == spec_melody_formation(melody_table()[i]),
        crate::rules::catalog::spec_views(r@) == echo_formation_table(),
{
    let catalog = melody_catalog();
    assert(melody_views(catalog@).len() == 7);
    let mut specs: Vec<BaseFormationSpec> = Vec::new();
    let mut k: usize = 0;
    while k < catalog.len()
        invariant
            k <= catalog.len(),
            catalog.len() == 7,
            melody_views(catalog@) == melody_table(),
            specs.len() == k,
            forall|i: int|
                0 <= i < k ==> (#[trigger] specs@[i])@ == spec_melody_formation(melody_table()[i]),
        decreases catalog.len() - k,
    {
        assert(melody_views(catalog@)[k as int] == catalog@[k as int]@);
        let m = &catalog[k];
        let pattern = match m.custom_pattern {
            Some(p) => FormationPattern::Custom(owned(p)),
            None => {
                let v = repeat_element(m.element, 2);
                assert(v@ =~= seq![m.element, m.element]);
                FormationPattern::ExactElements(v)
            },
        };
        specs.push(
            BaseFormationSpec {
                formation: FormationDef {
                    id: owned(m.id),
                    name: owned(m.name),
                    rule_text: owned(rule_text(m.id)),
                    category: FormationCategory::Spell,
                    pattern,
                    effect_id: owned(m.id),
                    point_formula: PointFormula::Fixed(0),
                },
                effect: EffectDef {
                    id: owned(m.id),
                    plan: EffectPlan::ActiveSpell(
                        SpellPlanDef {
                            resolver_id: owned(m.id),
                            player_facing_effect: FormationEffect::ResolveMelodyMainEffect,
                        },
                    ),
                },
            },
        );
        k = k + 1;
    }
    assert(crate::rules::catalog::spec_views(specs@) =~= echo_formation_table());
    specs
}

} // verus!
