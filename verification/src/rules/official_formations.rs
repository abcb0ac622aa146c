//! The formations of an official game: the base formations, then each enabled
//! module's formations in the order the modules were enabled.
//!
//! The formation tables of the star, spirit, tribulation and pouch modules are not part
//! of this library, so those modules, though they can be enabled, add no formation
//! group here; the groups of the other modules are complete.
use crate::domain::{
    CONFLUENCE_GENERATION_MODULE_ID, DARK_GLIMMER_MODULE_ID, ECHO_MODULE_ID, Element, FIVE_DIRECTIONS_LEGEND_MODULE_ID,
    HERO_SCHOOLS_MODULE_ID, JIANGHU_MODULE_ID, RuleModuleId, str_eq,
};
use crate::rules::catalog::{
    base_spec_table, base_specs, five_directions_legend_specs, five_directions_table, spec_views,
    split_specs,
};
use crate::rules::dark::{
    DARK_BARRIER, DARK_CHAOS, DARK_RADIANCE, DARK_RETURN_TO_ORIGIN, DARK_SHOCK_BURST,
    dark_formation_table,
};
use crate::rules::echo::echo_formation_table;
use crate::rules::hero::hero_formation_table;
use crate::rules::official::module_ids;
use crate::rules::registry::{
    BaseFormationSpec, FormationRegistry, RegistryError, SpecView, effect_listed,
    lemma_registry_error_none_iff,
};
use vstd::prelude::*;

verus! {

/// The formations a rule module adds, when it adds any. The star, spirit, tribulation
/// and pouch tables are not defined in this library, so those modules add none.
pub open spec fn module_formation_table(id: Seq<char>) -> Option<Seq<SpecView>> {
    if id == FIVE_DIRECTIONS_LEGEND_MODULE_ID@ {
        Some(five_directions_table())
    } else if id == HERO_SCHOOLS_MODULE_ID@ {
        Some(hero_formation_table())
    } else if id == JIANGHU_MODULE_ID@ {
        Some(crate::rules::jianghu::jianghu_formation_table())
    } else if id == CONFLUENCE_GENERATION_MODULE_ID@ {
        Some(crate::rules::confluence::confluence_formation_table())
    } else if id == DARK_GLIMMER_MODULE_ID@ {
        Some(dark_formation_table())
    } else if id == ECHO_MODULE_ID@ {
        Some(echo_formation_table())
    } else {
        None
    }
}

/// A group of formations: the module that adds it (none for the base formations) and
/// its formations.
pub type GroupView = (Option<Seq<char>>, Seq<SpecView>);

/// The groups of an official game: the base formations, then the formations of each
/// enabled module that adds any, in the order the modules were enabled.
pub open spec fn spec_groups(mods: Seq<Seq<char>>) -> Seq<GroupView> {
    seq![(None::<Seq<char>>, base_spec_table())] + mods.filter_map(
        |m: Seq<char>|
            match module_formation_table(m) {
                Some(t) => Some((Some(m), t)),
                None => None,
            },
    )
}

/// The view of an optional module.
pub open spec fn opt_module(m: Option<RuleModuleId>) -> Option<Seq<char>> {
    match m {
        Some(x) => Some(x@),
        None => None,
    }
}

/// The views of groups of specs.
pub open spec fn group_views(s: Seq<(Option<RuleModuleId>, Vec<BaseFormationSpec>)>) -> Seq<
    GroupView,
> {
    s.map_values(
        |g: (Option<RuleModuleId>, Vec<BaseFormationSpec>)| (opt_module(g.0), spec_views(g.1@)),
    )
}

fn module_specs(id: &str) -> (r: Option<Vec<BaseFormationSpec>>)
    ensures
        match r {
            Some(v) => module_formation_table(id@) == Some(spec_views(v@)),
            None => module_formation_table(id@) is None,
        },
{
    if str_eq(id, FIVE_DIRECTIONS_LEGEND_MODULE_ID) {
        Some(five_directions_legend_specs())
    } else if str_eq(id, HERO_SCHOOLS_MODULE_ID) {
        Some(crate::rules::hero::formation_specs())
    } else if str_eq(id, JIANGHU_MODULE_ID) {
        Some(crate::rules::jianghu::formation_specs())
    } else if str_eq(id, CONFLUENCE_GENERATION_MODULE_ID) {
        Some(crate::rules::confluence::formation_specs())
    } else if str_eq(id, DARK_GLIMMER_MODULE_ID) {
        Some(crate::rules::dark::formation_specs())
    } else if str_eq(id, ECHO_MODULE_ID) {
        Some(crate::rules::echo::formation_specs())
    } else {
        None
    }
}

/// The formation groups of an official game with the given modules.
pub fn official_formation_spec_groups(modules: &Vec<RuleModuleId>) -> (r: Vec<
    (Option<RuleModuleId>, Vec<BaseFormationSpec>),
>)
    ensures
        group_views(r@) == spec_groups(module_ids(modules@)),
{
    let ghost mods = module_ids(modules@);
    let ghost f = |m: Seq<char>|
        match module_formation_table(m) {
            Some(t) => Some((Some(m), t)),
            None => None,
        };
    let mut groups: Vec<(Option<RuleModuleId>, Vec<BaseFormationSpec>)> = Vec::new();
    groups.push((None, base_specs()));
    let mut i: usize = 0;
    while i < modules.len()
        invariant
            i <= modules.len(),
            mods == module_ids(modules@),
            f == (|m: Seq<char>|
                match module_formation_table(m) {
                    Some(t) => Some((Some(m), t)),
                    None => None,
                }),
            group_views(groups@) == seq![(None::<Seq<char>>, base_spec_table())]
                + mods.take(i as int).filter_map(f),
        decreases modules.len() - i,
    {
        proof {
            mods.lemma_filter_map_take_succ(f, i as int);
        }
        assert(mods[i as int] == modules@[i as int]@);
        let ghost before = group_views(groups@);
        match module_specs(modules[i].as_str()) {
            Some(specs) => {
                let m = modules[i].clone();
                let ghost sv = spec_views(specs@);
                groups.push((Some(m), specs));
                assert(group_views(groups@) =~= before.push((Some(mods[i as int]), sv)));
            },
            None => {
                assert(f(mods[i as int]) is None);
            },
        }
        assert(group_views(groups@) =~= seq![(None::<Seq<char>>, base_spec_table())] + mods.take(
            i as int + 1,
        ).filter_map(f));
        i = i + 1;
    }
    assert(mods.take(mods.len() as int) =~= mods);
    groups
}

/// A formation as the groups of an official game list it.
#[derive(Debug, PartialEq, Eq)]
pub struct OfficialFormationSummary {
    pub id: String,
    pub name: String,
}

/// A group of formations of an official game.
#[derive(Debug, PartialEq, Eq)]
pub struct OfficialFormationGroup {
    pub rule_module_id: Option<RuleModuleId>,
    pub formations: Vec<OfficialFormationSummary>,
}

/// The identity and name of each formation of a group.
pub open spec fn summary_table(t: Seq<SpecView>) -> Seq<(Seq<char>, Seq<char>)> {
    t.map_values(|s: SpecView| (s.formation.id, s.formation.name))
}

/// The views of formation summaries.
pub open spec fn summary_views(s: Seq<OfficialFormationSummary>) -> Seq<(Seq<char>, Seq<char>)> {
    s.map_values(|x: OfficialFormationSummary| (x.id@, x.name@))
}

/// The groups of an official game with the given modules, each formation by identity and
/// name.
pub fn official_formation_groups(modules: &Vec<RuleModuleId>) -> (r: Vec<OfficialFormationGroup>)
    ensures
        r@.len() == spec_groups(module_ids(modules@)).len(),
        forall|g: int|
            0 <= g < r@.len() ==> {
                &&& opt_module((#[trigger] r@[g]).rule_module_id) == spec_groups(
                    module_ids(modules@),
                )[g].0
                &&& summary_views(r@[g].formations@) == summary_table(
                    spec_groups(module_ids(modules@))[g].1,
                )
            },
{
    let groups = official_formation_spec_groups(modules);
    let ghost expected = spec_groups(module_ids(modules@));
    let mut r: Vec<OfficialFormationGroup> = Vec::new();
    let mut g: usize = 0;
    while g < groups.len()
        invariant
            g <= groups.len(),
            group_views(groups@) == expected,
            expected == spec_groups(module_ids(modules@)),
            r@.len() == g,
            forall|h: int|
                0 <= h < g ==> {
                    &&& opt_module((#[trigger] r@[h]).rule_module_id) == expected[h].0
                    &&& summary_views(r@[h].formations@) == summary_table(expected[h].1)
                },
        decreases groups.len() - g,
    {
        assert(group_views(groups@)[g as int] == (
            opt_module(groups@[g as int].0),
            spec_views(groups@[g as int].1@),
        ));
        let specs = &groups[g].1;
        let mut formations: Vec<OfficialFormationSummary> = Vec::new();
        let mut k: usize = 0;
        while k < specs.len()
            invariant
                k <= specs.len(),
                formations@.len() == k,
                forall|j: int|
                    0 <= j < k ==> (#[trigger] formations@[j]).id@ == specs@[j].formation.id@
                        && formations@[j].name@ == specs@[j].formation.name@,
            decreases specs.len() - k,
        {
            formations.push(
                OfficialFormationSummary {
                    id: specs[k].formation.id.clone(),
                    name: specs[k].formation.name.clone(),
                },
            );
            k = k + 1;
        }
        proof {
            assert forall|j: int| 0 <= j < k implies spec_views(specs@)[j] == specs@[j]@ by {}
            assert(summary_views(formations@) =~= summary_table(spec_views(specs@)));
        }
        let module = match &groups[g].0 {
            Some(m) => Some(m.clone()),
            None => None,
        };
        r.push(OfficialFormationGroup { rule_module_id: module, formations });
        g = g + 1;
    }
    r
}

/// The specs of groups, one group after another.
pub open spec fn flat_specs(groups: Seq<GroupView>) -> Seq<SpecView>
    decreases groups.len(),
{
    if groups.len() == 0 {
        seq![]
    } else {
        flat_specs(groups.drop_last()) + groups.last().1
    }
}

/// The formation registry of an official game with the given modules: the formations of
/// its groups, one group after another. It is built exactly when that table registers
/// consistently, as the table of the default modules does.
pub fn official_formation_registry(modules: &Vec<RuleModuleId>) -> (r: Result<
    FormationRegistry,
    RegistryError,
>)
    ensures
        r is Err <==> !table_consistent(flat_specs(spec_groups(module_ids(modules@)))),
        module_ids(modules@) == crate::rules::official::default_module_ids(
            crate::domain::RuleVersion::Current,
        ) ==> r is Ok,
        r matches Ok(reg) ==> reg.wf() && reg.formation_seq().len() == flat_specs(
            spec_groups(module_ids(modules@)),
        ).len() && (forall|i: int|
            0 <= i < reg.formation_seq().len() ==> (#[trigger] reg.formation_seq()[i])@
                == flat_specs(spec_groups(module_ids(modules@)))[i].formation) && (forall|i: int|
            0 <= i < reg.effect_seq().len() ==> (#[trigger] reg.effect_seq()[i])@ == flat_specs(
                spec_groups(module_ids(modules@)),
            )[i].effect),
{
    let groups = official_formation_spec_groups(modules);
    let ghost gv = group_views(groups@);
    let mut all: Vec<BaseFormationSpec> = Vec::new();
    let mut g: usize = 0;
    while g < groups.len()
        invariant
            g <= groups.len(),
            gv == group_views(groups@),
            spec_views(all@) == flat_specs(gv.take(g as int)),
        decreases groups.len() - g,
    {
        assert(gv.take(g as int + 1).drop_last() =~= gv.take(g as int));
        assert(gv[g as int].1 == spec_views(groups@[g as int].1@));
        let specs = &groups[g].1;
        let ghost before = spec_views(all@);
        let mut k: usize = 0;
        while k < specs.len()
            invariant
                k <= specs.len(),
                spec_views(all@) == before + spec_views(specs@).take(k as int),
            decreases specs.len() - k,
        {
            assert(spec_views(specs@)[k as int] == specs@[k as int]@);
            let ghost prior = all@;
            all.push(specs[k].clone());
            assert(spec_views(all@) =~= spec_views(prior).push(specs@[k as int]@));
            assert(spec_views(all@) =~= before + spec_views(specs@).take(k as int + 1));
            k = k + 1;
        }
        assert(spec_views(specs@).take(specs.len() as int) =~= spec_views(specs@));
        g = g + 1;
    }
    assert(gv.take(gv.len() as int) =~= gv);
    let ghost flat = flat_specs(gv);
    let (formations, effects) = split_specs(all);
    proof {
        assert forall|i: int| 0 <= i < flat.len() implies (#[trigger] formations@[i])@ == flat[i].formation by {
            assert(spec_views(all@)[i] == all@[i]@);
        }
        assert forall|i: int| 0 <= i < flat.len() implies (#[trigger] effects@[i])@ == flat[i].effect by {
            assert(spec_views(all@)[i] == all@[i]@);
        }
        lemma_registry_error_none_iff(formations@, effects@);
        lemma_consistency_of_views(formations@, effects@, flat);
        crate::rules::default_formations::lemma_default_table_consistent();
    }
    FormationRegistry::new(formations, effects)
}

/// Under the Five Directions Legend, an environment element makes the formations it
/// overcomes ineffective: Metal the defenses, Wood the transformations, Water the
/// shocks, Fire the weapons and Earth the seals, dark counterparts included.
pub open spec fn spec_environment_makes_ineffective(
    five_directions: bool,
    environment: Option<Element>,
    id: Seq<char>,
) -> bool {
    five_directions && match environment {
        Some(Element::Metal) => id == "defense"@ || id == "barrier"@ || id == DARK_BARRIER@,
        Some(Element::Wood) => id == "metamorphosis"@ || id == "chaos"@ || id == DARK_CHAOS@,
        Some(Element::Water) => id == "countershock"@ || id == "shock-burst"@ || id
            == DARK_SHOCK_BURST@,
        Some(Element::Fire) => id == "weapon"@ || id == "radiance"@ || id == DARK_RADIANCE@,
        Some(Element::Earth) => id == "seal"@ || id == "return-to-origin"@ || id
            == DARK_RETURN_TO_ORIGIN@,
        None => false,
    }
}

/// Whether the environment makes the formation ineffective, given whether the Five
/// Directions Legend is enabled and the current environment.
pub fn environment_makes_formation_ineffective(
    five_directions: bool,
    environment: Option<Element>,
    id: &str,
) -> (r: bool)
    ensures
        r == spec_environment_makes_ineffective(five_directions, environment, id@),
{
    if !five_directions {
        return false;
    }
    match environment {
        Some(Element::Metal) => str_eq(id, "defense") || str_eq(id, "barrier") || str_eq(
            id,
            DARK_BARRIER,
        ),
        Some(Element::Wood) => str_eq(id, "metamorphosis") || str_eq(id, "chaos") || str_eq(
            id,
            DARK_CHAOS,
        ),
        Some(Element::Water) => str_eq(id, "countershock") || str_eq(id, "shock-burst") || str_eq(
            id,
            DARK_SHOCK_BURST,
        ),
        Some(Element::Fire) => str_eq(id, "weapon") || str_eq(id, "radiance") || str_eq(
            id,
            DARK_RADIANCE,
        ),
        Some(Element::Earth) => str_eq(id, "seal") || str_eq(id, "return-to-origin") || str_eq(
            id,
            DARK_RETURN_TO_ORIGIN,
        ),
        None => false,
    }
}


/// No two formations of the table share an identity.
pub open spec fn table_ids_distinct(t: Seq<SpecView>) -> bool {
    forall|i: int, j: int|
        0 <= i < j < t.len() ==> (#[trigger] t[i].formation).id != (#[trigger] t[j].formation).id
}

/// Some effect of the table has the identity `id`.
pub open spec fn table_has_effect(t: Seq<SpecView>, id: Seq<char>) -> bool {
    exists|k: int| 0 <= k < t.len() && #[trigger] t[k].effect.id == id
}

/// Every formation's effect is among the table's effects.
pub open spec fn table_effects_listed(t: Seq<SpecView>) -> bool {
    forall|i: int| 0 <= i < t.len() ==> table_has_effect(t, #[trigger] t[i].formation.effect_id)
}

/// A table of formations registers consistently: no identity appears twice, and every
/// formation's effect is among the table's effects.
pub open spec fn table_consistent(t: Seq<SpecView>) -> bool {
    table_ids_distinct(t) && table_effects_listed(t)
}

pub(crate) proof fn lemma_consistency_of_views(
    formations: Seq<crate::rules::registry::FormationDef>,
    effects: Seq<crate::rules::registry::EffectDef>,
    t: Seq<SpecView>,
)
    requires
        formations.len() == t.len(),
        effects.len() == t.len(),
        forall|i: int| 0 <= i < t.len() ==> (#[trigger] formations[i])@ == t[i].formation,
        forall|i: int| 0 <= i < t.len() ==> (#[trigger] effects[i])@ == t[i].effect,
    ensures
        ((forall|i: int|
            0 <= i < formations.len() ==> effect_listed(effects, #[trigger] formations[i].effect_id@))
            && (forall|i: int, j: int|
            0 <= i < j < formations.len() ==> formations[i].id@ != formations[j].id@))
            <==> table_consistent(t),
{
    assert forall|i: int| 0 <= i < t.len() implies #[trigger] formations[i].id@ == t[i].formation.id
        && formations[i].effect_id@ == t[i].formation.effect_id by {
        assert(formations[i]@ == t[i].formation);
    }
    assert forall|k: int| 0 <= k < t.len() implies #[trigger] effects[k].id@ == t[k].effect.id by {
        assert(effects[k]@ == t[k].effect);
    }
    let dist_f = forall|i: int, j: int|
        0 <= i < j < formations.len() ==> formations[i].id@ != formations[j].id@;
    if dist_f {
        assert forall|i: int, j: int| 0 <= i < j < t.len() implies (#[trigger] t[i].formation).id
            != (#[trigger] t[j].formation).id by {
            assert(formations[i].id@ == t[i].formation.id);
            assert(formations[j].id@ == t[j].formation.id);
        }
        assert(table_ids_distinct(t));
    }
    if table_ids_distinct(t) {
        assert forall|i: int, j: int| 0 <= i < j < formations.len() implies formations[i].id@
            != formations[j].id@ by {
            assert(formations[i].id@ == t[i].formation.id);
            assert(formations[j].id@ == t[j].formation.id);
        }
    }
    let listed_f = forall|i: int|
        0 <= i < formations.len() ==> effect_listed(effects, #[trigger] formations[i].effect_id@);
    if table_effects_listed(t) {
        assert forall|i: int| 0 <= i < formations.len() implies effect_listed(
            effects,
            #[trigger] formations[i].effect_id@,
        ) by {
            assert(t[i].formation.effect_id == formations[i].effect_id@);
            let k = choose|k: int| 0 <= k < t.len() && #[trigger] t[k].effect.id == t[i].formation.effect_id;
            assert(effects[k].id@ == formations[i].effect_id@);
        }
    }
    if listed_f {
        assert forall|i: int| 0 <= i < t.len() implies table_has_effect(
            t,
            #[trigger] t[i].formation.effect_id,
        ) by {
            assert(effect_listed(effects, formations[i].effect_id@));
            let k = choose|k: int| 0 <= k < effects.len() && #[trigger] effects[k].id@ == formations[i].effect_id@;
            assert(t[k].effect.id == t[i].formation.effect_id);
        }
        assert(table_effects_listed(t));
    }
}


/// Where a group's formations start among the flattened specs.
pub open spec fn group_offset(groups: Seq<GroupView>, g: int) -> int {
    flat_specs(groups.take(g)).len() as int
}

/// The position among the flattened specs of the `k`-th formation of group `g`.
pub open spec fn group_position(groups: Seq<GroupView>, g: int, k: int) -> int {
    group_offset(groups, g) + k
}

/// The `k`-th formation of group `g` stands among the flattened specs at its position.
pub open spec fn placed_at(groups: Seq<GroupView>, g: int, k: int) -> bool {
    &&& 0 <= group_position(groups, g, k) < flat_specs(groups).len()
    &&& flat_specs(groups)[group_position(groups, g, k)] == groups[g].1[k]
}

/// The `i`-th of the flattened specs is the formation at some position of some group.
pub open spec fn from_some_group(groups: Seq<GroupView>, i: int) -> bool {
    exists|g: int, k: int|
        0 <= g < groups.len() && 0 <= k < groups[g].1.len() && #[trigger] group_position(groups, g, k)
            == i && placed_at(groups, g, k)
}

/// Every formation of every group is placed, and every entry comes from a group.
pub open spec fn groups_flatten(groups: Seq<GroupView>) -> bool {
    &&& forall|g: int, k: int|
        0 <= g < groups.len() && 0 <= k < groups[g].1.len() ==> #[trigger] placed_at(groups, g, k)
    &&& forall|i: int| 0 <= i < flat_specs(groups).len() ==> #[trigger] from_some_group(groups, i)
}

proof fn lemma_flat_specs_positions(groups: Seq<GroupView>)
    ensures
        groups_flatten(groups),
    decreases groups.len(),
{
    if groups.len() > 0 {
        let init = groups.drop_last();
        let n = groups.len() - 1;
        lemma_flat_specs_positions(init);
        assert(groups.take(n) =~= init);
        assert(flat_specs(groups) == flat_specs(init) + groups[n].1);
        assert forall|g: int, k: int|
            0 <= g < groups.len() && 0 <= k < groups[g].1.len() implies #[trigger] placed_at(groups, g, k) by {
            if g < n {
                assert(groups.take(g) =~= init.take(g));
                assert(init[g] == groups[g]);
                assert(placed_at(init, g, k));
                assert(group_position(groups, g, k) == group_position(init, g, k));
            } else {
                assert(group_offset(groups, g) == flat_specs(init).len());
            }
        }
        assert forall|i: int| 0 <= i < flat_specs(groups).len() implies #[trigger] from_some_group(
            groups,
            i,
        ) by {
            if i < flat_specs(init).len() {
                assert(from_some_group(init, i));
                let (g, k) = choose|g: int, k: int|
                    0 <= g < init.len() && 0 <= k < init[g].1.len() && #[trigger] group_position(init, g, k)
                        == i && placed_at(init, g, k);
                assert(groups.take(g) =~= init.take(g));
                assert(init[g] == groups[g]);
                assert(group_position(groups, g, k) == i);
                assert(placed_at(groups, g, k));
            } else {
                let k = i - flat_specs(init).len();
                assert(group_offset(groups, n) == flat_specs(init).len());
                assert(group_position(groups, n, k) == i);
                assert(placed_at(groups, n, k));
            }
        }
    } else {
        assert(flat_specs(groups).len() == 0);
    }
}

/// The formation groups partition the registry's table: each formation of each group
/// stands in the flattened table at its group's offset, each entry of the table is the
/// formation at some position of some group, and, where the table registers (the
/// registry of `official_formation_registry` is built from it exactly then), no identity
/// occurs twice.
pub proof fn lemma_groups_partition_registry(mods: Seq<Seq<char>>)
    ensures
        groups_flatten(spec_groups(mods)),
        table_consistent(flat_specs(spec_groups(mods))) ==> forall|i: int, j: int|
            0 <= i < j < flat_specs(spec_groups(mods)).len() ==> (#[trigger] flat_specs(
                spec_groups(mods),
            )[i]).formation.id != (#[trigger] flat_specs(spec_groups(mods))[j]).formation.id,
{
    lemma_flat_specs_positions(spec_groups(mods));
    let t = flat_specs(spec_groups(mods));
    if table_consistent(t) {
        assert forall|i: int, j: int| 0 <= i < j < t.len() implies (#[trigger] t[i]).formation.id
            != (#[trigger] t[j]).formation.id by {
            assert(table_ids_distinct(t));
            assert((#[trigger] t[i].formation).id != (#[trigger] t[j].formation).id);
        }
    }
}

} // verus!
