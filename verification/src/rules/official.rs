//! The official rules: the catalog of official rule modules, the validation of
//! a requested module set, and the configuration of an official game.
use crate::domain::{
    BASE_RULESET_ID, CONFLUENCE_GENERATION_MODULE_ID, DARK_GLIMMER_MODULE_ID,
    DISCARD_RETRIEVAL_MODULE_ID, ECHO_MODULE_ID, FIVE_DIRECTIONS_LEGEND_MODULE_ID, GameError,
    HERO_SCHOOLS_MODULE_ID, JIANGHU_MODULE_ID, PERSONAL_DECK_MODULE_ID, POUCH_MODULE_ID,
    RuleModuleId, RuleVersion, RulesetId, SPIRIT_MODULE_ID, STAR_MODULE_ID,
    TOTEM_FORMATION_MODULE_ID, TRIBULATION_MODULE_ID, ValidationError, module_enabled,
    modules_contain, str_eq,
};
use crate::domain::{CardInstanceId, EngineInvariantError, GameSetup, Player, PlayerDeckList, PlayerId};
use crate::rules::base::{
    DeckOrderVerdict, StartEvent, deck_order_scan, spec_initial_events, start_event_views,
    deck_views, hp_views, is_official_definitions, is_personal_supply, is_shared_supply,
    personal_decks, sorted_ids, instance_ids, team_hp_table, label_views, spec_card_labels,
};
use crate::rules::official_formations::{flat_specs, spec_groups, table_consistent};
use crate::rules::registry::{ids_sorted, FormationDef};
use crate::rules::deck_composition::{DeckComposition, DeckCompositionCatalog, ResolvedPersonalDeck};
use vstd::prelude::*;

verus! {

/// How an official rule module is offered.
#[derive(Clone, Copy, Debug, PartialEq, Eq, Structural)]
pub enum OfficialRuleModuleCategory {
    Advanced,
    Optional,
    Theme,
}

/// An official rule module as the catalog presents it.
#[derive(Debug, PartialEq, Eq)]
pub struct OfficialRuleModuleSpec {
    pub id: RuleModuleId,
    pub category: OfficialRuleModuleCategory,
    pub default_enabled: bool,
    pub dependencies: Vec<RuleModuleId>,
}

/// The abstract content of an official rule module.
pub struct ModuleRow {
    pub id: Seq<char>,
    pub category: OfficialRuleModuleCategory,
    pub default_enabled: bool,
    pub dependencies: Seq<Seq<char>>,
}

/// The identities of a list of rule modules.
pub open spec fn module_ids(s: Seq<RuleModuleId>) -> Seq<Seq<char>> {
    s.map_values(|m: RuleModuleId| m@)
}

impl View for OfficialRuleModuleSpec {
    type V = ModuleRow;

    open spec fn view(&self) -> ModuleRow {
        ModuleRow {
            id: self.id@,
            category: self.category,
            default_enabled: self.default_enabled,
            dependencies: module_ids(self.dependencies@),
        }
    }
}

/// The three advanced modules that every theme module builds on.
pub open spec fn advanced_ids() -> Seq<Seq<char>> {
    seq![STAR_MODULE_ID@, FIVE_DIRECTIONS_LEGEND_MODULE_ID@, HERO_SCHOOLS_MODULE_ID@]
}

/// A row of the official module table.
pub open spec fn row(
    id: Seq<char>,
    category: OfficialRuleModuleCategory,
    dependencies: Seq<Seq<char>>,
) -> ModuleRow {
    ModuleRow { id, category, default_enabled: true, dependencies }
}

/// The official rule modules, in catalog order.
pub open spec fn official_module_table() -> Seq<ModuleRow> {
    seq![
        row(TOTEM_FORMATION_MODULE_ID@, OfficialRuleModuleCategory::Theme, advanced_ids()),
        row(DISCARD_RETRIEVAL_MODULE_ID@, OfficialRuleModuleCategory::Optional, seq![]),
        row(PERSONAL_DECK_MODULE_ID@, OfficialRuleModuleCategory::Optional, seq![]),
        row(FIVE_DIRECTIONS_LEGEND_MODULE_ID@, OfficialRuleModuleCategory::Advanced, seq![]),
        row(STAR_MODULE_ID@, OfficialRuleModuleCategory::Advanced, seq![]),
        row(HERO_SCHOOLS_MODULE_ID@, OfficialRuleModuleCategory::Advanced, seq![]),
        row(SPIRIT_MODULE_ID@, OfficialRuleModuleCategory::Theme, advanced_ids()),
        row(JIANGHU_MODULE_ID@, OfficialRuleModuleCategory::Theme, advanced_ids()),
        row(CONFLUENCE_GENERATION_MODULE_ID@, OfficialRuleModuleCategory::Theme, advanced_ids()),
        row(DARK_GLIMMER_MODULE_ID@, OfficialRuleModuleCategory::Theme, seq![SPIRIT_MODULE_ID@]),
        row(ECHO_MODULE_ID@, OfficialRuleModuleCategory::Theme, advanced_ids()),
        row(TRIBULATION_MODULE_ID@, OfficialRuleModuleCategory::Theme, advanced_ids()),
        row(
            POUCH_MODULE_ID@,
            OfficialRuleModuleCategory::Theme,
            seq![PERSONAL_DECK_MODULE_ID@, SPIRIT_MODULE_ID@],
        ),
    ]
}

/// The first row of the table, from position `k` on, of the module `id`.
pub open spec fn module_index_from(id: Seq<char>, k: int) -> Option<int>
    decreases 13 - k,
{
    if k < 0 || k >= 13 {
        None
    } else if official_module_table()[k].id == id {
        Some(k)
    } else {
        module_index_from(id, k + 1)
    }
}

/// The row of the table of the module `id`.
pub open spec fn module_index(id: Seq<char>) -> Option<int> {
    module_index_from(id, 0)
}

/// Whether `id` is an official rule module.
pub open spec fn is_official_module(id: Seq<char>) -> bool {
    module_index(id) is Some
}

/// The modules the module `id` depends on (none for an unknown module).
pub open spec fn dependencies_of(id: Seq<char>) -> Seq<Seq<char>> {
    match module_index(id) {
        Some(k) => official_module_table()[k].dependencies,
        None => seq![],
    }
}

fn advanced() -> (r: Vec<&'static str>)
    ensures
        r@.map_values(|s: &'static str| s@) == advanced_ids(),
{
    let v = vec![STAR_MODULE_ID, FIVE_DIRECTIONS_LEGEND_MODULE_ID, HERO_SCHOOLS_MODULE_ID];
    assert(v@.map_values(|s: &'static str| s@) =~= advanced_ids());
    v
}

/// An official rule module as the table holds it.
struct RuleModuleRow {
    id: &'static str,
    category: OfficialRuleModuleCategory,
    default_enabled: bool,
    dependencies: Vec<&'static str>,
}

impl View for RuleModuleRow {
    type V = ModuleRow;

    closed spec fn view(&self) -> ModuleRow {
        ModuleRow {
            id: self.id@,
            category: self.category,
            default_enabled: self.default_enabled,
            dependencies: self.dependencies@.map_values(|s: &'static str| s@),
        }
    }
}

fn module_row(
    id: &'static str,
    category: OfficialRuleModuleCategory,
    dependencies: Vec<&'static str>,
) -> (r: RuleModuleRow)
    ensures
        r@ == row(id@, category, dependencies@.map_values(|s: &'static str| s@)),
{
    RuleModuleRow { id, category, default_enabled: true, dependencies }
}

fn no_dependencies() -> (r: Vec<&'static str>)
    ensures
        r@.map_values(|s: &'static str| s@) == Seq::<Seq<char>>::empty(),
{
    let v: Vec<&'static str> = Vec::new();
    assert(v@.map_values(|s: &'static str| s@) =~= Seq::<Seq<char>>::empty());
    v
}

fn official_rule_modules() -> (r: Vec<RuleModuleRow>)
    ensures
        r@.len() == 13,
        forall|k: int| 0 <= k < 13 ==> (#[trigger] r@[k])@ == official_module_table()[k],
{
    let dark = vec![SPIRIT_MODULE_ID];
    assert(dark@.map_values(|s: &'static str| s@) =~= seq![SPIRIT_MODULE_ID@]);
    let pouch = vec![PERSONAL_DECK_MODULE_ID, SPIRIT_MODULE_ID];
    assert(pouch@.map_values(|s: &'static str| s@) =~= seq![PERSONAL_DECK_MODULE_ID@, SPIRIT_MODULE_ID@]);
    let v = vec![
        module_row(TOTEM_FORMATION_MODULE_ID, OfficialRuleModuleCategory::Theme, advanced()),
        module_row(DISCARD_RETRIEVAL_MODULE_ID, OfficialRuleModuleCategory::Optional, no_dependencies()),
        module_row(PERSONAL_DECK_MODULE_ID, OfficialRuleModuleCategory::Optional, no_dependencies()),
        module_row(FIVE_DIRECTIONS_LEGEND_MODULE_ID, OfficialRuleModuleCategory::Advanced, no_dependencies()),
        module_row(STAR_MODULE_ID, OfficialRuleModuleCategory::Advanced, no_dependencies()),
        module_row(HERO_SCHOOLS_MODULE_ID, OfficialRuleModuleCategory::Advanced, no_dependencies()),
        module_row(SPIRIT_MODULE_ID, OfficialRuleModuleCategory::Theme, advanced()),
        module_row(JIANGHU_MODULE_ID, OfficialRuleModuleCategory::Theme, advanced()),
        module_row(CONFLUENCE_GENERATION_MODULE_ID, OfficialRuleModuleCategory::Theme, advanced()),
        module_row(DARK_GLIMMER_MODULE_ID, OfficialRuleModuleCategory::Theme, dark),
        module_row(ECHO_MODULE_ID, OfficialRuleModuleCategory::Theme, advanced()),
        module_row(TRIBULATION_MODULE_ID, OfficialRuleModuleCategory::Theme, advanced()),
        module_row(POUCH_MODULE_ID, OfficialRuleModuleCategory::Theme, pouch),
    ];
    v
}

/// The row of the module `id`, searching the table in order.
fn find_module(rows: &Vec<RuleModuleRow>, id: &str) -> (r: Option<usize>)
    requires
        rows@.len() == 13,
        forall|k: int| 0 <= k < 13 ==> (#[trigger] rows@[k])@ == official_module_table()[k],
    ensures
        match r {
            Some(k) => k < 13 && module_index(id@) == Some(k as int),
            None => module_index(id@) is None,
        },
{
    let mut k: usize = 0;
    while k < rows.len()
        invariant
            k <= 13,
            rows@.len() == 13,
            forall|j: int| 0 <= j < 13 ==> (#[trigger] rows@[j])@ == official_module_table()[j],
            module_index(id@) == module_index_from(id@, k as int),
        decreases 13 - k,
    {
        assert(rows@[k as int]@ == official_module_table()[k as int]);
        if str_eq(rows[k].id, id) {
            return Some(k);
        }
        k = k + 1;
    }
    None
}

/// The modules the current rule version allows: every official module.
pub open spec fn spec_allows_module(version: RuleVersion, id: Seq<char>) -> bool {
    match version {
        RuleVersion::Current => is_official_module(id),
    }
}

impl RuleVersion {
    /// Whether the rule version allows the module.
    pub fn allows_module(&self, module: &RuleModuleId) -> (r: bool)
        ensures
            r == spec_allows_module(*self, module@),
    {
        let rows = official_rule_modules();
        match self {
            RuleVersion::Current => find_module(&rows, module.as_str()).is_some(),
        }
    }
}

/// The default modules a version allows, in catalog order.
pub open spec fn default_module_ids(version: RuleVersion) -> Seq<Seq<char>> {
    official_module_table().filter_map(
        |m: ModuleRow|
            if m.default_enabled && spec_allows_module(version, m.id) {
                Some(m.id)
            } else {
                None
            },
    )
}

fn default_modules_for(version: RuleVersion) -> (r: Vec<RuleModuleId>)
    ensures
        module_ids(r@) == default_module_ids(version),
{
    let rows = official_rule_modules();
    let ghost table = official_module_table();
    let ghost f = |m: ModuleRow|
        if m.default_enabled && spec_allows_module(version, m.id) {
            Some(m.id)
        } else {
            None
        };
    let mut r: Vec<RuleModuleId> = Vec::new();
    let mut k: usize = 0;
    while k < rows.len()
        invariant
            k <= 13,
            rows@.len() == 13,
            forall|j: int| 0 <= j < 13 ==> (#[trigger] rows@[j])@ == official_module_table()[j],
            table == official_module_table(),
            f == (|m: ModuleRow|
                if m.default_enabled && spec_allows_module(version, m.id) {
                    Some(m.id)
                } else {
                    None
                }),
            module_ids(r@) == table.take(k as int).filter_map(f),
        decreases 13 - k,
    {
        proof {
            table.lemma_filter_map_take_succ(f, k as int);
        }
        assert(rows@[k as int]@ == table[k as int]);
        let id = RuleModuleId::new(rows[k].id);
        if rows[k].default_enabled && version.allows_module(&id) {
            r.push(id);
        }
        assert(module_ids(r@) =~= table.take(k as int + 1).filter_map(f));
        k = k + 1;
    }
    assert(table.take(13) =~= table);
    r
}

// ---------------------------------------------------------------------------
// Validation of a module set.
// ---------------------------------------------------------------------------

/// What the validation of a module set concludes, naming the offending position.
pub enum ModuleVerdict {
    Duplicate(int),
    Unknown(int),
    MissingDependencies(int),
    Accepted,
}

/// The module at `i` repeats an earlier one.
pub open spec fn repeats_module(mods: Seq<Seq<char>>, i: int) -> bool {
    exists|j: int| 0 <= j < i && mods[j] == mods[i]
}

/// The first module, from position `i` on, that repeats an earlier one or is unknown.
pub open spec fn identity_scan(mods: Seq<Seq<char>>, i: int) -> ModuleVerdict
    decreases mods.len() - i,
{
    if i < 0 || i >= mods.len() {
        ModuleVerdict::Accepted
    } else if repeats_module(mods, i) {
        ModuleVerdict::Duplicate(i)
    } else if !is_official_module(mods[i]) {
        ModuleVerdict::Unknown(i)
    } else {
        identity_scan(mods, i + 1)
    }
}

/// The dependencies among `deps` that `mods` lacks, in order.
pub open spec fn missing_from(deps: Seq<Seq<char>>, mods: Seq<Seq<char>>) -> Seq<Seq<char>>
    decreases deps.len(),
{
    if deps.len() == 0 {
        seq![]
    } else if mods.contains(deps.last()) {
        missing_from(deps.drop_last(), mods)
    } else {
        missing_from(deps.drop_last(), mods).push(deps.last())
    }
}

/// The first module, from position `i` on, whose dependencies are not all enabled.
pub open spec fn dependency_scan(mods: Seq<Seq<char>>, i: int) -> ModuleVerdict
    decreases mods.len() - i,
{
    if i < 0 || i >= mods.len() {
        ModuleVerdict::Accepted
    } else if missing_from(dependencies_of(mods[i]), mods).len() > 0 {
        ModuleVerdict::MissingDependencies(i)
    } else {
        dependency_scan(mods, i + 1)
    }
}

/// The verdict on a module set: every module once and official, then every module's
/// dependencies present.
pub open spec fn module_verdict(mods: Seq<Seq<char>>) -> ModuleVerdict {
    match identity_scan(mods, 0) {
        ModuleVerdict::Accepted => dependency_scan(mods, 0),
        v => v,
    }
}

/// The error reported for a refused module set.
pub open spec fn module_error(e: GameError, mods: Seq<Seq<char>>, v: ModuleVerdict) -> bool {
    match v {
        ModuleVerdict::Duplicate(i) => e matches GameError::Validation(
            ValidationError::DuplicateRuleModule(m),
        ) && m@ == mods[i],
        ModuleVerdict::Unknown(i) => e matches GameError::Validation(
            ValidationError::UnknownRuleModule(m),
        ) && m@ == mods[i],
        ModuleVerdict::MissingDependencies(i) => e matches GameError::Validation(
            ValidationError::MissingRuleModuleDependencies { module, required },
        ) && module@ == mods[i] && module_ids(required@) == missing_from(
            dependencies_of(mods[i]),
            mods,
        ),
        ModuleVerdict::Accepted => false,
    }
}

/// The outcome of validating a module set, against its verdict.
pub open spec fn validation_outcome(r: Result<(), GameError>, mods: Seq<Seq<char>>) -> bool {
    match r {
        Ok(_) => module_verdict(mods) is Accepted,
        Err(e) => module_error(e, mods, module_verdict(mods)),
    }
}

proof fn lemma_module_ids_contains(mods: Seq<RuleModuleId>, id: Seq<char>)
    ensures
        module_enabled(mods, id) == module_ids(mods).contains(id),
{
    if module_enabled(mods, id) {
        let i = choose|i: int| 0 <= i < mods.len() && mods[i]@ == id;
        assert(module_ids(mods)[i] == id);
    }
    if module_ids(mods).contains(id) {
        let i = choose|i: int| 0 <= i < module_ids(mods).len() && module_ids(mods)[i] == id;
        assert(mods[i]@ == id);
    }
}

/// The dependencies of `rows[k]` that the module set lacks.
fn missing_dependencies(row: &RuleModuleRow, modules: &Vec<RuleModuleId>) -> (r: Vec<RuleModuleId>)
    ensures
        module_ids(r@) == missing_from(row@.dependencies, module_ids(modules@)),
{
    let ghost deps = row@.dependencies;
    let ghost mods = module_ids(modules@);
    let mut r: Vec<RuleModuleId> = Vec::new();
    let mut j: usize = 0;
    while j < row.dependencies.len()
        invariant
            j <= row.dependencies.len(),
            deps == row@.dependencies,
            deps.len() == row.dependencies.len(),
            mods == module_ids(modules@),
            module_ids(r@) == missing_from(deps.take(j as int), mods),
        decreases row.dependencies.len() - j,
    {
        assert(deps.take(j as int + 1).drop_last() =~= deps.take(j as int));
        assert(deps.take(j as int + 1).last() == row.dependencies@[j as int]@);
        let present = modules_contain(modules, row.dependencies[j]);
        proof {
            lemma_module_ids_contains(modules@, row.dependencies@[j as int]@);
        }
        if !present {
            r.push(RuleModuleId::new(row.dependencies[j]));
        }
        assert(module_ids(r@) =~= missing_from(deps.take(j as int + 1), mods));
        j = j + 1;
    }
    assert(deps.take(deps.len() as int) =~= deps);
    r
}

proof fn lemma_identity_scan_official(mods: Seq<Seq<char>>, i: int, j: int)
    requires
        0 <= i <= j < mods.len(),
        identity_scan(mods, i) is Accepted,
    ensures
        is_official_module(mods[j]),
    decreases j - i,
{
    if i < j {
        lemma_identity_scan_official(mods, i + 1, j);
    }
}

/// Checks a module set: each module appears once and is official, and each module's
/// dependencies are enabled too.
#[verifier::loop_isolation(false)]
pub fn validate_modules(modules: &Vec<RuleModuleId>) -> (r: Result<(), GameError>)
    ensures
        validation_outcome(r, module_ids(modules@)),
{
    let ghost mods = module_ids(modules@);
    let rows = official_rule_modules();
    let mut i: usize = 0;
    while i < modules.len()
        invariant
            i <= modules.len(),
            mods == module_ids(modules@),
            identity_scan(mods, 0) == identity_scan(mods, i as int),
        decreases modules.len() - i,
    {
        let mut j: usize = 0;
        while j < i
            invariant
                j <= i < modules.len(),
                forall|k: int| 0 <= k < j ==> mods[k] != mods[i as int],
            decreases i - j,
        {
            if str_eq(modules[j].as_str(), modules[i].as_str()) {
                assert(mods[j as int] == mods[i as int]);
                assert(repeats_module(mods, i as int));
                return Err(
                    GameError::Validation(ValidationError::DuplicateRuleModule(modules[i].clone())),
                );
            }
            j = j + 1;
        }
        assert(!repeats_module(mods, i as int));
        if find_module(&rows, modules[i].as_str()).is_none() {
            return Err(GameError::Validation(ValidationError::UnknownRuleModule(modules[i].clone())));
        }
        i = i + 1;
    }
    let mut i: usize = 0;
    while i < modules.len()
        invariant
            i <= modules.len(),
            mods == module_ids(modules@),
            identity_scan(mods, 0) is Accepted,
            dependency_scan(mods, 0) == dependency_scan(mods, i as int),
        decreases modules.len() - i,
    {
        proof {
            lemma_identity_scan_official(mods, 0, i as int);
        }
        let k = match find_module(&rows, modules[i].as_str()) {
            Some(k) => k,
            None => {
                return Ok(());
            },
        };
        assert(rows@[k as int]@ == official_module_table()[k as int]);
        let required = missing_dependencies(&rows[k], modules);
        if required.len() > 0 {
            return Err(
                GameError::Validation(
                    ValidationError::MissingRuleModuleDependencies {
                        module: modules[i].clone(),
                        required,
                    },
                ),
            );
        }
        i = i + 1;
    }
    Ok(())
}


// ---------------------------------------------------------------------------
// The default module set.
// ---------------------------------------------------------------------------

/// The identities of the official modules, in catalog order.
pub open spec fn official_ids() -> Seq<Seq<char>> {
    official_module_table().map_values(|m: ModuleRow| m.id)
}

proof fn lemma_index_found(id: Seq<char>, j: int, k: int)
    requires
        0 <= j <= k < 13,
        official_module_table()[k].id == id,
    ensures
        module_index_from(id, j) is Some,
    decreases k - j,
{
    if j < k && official_module_table()[j].id != id {
        lemma_index_found(id, j + 1, k);
    }
}

proof fn lemma_index_first(id: Seq<char>, j: int, k: int)
    requires
        0 <= j <= k < 13,
        official_module_table()[k].id == id,
        forall|a: int, b: int| 0 <= a < b < 13 ==> official_module_table()[a].id != official_module_table()[b].id,
    ensures
        module_index_from(id, j) == Some(k),
    decreases k - j,
{
    if j < k {
        lemma_index_first(id, j + 1, k);
    }
}

proof fn lemma_official_ids_distinct()
    ensures
        forall|a: int, b: int|
            0 <= a < b < 13 ==> official_module_table()[a].id != official_module_table()[b].id,
{
    reveal_strlit("totem-formation");
    reveal_strlit("discard-retrieval");
    reveal_strlit("personal-deck");
    reveal_strlit("five-directions-legend");
    reveal_strlit("star");
    reveal_strlit("hero-schools");
    reveal_strlit("spirit");
    reveal_strlit("jianghu");
    reveal_strlit("confluence-generation");
    reveal_strlit("dark-glimmer");
    reveal_strlit("echo");
    reveal_strlit("tribulation");
    reveal_strlit("pouch");
    let t = official_module_table();
    assert forall|a: int, b: int| 0 <= a < b < 13 implies t[a].id != t[b].id by {
        if t[a].id == t[b].id {
            assert(t[a].id.len() == t[b].id.len());
            assert(t[a].id[0] == t[b].id[0]);
            assert(t[a].id[1] == t[b].id[1]);
            assert(t[a].id[2] == t[b].id[2]);
        }
    }
}

/// The default filter keeps every row.
proof fn lemma_default_prefix(k: int)
    requires
        0 <= k <= 13,
    ensures
        official_module_table().take(k).filter_map(
            |m: ModuleRow|
                if m.default_enabled && spec_allows_module(RuleVersion::Current, m.id) {
                    Some(m.id)
                } else {
                    None
                },
        ) == official_ids().take(k),
    decreases k,
{
    let table = official_module_table();
    let f = |m: ModuleRow|
        if m.default_enabled && spec_allows_module(RuleVersion::Current, m.id) {
            Some(m.id)
        } else {
            None
        };
    if k == 0 {
        assert(table.take(0) =~= Seq::<ModuleRow>::empty());
        assert(official_ids().take(0) =~= Seq::<Seq<char>>::empty());
    } else {
        lemma_default_prefix(k - 1);
        table.lemma_filter_map_take_succ(f, k - 1);
        lemma_index_found(table[k - 1].id, 0, k - 1);
        assert(official_ids().take(k) =~= official_ids().take(k - 1).push(table[k - 1].id));
    }
}

pub(crate) proof fn lemma_default_ids_are_official_ids()
    ensures
        default_module_ids(RuleVersion::Current) == official_ids(),
{
    lemma_default_prefix(13);
    assert(official_module_table().take(13) =~= official_module_table());
    assert(official_ids().take(13) =~= official_ids());
}

proof fn lemma_identity_scan_accepted(mods: Seq<Seq<char>>, i: int)
    requires
        0 <= i <= 13,
        mods == official_ids(),
        forall|a: int| 0 <= a < 13 ==> module_index(#[trigger] mods[a]) == Some(a),
        forall|a: int, b: int|
            0 <= a < b < 13 ==> official_module_table()[a].id != official_module_table()[b].id,
    ensures
        identity_scan(mods, i) is Accepted,
        first_disallowed(RuleVersion::Current, mods, i) is None,
    decreases 13 - i,
{
    if i < 13 {
        lemma_identity_scan_accepted(mods, i + 1);
        assert(!repeats_module(mods, i)) by {
            if repeats_module(mods, i) {
                let j = choose|j: int| 0 <= j < i && mods[j] == mods[i];
                assert(official_module_table()[j].id == official_module_table()[i].id);
            }
        }
        assert(module_index(mods[i]) == Some(i));
    }
}

proof fn lemma_dependency_scan_accepted(mods: Seq<Seq<char>>, i: int)
    requires
        0 <= i <= 13,
        mods == official_ids(),
        forall|a: int| 0 <= a < 13 ==> module_index(#[trigger] mods[a]) == Some(a),
    ensures
        dependency_scan(mods, i) is Accepted,
    decreases 13 - i,
{
    if i < 13 {
        lemma_dependency_scan_accepted(mods, i + 1);
        let table = official_module_table();
        assert(module_index(mods[i]) == Some(i));
        let deps = dependencies_of(mods[i]);
        assert(deps == table[i].dependencies);
        assert(mods.contains(STAR_MODULE_ID@)) by {
            assert(mods[4] == STAR_MODULE_ID@);
        }
        assert(mods.contains(FIVE_DIRECTIONS_LEGEND_MODULE_ID@)) by {
            assert(mods[3] == FIVE_DIRECTIONS_LEGEND_MODULE_ID@);
        }
        assert(mods.contains(HERO_SCHOOLS_MODULE_ID@)) by {
            assert(mods[5] == HERO_SCHOOLS_MODULE_ID@);
        }
        assert(mods.contains(SPIRIT_MODULE_ID@)) by {
            assert(mods[6] == SPIRIT_MODULE_ID@);
        }
        assert(mods.contains(PERSONAL_DECK_MODULE_ID@)) by {
            assert(mods[2] == PERSONAL_DECK_MODULE_ID@);
        }
        reveal_with_fuel(missing_from, 4);
        assert(missing_from(deps, mods).len() == 0);
    }
}

/// Some enabled module is, by the catalog, an advanced module.
pub open spec fn has_advanced_module(modules: Seq<RuleModuleId>) -> bool {
    exists|i: int, k: int|
        0 <= i < modules.len() && 0 <= k < official_module_table().len()
            && official_module_table()[k].category == OfficialRuleModuleCategory::Advanced
            && #[trigger] modules[i]@ == #[trigger] official_module_table()[k].id
}

/// A configured game's life totals: every team starts with 200 life in a two-player game
/// and 250 otherwise when any module the catalog counts as advanced is enabled (the Five
/// Directions Legend, Star or Hero Schools), and with 100 or 150 life when none is.
pub proof fn lemma_configured_life(
    s: GameSetup,
    version: RuleVersion,
    players: Seq<Player>,
    turn_order: Seq<PlayerId>,
    modules: Seq<RuleModuleId>,
    requested: Seq<PlayerDeckList>,
)
    requires
        is_configured_game(s, version, players, turn_order, modules, requested),
    ensures
        forall|k: int|
            0 <= k < s.hp@.len() ==> (#[trigger] s.hp@[k]).hp == if players.len() == 2 {
                if has_advanced_module(modules) {
                    200int
                } else {
                    100int
                }
            } else if has_advanced_module(modules) {
                250int
            } else {
                150int
            },
{
    reveal_strlit("totem-formation");
    reveal_strlit("discard-retrieval");
    reveal_strlit("personal-deck");
    reveal_strlit("five-directions-legend");
    reveal_strlit("star");
    reveal_strlit("hero-schools");
    reveal_strlit("spirit");
    reveal_strlit("jianghu");
    reveal_strlit("confluence-generation");
    reveal_strlit("dark-glimmer");
    reveal_strlit("echo");
    reveal_strlit("tribulation");
    reveal_strlit("pouch");
    let t = official_module_table();
    assert(t[3].id == FIVE_DIRECTIONS_LEGEND_MODULE_ID@ && t[3].category == OfficialRuleModuleCategory::Advanced);
    assert(t[4].id == STAR_MODULE_ID@ && t[4].category == OfficialRuleModuleCategory::Advanced);
    assert(t[5].id == HERO_SCHOOLS_MODULE_ID@ && t[5].category == OfficialRuleModuleCategory::Advanced);
    if has_advanced_module(modules) {
        let (i, k) = choose|i: int, k: int|
            0 <= i < modules.len() && 0 <= k < official_module_table().len()
                && official_module_table()[k].category == OfficialRuleModuleCategory::Advanced
                && #[trigger] modules[i]@ == #[trigger] official_module_table()[k].id;
        assert(k == 3 || k == 4 || k == 5) by {
            if k == 0 {} else if k == 1 {} else if k == 2 {} else if k == 6 {} else if k == 7 {
            } else if k == 8 {} else if k == 9 {} else if k == 10 {} else if k == 11 {} else if k
                == 12 {}
        }
        assert(uses_advanced_rules(modules));
    }
    if uses_advanced_rules(modules) {
        if module_enabled(modules, FIVE_DIRECTIONS_LEGEND_MODULE_ID@) {
            let i = choose|i: int| 0 <= i < modules.len() && modules[i]@ == FIVE_DIRECTIONS_LEGEND_MODULE_ID@;
            assert(modules[i]@ == t[3].id);
        } else if module_enabled(modules, STAR_MODULE_ID@) {
            let i = choose|i: int| 0 <= i < modules.len() && modules[i]@ == STAR_MODULE_ID@;
            assert(modules[i]@ == t[4].id);
        } else {
            let i = choose|i: int| 0 <= i < modules.len() && modules[i]@ == HERO_SCHOOLS_MODULE_ID@;
            assert(modules[i]@ == t[5].id);
        }
        assert(has_advanced_module(modules));
    }
    let life = official_hp(players.len() as int, uses_advanced_rules(modules));
    assert forall|k: int| 0 <= k < s.hp@.len() implies (#[trigger] s.hp@[k]).hp == life by {
        assert(hp_views(s.hp@).len() == s.hp@.len());
        assert(team_hp_table(players, life).len() == crate::rules::base::teams_of(players).len());
        assert(hp_views(s.hp@)[k] == (s.hp@[k].team@, s.hp@[k].hp as int));
        assert(team_hp_table(players, life)[k] == (crate::rules::base::teams_of(players)[k], life));
        assert(hp_views(s.hp@)[k] == team_hp_table(players, life)[k]);
    }
}

/// The whole module catalog, in catalog order, is the default module set and resolves
/// to itself: it is a valid module set under the current rule version, so resolving
/// the catalog's identities, or resolving with no candidate, gives the catalog.
pub proof fn lemma_catalog_resolves_to_itself()
    ensures
        default_module_ids(RuleVersion::Current) == official_ids(),
        module_verdict(official_ids()) is Accepted,
        version_verdict(RuleVersion::Current, official_ids()) is Accepted,
        forall|r: Result<Vec<RuleModuleId>, GameError>|
            resolve_outcome(r, official_ids(), module_verdict(official_ids())) ==> (r is Ok
                && module_ids(r->Ok_0@) == official_ids()),
{
    lemma_default_ids_are_official_ids();
    lemma_default_modules_accepted();
}

/// The outcome refuses the module as unknown.
pub open spec fn unknown_module_error(r: Result<Vec<RuleModuleId>, GameError>, id: Seq<char>) -> bool {
    r matches Err(GameError::Validation(ValidationError::UnknownRuleModule(m))) && m@ == id
}

/// Resolving modules under a rule version is the version check followed by ordinary
/// resolution: where some module is not allowed by the version, the first such module
/// is refused as unknown; otherwise the outcome is that of resolving the modules
/// without a version.
pub proof fn lemma_version_resolution_refines(
    version: RuleVersion,
    mods: Seq<Seq<char>>,
    r: Result<Vec<RuleModuleId>, GameError>,
)
    ensures
        first_disallowed(version, mods, 0) is None ==> (resolve_outcome(
            r,
            mods,
            version_verdict(version, mods),
        ) <==> resolve_outcome(r, mods, module_verdict(mods))),
        first_disallowed(version, mods, 0) matches Some(i) ==> (resolve_outcome(
            r,
            mods,
            version_verdict(version, mods),
        ) <==> unknown_module_error(r, mods[i])),
{
}

/// The default rule modules form a valid module set: each appears once, each is
/// official, and each one's dependencies are among them.
pub proof fn lemma_default_modules_accepted()
    ensures
        module_verdict(default_module_ids(RuleVersion::Current)) is Accepted,
        version_verdict(RuleVersion::Current, default_module_ids(RuleVersion::Current)) is Accepted,
{
    lemma_default_ids_are_official_ids();
    lemma_official_ids_distinct();
    let mods = official_ids();
    assert forall|i: int| 0 <= i < 13 implies module_index(#[trigger] mods[i]) == Some(i) by {
        lemma_index_first(mods[i], 0, i);
    }
    lemma_identity_scan_accepted(mods, 0);
    lemma_dependency_scan_accepted(mods, 0);
}

// ---------------------------------------------------------------------------
// The official rules.
// ---------------------------------------------------------------------------

/// The first module, from position `i` on, that the rule version does not allow.
pub open spec fn first_disallowed(version: RuleVersion, mods: Seq<Seq<char>>, i: int) -> Option<
    int,
>
    decreases mods.len() - i,
{
    if i < 0 || i >= mods.len() {
        None
    } else if !spec_allows_module(version, mods[i]) {
        Some(i)
    } else {
        first_disallowed(version, mods, i + 1)
    }
}

/// The verdict on a module set under a rule version: a module the version does not
/// allow is unknown; otherwise the module set's own verdict.
pub open spec fn version_verdict(version: RuleVersion, mods: Seq<Seq<char>>) -> ModuleVerdict {
    match first_disallowed(version, mods, 0) {
        Some(i) => ModuleVerdict::Unknown(i),
        None => module_verdict(mods),
    }
}

/// The modules a request resolves to: the candidate, or the version's defaults.
pub open spec fn chosen_modules(version: RuleVersion, candidate: Option<Vec<RuleModuleId>>) -> Seq<
    Seq<char>,
> {
    match candidate {
        Some(c) => module_ids(c@),
        None => default_module_ids(version),
    }
}

/// The outcome of resolving a module set, against its verdict.
pub open spec fn resolve_outcome(
    r: Result<Vec<RuleModuleId>, GameError>,
    mods: Seq<Seq<char>>,
    v: ModuleVerdict,
) -> bool {
    match r {
        Ok(m) => module_ids(m@) == mods && v is Accepted,
        Err(e) => module_error(e, mods, v),
    }
}

/// The error for a ruleset other than the base ruleset.
pub open spec fn ruleset_error(e: GameError, ruleset: Seq<char>) -> bool {
    e matches GameError::Validation(ValidationError::UnsupportedRuleset(x)) && x@ == ruleset
}

/// The outcome of validating a setup: its ruleset must be the base ruleset, and its
/// modules must resolve under its rule version.
pub open spec fn setup_outcome(r: Result<(), GameError>, setup: GameSetup) -> bool {
    if setup.ruleset@ != BASE_RULESET_ID@ {
        r matches Err(e) && ruleset_error(e, setup.ruleset@)
    } else {
        match r {
            Ok(_) => version_verdict(setup.rule_version, module_ids(setup.enabled_rule_modules@))
                is Accepted,
            Err(e) => module_error(
                e,
                module_ids(setup.enabled_rule_modules@),
                version_verdict(setup.rule_version, module_ids(setup.enabled_rule_modules@)),
            ),
        }
    }
}

fn clone_modules(modules: &Vec<RuleModuleId>) -> (r: Vec<RuleModuleId>)
    ensures
        r@ == modules@,
{
    let mut r: Vec<RuleModuleId> = Vec::new();
    let mut i: usize = 0;
    while i < modules.len()
        invariant
            i <= modules.len(),
            r@ == modules@.subrange(0, i as int),
        decreases modules.len() - i,
    {
        r.push(modules[i].clone());
        assert(r@ =~= modules@.subrange(0, i as int + 1));
        i = i + 1;
    }
    assert(modules@.subrange(0, modules.len() as int) =~= modules@);
    r
}

/// The setup is accepted: the base ruleset, and modules that resolve under its version.
pub open spec fn setup_accepted(setup: GameSetup) -> bool {
    setup.ruleset@ == BASE_RULESET_ID@ && version_verdict(
        setup.rule_version,
        module_ids(setup.enabled_rule_modules@),
    ) is Accepted
}

/// A module set enables one of the advanced modules.
pub open spec fn uses_advanced_rules(modules: Seq<RuleModuleId>) -> bool {
    module_enabled(modules, FIVE_DIRECTIONS_LEGEND_MODULE_ID@) || module_enabled(
        modules,
        STAR_MODULE_ID@,
    ) || module_enabled(modules, HERO_SCHOOLS_MODULE_ID@)
}

/// The official starting life total: one hundred per team in a two-player game and one
/// hundred fifty otherwise, doubled to two hundred and raised to two hundred fifty under
/// the advanced rules.
pub open spec fn official_hp(player_count: int, advanced: bool) -> int {
    if player_count == 2 {
        if advanced {
            200
        } else {
            100
        }
    } else if advanced {
        250
    } else {
        150
    }
}

/// The configured official game: the base ruleset under the rule version with the
/// modules, the players and turn order, every team at the official life total, the
/// official definitions, hands of five and draws of two; with personal decks, each
/// player's resolved deck and its cards, otherwise the shared supply.
pub open spec fn is_configured_game(
    s: GameSetup,
    version: RuleVersion,
    players: Seq<Player>,
    turn_order: Seq<PlayerId>,
    modules: Seq<RuleModuleId>,
    requested: Seq<PlayerDeckList>,
) -> bool {
    &&& s.ruleset@ == BASE_RULESET_ID@
    &&& s.rule_version == version
    &&& s.enabled_rule_modules@ == modules
    &&& s.players@ == players
    &&& s.turn_order@ == turn_order
    &&& hp_views(s.hp@) == team_hp_table(
        players,
        official_hp(players.len() as int, uses_advanced_rules(modules)),
    )
    &&& is_official_definitions(s.card_defs@)
    &&& s.hand_limit == 5
    &&& s.base_draw == 2
    &&& if module_enabled(modules, PERSONAL_DECK_MODULE_ID@) {
        &&& deck_views(s.deck_lists@) == personal_decks(players, requested)
        &&& is_personal_supply(s.card_instances@, personal_decks(players, requested))
    } else {
        &&& s.deck_lists@.len() == 0
        &&& is_shared_supply(s.card_instances@)
    }
}

/// The outcome of configuring a game, against the verdict on its modules.
pub open spec fn configure_outcome(
    r: Result<GameSetup, GameError>,
    version: RuleVersion,
    players: Seq<Player>,
    turn_order: Seq<PlayerId>,
    modules: Seq<RuleModuleId>,
    requested: Seq<PlayerDeckList>,
) -> bool {
    match r {
        Ok(s) => version_verdict(version, module_ids(modules)) is Accepted && is_configured_game(
            s,
            version,
            players,
            turn_order,
            modules,
            requested,
        ),
        Err(e) => module_error(e, module_ids(modules), version_verdict(version, module_ids(modules))),
    }
}

/// Requested deck lists fit the counters that check them.
pub open spec fn requests_fit(requested: Seq<PlayerDeckList>) -> bool {
    forall|k: int|
        0 <= k < requested.len() ==> crate::rules::deck_composition::deck_fits(
            #[trigger] requested[k]@,
        )
}

/// The list names the formation of the spec.
pub open spec fn names_listed(v: Seq<(String, String)>, s: crate::rules::registry::SpecView) -> bool {
    exists|i: int| 0 <= i < v.len() && #[trigger] v[i].0@ == s.formation.id && v[i].1@ == s.formation.name
}

/// Some formation of the official game with the modules has this identity and name.
pub open spec fn names_official_formation(modules: Seq<Seq<char>>, id: Seq<char>, name: Seq<char>) -> bool {
    exists|i: int|
        0 <= i < flat_specs(spec_groups(modules)).len() && #[trigger] flat_specs(
            spec_groups(modules),
        )[i].formation.id == id && flat_specs(spec_groups(modules))[i].formation.name == name
}

/// The official rules of CFECards: the base ruleset with the official rule modules.
#[derive(Clone, Copy, Debug, Default, PartialEq, Eq)]
pub struct OfficialRules;

impl OfficialRules {
    pub fn new() -> (r: Self)
        ensures
            r == OfficialRules,
    {
        OfficialRules
    }

    /// The modules enabled by default, in catalog order.
    pub fn default_rule_modules(&self) -> (r: Vec<RuleModuleId>)
        ensures
            module_ids(r@) == default_module_ids(RuleVersion::Current),
    {
        default_modules_for(RuleVersion::Current)
    }

    /// The catalog of official rule modules.
    pub fn rule_module_catalog(&self) -> (r: Vec<OfficialRuleModuleSpec>)
        ensures
            r@.len() == 13,
            forall|k: int| 0 <= k < 13 ==> (#[trigger] r@[k])@ == official_module_table()[k],
    {
        let rows = official_rule_modules();
        let mut r: Vec<OfficialRuleModuleSpec> = Vec::new();
        let mut k: usize = 0;
        while k < rows.len()
            invariant
                k <= 13,
                rows@.len() == 13,
                forall|j: int| 0 <= j < 13 ==> (#[trigger] rows@[j])@ == official_module_table()[j],
                r@.len() == k,
                forall|j: int| 0 <= j < k ==> (#[trigger] r@[j])@ == official_module_table()[j],
            decreases 13 - k,
        {
            assert(rows@[k as int]@ == official_module_table()[k as int]);
            let row = &rows[k];
            let mut dependencies: Vec<RuleModuleId> = Vec::new();
            let mut j: usize = 0;
            while j < row.dependencies.len()
                invariant
                    j <= row.dependencies.len(),
                    row@.dependencies.len() == row.dependencies.len(),
                    dependencies@.len() == j,
                    forall|t: int|
                        0 <= t < j ==> (#[trigger] dependencies@[t])@ == row@.dependencies[t],
                decreases row.dependencies.len() - j,
            {
                dependencies.push(RuleModuleId::new(row.dependencies[j]));
                j = j + 1;
            }
            let spec = OfficialRuleModuleSpec {
                id: RuleModuleId::new(row.id),
                category: row.category,
                default_enabled: row.default_enabled,
                dependencies,
            };
            assert(spec@.dependencies =~= row@.dependencies);
            r.push(spec);
            k = k + 1;
        }
        r
    }

    /// Checks the ruleset of a setup: only the base ruleset is implemented.
    pub fn validate_ruleset(&self, ruleset: &RulesetId) -> (r: Result<(), GameError>)
        ensures
            r is Ok <==> ruleset@ == BASE_RULESET_ID@,
            r matches Err(e) ==> ruleset_error(e, ruleset@),
    {
        if str_eq(ruleset.0.as_str(), BASE_RULESET_ID) {
            Ok(())
        } else {
            Err(GameError::Validation(ValidationError::UnsupportedRuleset(ruleset.clone())))
        }
    }

    /// Checks a module set: each module appears once and is official, and each module's
    /// dependencies are enabled too.
    pub fn validate_modules(&self, modules: &Vec<RuleModuleId>) -> (r: Result<(), GameError>)
        ensures
            validation_outcome(r, module_ids(modules@)),
    {
        validate_modules(modules)
    }

    /// The modules of a game: the candidate, or the default modules, once validated.
    pub fn resolve_rule_modules(&self, candidate: Option<Vec<RuleModuleId>>) -> (r: Result<
        Vec<RuleModuleId>,
        GameError,
    >)
        ensures
            resolve_outcome(
                r,
                chosen_modules(RuleVersion::Current, candidate),
                module_verdict(chosen_modules(RuleVersion::Current, candidate)),
            ),
            candidate is None ==> r is Ok,
    {
        proof {
            lemma_default_modules_accepted();
        }
        let modules = match candidate {
            Some(c) => c,
            None => self.default_rule_modules(),
        };
        match validate_modules(&modules) {
            Ok(()) => Ok(modules),
            Err(e) => Err(e),
        }
    }

    /// The modules of a game under a rule version: the candidate, or the version's default
    /// modules, once the version allows every module and the set is validated.
    #[verifier::loop_isolation(false)]
    pub fn resolve_version_modules(
        &self,
        version: RuleVersion,
        candidate: Option<Vec<RuleModuleId>>,
    ) -> (r: Result<Vec<RuleModuleId>, GameError>)
        ensures
            resolve_outcome(
                r,
                chosen_modules(version, candidate),
                version_verdict(version, chosen_modules(version, candidate)),
            ),
            candidate is None && version == RuleVersion::Current ==> r is Ok,
    {
        proof {
            lemma_default_modules_accepted();
        }
        let modules = match candidate {
            Some(c) => c,
            None => default_modules_for(version),
        };
        let ghost mods = module_ids(modules@);
        let mut i: usize = 0;
        while i < modules.len()
            invariant
                i <= modules.len(),
                mods == module_ids(modules@),
                first_disallowed(version, mods, 0) == first_disallowed(version, mods, i as int),
            decreases modules.len() - i,
        {
            if !version.allows_module(&modules[i]) {
                return Err(
                    GameError::Validation(ValidationError::UnknownRuleModule(modules[i].clone())),
                );
            }
            i = i + 1;
        }
        match validate_modules(&modules) {
            Ok(()) => Ok(modules),
            Err(e) => Err(e),
        }
    }

    /// Checks a setup against the official rules: the base ruleset, and modules that
    /// resolve under its rule version. The checks of a setup's own shape (its players,
    /// turn order and card instances) are not part of this library and are not made here.
    pub fn validate_setup(&self, setup: &GameSetup) -> (r: Result<(), GameError>)
        ensures
            setup_outcome(r, *setup),
    {
        match self.validate_ruleset(&setup.ruleset) {
            Ok(()) => {},
            Err(e) => {
                return Err(e);
            },
        }
        let modules = clone_modules(&setup.enabled_rule_modules);
        match self.resolve_version_modules(setup.rule_version, Some(modules)) {
            Ok(_) => Ok(()),
            Err(e) => Err(e),
        }
    }

    /// The preconstructed personal deck for a player.
    pub fn preconstructed_deck(&self, player: PlayerId) -> (r: PlayerDeckList)
        ensures
            r@ == (
                player@,
                crate::rules::deck_composition::PRECONSTRUCTED_DECK_NAME@,
                crate::rules::deck_composition::preconstructed_ids(25),
            ),
    {
        crate::rules::base::BaseRuleset::new().preconstructed_deck(player)
    }

    /// The personal deck a player plays with: the candidate when it is valid for the
    /// player, otherwise the preconstructed deck.
    pub fn resolve_personal_deck(&self, player: PlayerId, candidate: Option<PlayerDeckList>) -> (r:
        ResolvedPersonalDeck)
        requires
            candidate matches Some(d) ==> crate::rules::deck_composition::deck_fits(d@),
        ensures
            crate::rules::deck_composition::is_resolution(
                r,
                player@,
                crate::rules::deck_composition::deck_view(candidate),
            ),
    {
        DeckComposition.resolve(player, candidate)
    }

    /// The deck composition catalog a deck builder needs.
    pub fn deck_composition_catalog(&self) -> (r: DeckCompositionCatalog)
        ensures
            crate::rules::deck_composition::is_official_catalog(r),
    {
        DeckComposition.catalog()
    }

    /// Configures an official game under a rule version: the modules must resolve; every
    /// team starts at the official life total, and with personal decks every player gets
    /// their resolved deck.
    pub fn configure_versioned_game_with_decks(
        &self,
        rule_version: RuleVersion,
        players: Vec<Player>,
        turn_order: Vec<PlayerId>,
        enabled_rule_modules: Vec<RuleModuleId>,
        deck_lists: Vec<PlayerDeckList>,
    ) -> (r: Result<GameSetup, GameError>)
        requires
            requests_fit(deck_lists@),
            players@.len() <= u32::MAX,
        ensures
            configure_outcome(
                r,
                rule_version,
                players@,
                turn_order@,
                enabled_rule_modules@,
                deck_lists@,
            ),
    {
        match self.resolve_version_modules(rule_version, Some(clone_modules(&enabled_rule_modules))) {
            Ok(_) => {},
            Err(e) => {
                return Err(e);
            },
        }
        let advanced = modules_contain(&enabled_rule_modules, FIVE_DIRECTIONS_LEGEND_MODULE_ID)
            || modules_contain(&enabled_rule_modules, STAR_MODULE_ID) || modules_contain(
            &enabled_rule_modules,
            HERO_SCHOOLS_MODULE_ID,
        );
        let hp: i32 = if players.len() == 2 {
            if advanced {
                200
            } else {
                100
            }
        } else if advanced {
            250
        } else {
            150
        };
        let personal = modules_contain(&enabled_rule_modules, PERSONAL_DECK_MODULE_ID);
        let mut setup = crate::rules::base::official_game_setup_with_hp(players, turn_order, hp);
        setup.rule_version = rule_version;
        setup.enabled_rule_modules = enabled_rule_modules;
        if personal {
            crate::rules::base::BaseRuleset::new().configure_personal_decks(&mut setup, deck_lists);
        }
        match self.validate_setup(&setup) {
            Ok(()) => Ok(setup),
            Err(e) => Err(e),
        }
    }

    /// Configures an official game under the current rule version.
    pub fn configure_game_with_decks(
        &self,
        players: Vec<Player>,
        turn_order: Vec<PlayerId>,
        enabled_rule_modules: Vec<RuleModuleId>,
        deck_lists: Vec<PlayerDeckList>,
    ) -> (r: Result<GameSetup, GameError>)
        requires
            requests_fit(deck_lists@),
            players@.len() <= u32::MAX,
        ensures
            configure_outcome(
                r,
                RuleVersion::Current,
                players@,
                turn_order@,
                enabled_rule_modules@,
                deck_lists@,
            ),
    {
        self.configure_versioned_game_with_decks(
            RuleVersion::Current,
            players,
            turn_order,
            enabled_rule_modules,
            deck_lists,
        )
    }

    /// Configures an official game under the current rule version, without requested
    /// personal decks.
    pub fn configure_game(
        &self,
        players: Vec<Player>,
        turn_order: Vec<PlayerId>,
        enabled_rule_modules: Vec<RuleModuleId>,
    ) -> (r: Result<GameSetup, GameError>)
        requires
            players@.len() <= u32::MAX,
        ensures
            configure_outcome(
                r,
                RuleVersion::Current,
                players@,
                turn_order@,
                enabled_rule_modules@,
                Seq::empty(),
            ),
    {
        let none: Vec<PlayerDeckList> = Vec::new();
        self.configure_game_with_decks(players, turn_order, enabled_rule_modules, none)
    }

    /// The opening events of a game without the pouch module: the setup must satisfy the
    /// official rules and the deck order must name each card instance once; then the deck
    /// is prepared and the opening hands dealt. The pouch module's opening, in which the
    /// players first choose their pouches, is not part of this library.
    pub fn start_game(&self, setup: &GameSetup, deck_order: Vec<CardInstanceId>) -> (r: Result<
        Vec<StartEvent>,
        GameError,
    >)
        requires
            !module_enabled(setup.enabled_rule_modules@, POUCH_MODULE_ID@),
            setup.turn_order@.len() * 5 <= usize::MAX,
        ensures
            !setup_accepted(*setup) ==> (r matches Err(e) && setup_outcome(Err(e), *setup)),
            setup_accepted(*setup) ==> match deck_order_scan(
                deck_order@,
                instance_ids(setup.card_instances@),
                0,
            ) {
                DeckOrderVerdict::Duplicate(c) => r == Err::<Vec<StartEvent>, GameError>(
                    GameError::Validation(ValidationError::DuplicateCard(c)),
                ),
                DeckOrderVerdict::Unknown(c) => r == Err::<Vec<StartEvent>, GameError>(
                    GameError::Validation(ValidationError::MissingCardInstanceDefinition(c)),
                ),
                DeckOrderVerdict::Accepted => match spec_initial_events(*setup, deck_order@) {
                    Ok(events) => r matches Ok(v) && start_event_views(v@) == events,
                    Err(e) => r == Err::<Vec<StartEvent>, GameError>(e),
                },
            },
    {
        match self.validate_setup(setup) {
            Ok(()) => {},
            Err(e) => {
                return Err(e);
            },
        }
        crate::rules::base::BaseRuleset::new().start_game(setup, deck_order)
    }

    /// The official deck order of an accepted setup: its card instances by increasing
    /// serial.
    pub fn official_deck_order(&self, setup: &GameSetup) -> (r: Result<Vec<CardInstanceId>, GameError>)
        ensures
            match r {
                Ok(v) => setup_accepted(*setup) && sorted_ids(v@) && v@.to_multiset()
                    == instance_ids(setup.card_instances@).to_multiset(),
                Err(e) => setup_outcome(Err(e), *setup),
            },
    {
        match self.validate_setup(setup) {
            Ok(()) => Ok(crate::rules::base::BaseRuleset::new().official_deck_order(setup)),
            Err(e) => Err(e),
        }
    }

    /// The label of every card instance of an accepted setup whose definition it knows.
    pub fn card_labels(&self, setup: &GameSetup) -> (r: Result<Vec<(CardInstanceId, String)>, GameError>)
        ensures
            match r {
                Ok(v) => setup_accepted(*setup) && label_views(v@) == spec_card_labels(*setup) && (
                crate::rules::base::instances_distinct(setup.card_instances@)
                    ==> crate::rules::base::label_keys_distinct(label_views(v@))),
                Err(e) => setup_outcome(Err(e), *setup),
            },
    {
        match self.validate_setup(setup) {
            Ok(()) => Ok(crate::rules::base::BaseRuleset::new().card_labels(setup)),
            Err(e) => Err(e),
        }
    }

    /// The identity and name of every formation of an accepted setup's official game, by
    /// identity; an inconsistent formation registry is reported as a broken invariant.
    pub fn formation_names(&self, setup: &GameSetup) -> (r: Result<Vec<(String, String)>, GameError>)
        ensures
            match r {
                Ok(v) => {
                    &&& setup_accepted(*setup)
                    &&& table_consistent(flat_specs(spec_groups(module_ids(setup.enabled_rule_modules@))))
                    &&& v@.len() == flat_specs(spec_groups(module_ids(setup.enabled_rule_modules@))).len()
                    &&& forall|i: int, j: int| 0 <= i < j < v@.len() ==> !crate::rules::registry::seq_lt(
                        v@[j].0@,
                        v@[i].0@,
                    )
                    &&& forall|i: int, j: int| 0 <= i < j < v@.len() ==> v@[i].0@ != v@[j].0@
                    &&& forall|i: int|
                        0 <= i < v@.len() ==> names_official_formation(
                            module_ids(setup.enabled_rule_modules@),
                            (#[trigger] v@[i]).0@,
                            v@[i].1@,
                        )
                    &&& forall|j: int|
                        0 <= j < flat_specs(spec_groups(module_ids(setup.enabled_rule_modules@))).len()
                            ==> names_listed(v@, #[trigger] flat_specs(spec_groups(module_ids(setup.enabled_rule_modules@)))[j])
                },
                Err(e) => setup_outcome(Err(e), *setup) || (setup_accepted(*setup)
                    && !table_consistent(flat_specs(spec_groups(module_ids(setup.enabled_rule_modules@))))
                    && e == GameError::EngineInvariant(EngineInvariantError::InconsistentFormationRegistry)),
            },
    {
        match self.validate_setup(setup) {
            Ok(()) => {},
            Err(e) => {
                return Err(e);
            },
        }
        let registry = match crate::rules::official_formations::official_formation_registry(
            &setup.enabled_rule_modules,
        ) {
            Ok(reg) => reg,
            Err(_) => {
                return Err(
                    GameError::EngineInvariant(EngineInvariantError::InconsistentFormationRegistry),
                );
            },
        };
        let formations = registry.formations();
        let ghost flat = flat_specs(spec_groups(module_ids(setup.enabled_rule_modules@)));
        let mut names: Vec<(String, String)> = Vec::new();
        let mut i: usize = 0;
        while i < formations.len()
            invariant
                i <= formations.len(),
                names@.len() == i,
                forall|k: int| 0 <= k < i ==> (#[trigger] names@[k]).0@ == formations@[k].id@
                    && names@[k].1@ == formations@[k].name@,
            decreases formations.len() - i,
        {
            names.push((formations[i].id.clone(), formations[i].name.clone()));
            i = i + 1;
        }
        proof {
            assert forall|a: int, b: int| 0 <= a < b < names@.len() implies names@[a].0@ != names@[b].0@ by {
                assert(formations@[a].id@ != formations@[b].id@);
            }
            assert forall|a: int, b: int| 0 <= a < b < names@.len() implies !crate::rules::registry::seq_lt(
                names@[b].0@,
                names@[a].0@,
            ) by {
                assert(!crate::rules::registry::seq_lt(formations@[b].id@, formations@[a].id@));
            }
            assert forall|k: int| 0 <= k < names@.len() implies names_official_formation(
                module_ids(setup.enabled_rule_modules@),
                (#[trigger] names@[k]).0@,
                names@[k].1@,
            ) by {
                assert(crate::rules::registry::view_in(registry.formation_seq(), formations@[k]@));
                let x = choose|x: int| 0 <= x < registry.formation_seq().len() && registry.formation_seq()[x]@ == formations@[k]@;
                assert(registry.formation_seq()[x]@ == flat[x].formation);
                assert(formations@[k]@.id == formations@[k].id@);
                assert(flat[x].formation.id == names@[k].0@);
                assert(flat[x].formation.name == names@[k].1@);
            }
            assert forall|j: int| 0 <= j < flat.len() implies names_listed(names@, #[trigger] flat[j]) by {
                assert(registry.formation_seq()[j]@ == flat[j].formation);
                assert(crate::rules::registry::view_in(formations@, registry.formation_seq()[j]@));
                let y = choose|y: int| 0 <= y < formations@.len() && formations@[y]@ == registry.formation_seq()[j]@;
                assert(names@[y].0@ == flat[j].formation.id);
            }
        }
        Ok(names)
    }

}

} // verus!
