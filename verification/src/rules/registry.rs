//! Formation definitions, effect plans, and the registry that links each
//! formation to its effect.
use crate::domain::{Element, owned, str_eq};
use crate::rules::detail::{FormationCategory, FormationEffect};
use crate::rules::matcher::{FormationPattern, PatternView};
use vstd::prelude::*;

verus! {

#[derive(Clone, Copy, Debug, PartialEq, Eq, Structural)]
pub enum AttackCategory {
    Elemental(Element),
    Physical,
    Special,
}

/// How the points of an attack are computed.
#[derive(Clone, Copy, Debug, PartialEq, Eq, Structural)]
pub enum PointFormula {
    Fixed(u32),
    LevelPlus(u32),
    LevelSumTimes(u32),
    TargetHandCountTimes(u32),
    ElementProductTimes { element: Element, multiplier: u32 },
}

#[derive(Clone, Copy, Debug, PartialEq, Eq, Structural)]
pub enum DamageTarget {
    PreviousPlayer,
}

#[derive(Clone, Copy, Debug, PartialEq, Eq, Structural)]
pub struct AttackPlanDef {
    pub category: AttackCategory,
    pub point_formula: PointFormula,
    pub damage_target: DamageTarget,
}

#[derive(Debug, PartialEq, Eq)]
pub struct SpellPlanDef {
    pub resolver_id: String,
    /// The semantic action-detail fact the spell commits to.
    pub player_facing_effect: FormationEffect,
}

#[derive(Debug, PartialEq, Eq)]
pub enum EffectPlan {
    Attack(AttackPlanDef),
    ActiveSpell(SpellPlanDef),
    PassiveSpell(SpellPlanDef),
}

#[derive(Debug, PartialEq, Eq)]
pub struct EffectDef {
    pub id: String,
    pub plan: EffectPlan,
}

#[derive(Debug, PartialEq, Eq)]
pub struct FormationDef {
    pub id: String,
    pub name: String,
    pub rule_text: String,
    pub category: FormationCategory,
    pub pattern: FormationPattern,
    pub effect_id: String,
    pub point_formula: PointFormula,
}

/// A formation together with its effect, as a rule module publishes it.
#[derive(Debug, PartialEq, Eq)]
pub struct BaseFormationSpec {
    pub formation: FormationDef,
    pub effect: EffectDef,
}

#[derive(Debug, PartialEq, Eq)]
pub enum RegistryError {
    DuplicateFormation,
    MissingEffect { formation_id: String, effect_id: String },
}

// ---------------------------------------------------------------------------
// Views.
// ---------------------------------------------------------------------------

pub enum EffectPlanView {
    Attack(AttackPlanDef),
    ActiveSpell { resolver_id: Seq<char>, effect: FormationEffect },
    PassiveSpell { resolver_id: Seq<char>, effect: FormationEffect },
}

pub struct EffectDefView {
    pub id: Seq<char>,
    pub plan: EffectPlanView,
}

pub struct FormationDefView {
    pub id: Seq<char>,
    pub name: Seq<char>,
    pub rule_text: Seq<char>,
    pub category: FormationCategory,
    pub pattern: PatternView,
    pub effect_id: Seq<char>,
    pub point_formula: PointFormula,
}

pub struct SpecView {
    pub formation: FormationDefView,
    pub effect: EffectDefView,
}

pub enum RegistryErrorView {
    DuplicateFormation,
    MissingEffect { formation_id: Seq<char>, effect_id: Seq<char> },
}

impl View for EffectPlan {
    type V = EffectPlanView;

    open spec fn view(&self) -> EffectPlanView {
        match self {
            EffectPlan::Attack(p) => EffectPlanView::Attack(*p),
            EffectPlan::ActiveSpell(p) => EffectPlanView::ActiveSpell {
                resolver_id: p.resolver_id@,
                effect: p.player_facing_effect,
            },
            EffectPlan::PassiveSpell(p) => EffectPlanView::PassiveSpell {
                resolver_id: p.resolver_id@,
                effect: p.player_facing_effect,
            },
        }
    }
}

impl View for EffectDef {
    type V = EffectDefView;

    open spec fn view(&self) -> EffectDefView {
        EffectDefView { id: self.id@, plan: self.plan@ }
    }
}

impl View for FormationDef {
    type V = FormationDefView;

    open spec fn view(&self) -> FormationDefView {
        FormationDefView {
            id: self.id@,
            name: self.name@,
            rule_text: self.rule_text@,
            category: self.category,
            pattern: self.pattern@,
            effect_id: self.effect_id@,
            point_formula: self.point_formula,
        }
    }
}

impl View for BaseFormationSpec {
    type V = SpecView;

    open spec fn view(&self) -> SpecView {
        SpecView { formation: self.formation@, effect: self.effect@ }
    }
}

impl View for RegistryError {
    type V = RegistryErrorView;

    open spec fn view(&self) -> RegistryErrorView {
        match self {
            RegistryError::DuplicateFormation => RegistryErrorView::DuplicateFormation,
            RegistryError::MissingEffect { formation_id, effect_id } =>
                RegistryErrorView::MissingEffect {
                    formation_id: formation_id@,
                    effect_id: effect_id@,
                },
        }
    }
}

impl Clone for EffectPlan {
    fn clone(&self) -> (r: Self)
        ensures
            r@ == self@,
    {
        match self {
            EffectPlan::Attack(p) => EffectPlan::Attack(*p),
            EffectPlan::ActiveSpell(p) => EffectPlan::ActiveSpell(
                SpellPlanDef {
                    resolver_id: p.resolver_id.clone(),
                    player_facing_effect: p.player_facing_effect,
                },
            ),
            EffectPlan::PassiveSpell(p) => EffectPlan::PassiveSpell(
                SpellPlanDef {
                    resolver_id: p.resolver_id.clone(),
                    player_facing_effect: p.player_facing_effect,
                },
            ),
        }
    }
}

impl Clone for EffectDef {
    fn clone(&self) -> (r: Self)
        ensures
            r@ == self@,
    {
        EffectDef { id: self.id.clone(), plan: self.plan.clone() }
    }
}

impl Clone for BaseFormationSpec {
    fn clone(&self) -> (r: Self)
        ensures
            r@ == self@,
    {
        BaseFormationSpec { formation: self.formation.clone(), effect: self.effect.clone() }
    }
}

impl Clone for FormationDef {
    fn clone(&self) -> (r: Self)
        ensures
            r@ == self@,
    {
        FormationDef {
            id: self.id.clone(),
            name: self.name.clone(),
            rule_text: self.rule_text.clone(),
            category: self.category,
            pattern: self.pattern.clone(),
            effect_id: self.effect_id.clone(),
            point_formula: self.point_formula,
        }
    }
}

// ---------------------------------------------------------------------------
// The order of identities.
// ---------------------------------------------------------------------------

/// Lexicographic order of character sequences, by code point.
pub open spec fn seq_lt(a: Seq<char>, b: Seq<char>) -> bool
    decreases a.len(),
{
    if a.len() == 0 {
        b.len() > 0
    } else if b.len() == 0 {
        false
    } else if (a[0] as u32) < (b[0] as u32) {
        true
    } else if a[0] == b[0] {
        seq_lt(a.drop_first(), b.drop_first())
    } else {
        false
    }
}

/// The lexicographic order is transitive.
pub proof fn lemma_seq_lt_transitive(a: Seq<char>, b: Seq<char>, c: Seq<char>)
    requires
        seq_lt(a, b),
        seq_lt(b, c),
    ensures
        seq_lt(a, c),
    decreases a.len(),
{
    if a.len() > 0 && b.len() > 0 && c.len() > 0 {
        if a[0] == b[0] && b[0] == c[0] {
            lemma_seq_lt_transitive(a.drop_first(), b.drop_first(), c.drop_first());
        }
    }
}

/// No sequence precedes itself.
pub proof fn lemma_seq_lt_irreflexive(a: Seq<char>)
    ensures
        !seq_lt(a, a),
    decreases a.len(),
{
    if a.len() > 0 {
        lemma_seq_lt_irreflexive(a.drop_first());
    }
}

/// Whether `a` precedes `b` in lexicographic order.
pub fn str_lt(a: &str, b: &str) -> (r: bool)
    ensures
        r == seq_lt(a@, b@),
{
    let n = a.unicode_len();
    let m = b.unicode_len();
    let mut i: usize = 0;
    assert(a@.skip(0) =~= a@);
    assert(b@.skip(0) =~= b@);
    while i < n && i < m
        invariant
            n == a@.len(),
            m == b@.len(),
            i <= n,
            i <= m,
            seq_lt(a@, b@) == seq_lt(a@.skip(i as int), b@.skip(i as int)),
        decreases n - i,
    {
        let x = a.get_char(i);
        let y = b.get_char(i);
        let ghost sa = a@.skip(i as int);
        let ghost sb = b@.skip(i as int);
        assert(sa[0] == x && sb[0] == y);
        if (x as u32) < (y as u32) {
            return true;
        }
        if x != y {
            return false;
        }
        assert(sa.drop_first() =~= a@.skip(i as int + 1));
        assert(sb.drop_first() =~= b@.skip(i as int + 1));
        i = i + 1;
    }
    i < m
}

// ---------------------------------------------------------------------------
// The registry.
// ---------------------------------------------------------------------------

/// The effect registered last under `id`, if any.
pub open spec fn effect_lookup(effects: Seq<EffectDef>, id: Seq<char>) -> Option<EffectDef>
    decreases effects.len(),
{
    if effects.len() == 0 {
        None
    } else if effects.last().id@ == id {
        Some(effects.last())
    } else {
        effect_lookup(effects.drop_last(), id)
    }
}

/// Whether some formation among the first `n` has identity `id`.
pub open spec fn formation_id_among(formations: Seq<FormationDef>, n: int, id: Seq<char>) -> bool {
    exists|j: int| 0 <= j < n && formations[j].id@ == id
}

/// The first inconsistency met when registering the formations in order: a formation
/// whose effect is not among the effects, or an identity registered twice.
pub open spec fn registry_error(formations: Seq<FormationDef>, effects: Seq<EffectDef>) -> Option<
    RegistryErrorView,
>
    decreases formations.len(),
{
    if formations.len() == 0 {
        None
    } else {
        match registry_error(formations.drop_last(), effects) {
            Some(e) => Some(e),
            None => {
                let f = formations.last();
                if effect_lookup(effects, f.effect_id@) is None {
                    Some(
                        RegistryErrorView::MissingEffect {
                            formation_id: f.id@,
                            effect_id: f.effect_id@,
                        },
                    )
                } else if formation_id_among(formations, formations.len() - 1, f.id@) {
                    Some(RegistryErrorView::DuplicateFormation)
                } else {
                    None
                }
            },
        }
    }
}

/// Formations keyed by identity, each linked to an effect keyed by identity.
#[derive(Debug)]
pub struct FormationRegistry {
    formations: Vec<FormationDef>,
    effects: Vec<EffectDef>,
}

impl FormationRegistry {
    /// The registered formations, in registration order.
    pub closed spec fn formation_seq(&self) -> Seq<FormationDef> {
        self.formations@
    }

    /// The registered effects, in registration order.
    pub closed spec fn effect_seq(&self) -> Seq<EffectDef> {
        self.effects@
    }

    /// Identities are unique and every formation's effect is registered.
    pub open spec fn wf(&self) -> bool {
        &&& forall|i: int, j: int|
            0 <= i < j < self.formation_seq().len() ==> self.formation_seq()[i].id@
                != self.formation_seq()[j].id@
        &&& forall|i: int|
            0 <= i < self.formation_seq().len() ==> effect_lookup(
                self.effect_seq(),
                (#[trigger] self.formation_seq()[i]).effect_id@,
            ) is Some
    }

    /// The formation registered under `id`, if any.
    pub open spec fn spec_formation(&self, id: Seq<char>) -> Option<FormationDef> {
        if exists|i: int| 0 <= i < self.formation_seq().len() && self.formation_seq()[i].id@ == id {
            Some(
                self.formation_seq()[choose|i: int|
                    0 <= i < self.formation_seq().len() && self.formation_seq()[i].id@ == id],
            )
        } else {
            None
        }
    }

    /// Builds a registry, refusing a formation whose effect is missing or an identity
    /// registered twice; effects registered under one identity keep the last.
    pub fn new(formations: Vec<FormationDef>, effects: Vec<EffectDef>) -> (r: Result<
        Self,
        RegistryError,
    >)
        ensures
            match r {
                Ok(reg) => {
                    &&& registry_error(formations@, effects@) is None
                    &&& reg.formation_seq() == formations@
                    &&& reg.effect_seq() == effects@
                    &&& reg.wf()
                },
                Err(e) => registry_error(formations@, effects@) == Some(e@),
            },
    {
        let mut i: usize = 0;
        while i < formations.len()
            invariant
                i <= formations.len(),
                registry_error(formations@.subrange(0, i as int), effects@) is None,
                forall|a: int, b: int|
                    0 <= a < b < i ==> formations@[a].id@ != formations@[b].id@,
                forall|a: int|
                    0 <= a < i ==> effect_lookup(effects@, (#[trigger] formations@[a]).effect_id@) is Some,
            decreases formations.len() - i,
        {
            let ghost prefix = formations@.subrange(0, i as int + 1);
            assert(prefix.drop_last() =~= formations@.subrange(0, i as int));
            assert(prefix.last() == formations@[i as int]);
            if !has_effect(&effects, formations[i].effect_id.as_str()) {
                proof {
                    assert(formations@.subrange(0, formations.len() as int) =~= formations@);
                    lemma_registry_error_extends(formations@, effects@, i as int + 1);
                }
                return Err(
                    RegistryError::MissingEffect {
                        formation_id: formations[i].id.clone(),
                        effect_id: formations[i].effect_id.clone(),
                    },
                );
            }
            let mut j: usize = 0;
            while j < i
                invariant
                    j <= i,
                    i < formations.len(),
                    prefix == formations@.subrange(0, i as int + 1),
                    prefix.drop_last() == formations@.subrange(0, i as int),
                    prefix.last() == formations@[i as int],
                    registry_error(formations@.subrange(0, i as int), effects@) is None,
                    effect_lookup(effects@, formations@[i as int].effect_id@) is Some,
                    forall|k: int| 0 <= k < j ==> formations@[k].id@ != formations@[i as int].id@,
                decreases i - j,
            {
                if str_eq(formations[j].id.as_str(), formations[i].id.as_str()) {
                    proof {
                        assert(formation_id_among(prefix, i as int, prefix.last().id@)) by {
                            assert(prefix[j as int] == formations@[j as int]);
                        }
                        assert(registry_error(prefix, effects@) == Some(
                            RegistryErrorView::DuplicateFormation,
                        ));
                        assert(formations@.subrange(0, formations.len() as int) =~= formations@);
                        lemma_registry_error_extends(formations@, effects@, i as int + 1);
                    }
                    return Err(RegistryError::DuplicateFormation);
                }
                j = j + 1;
            }
            proof {
                assert(!formation_id_among(prefix, i as int, prefix.last().id@)) by {
                    if formation_id_among(prefix, i as int, prefix.last().id@) {
                        let k = choose|k: int| 0 <= k < i && prefix[k].id@ == prefix.last().id@;
                        assert(prefix[k] == formations@[k]);
                    }
                }
            }
            i = i + 1;
        }
        assert(formations@.subrange(0, formations.len() as int) =~= formations@);
        let reg = FormationRegistry { formations, effects };
        Ok(reg)
    }

    /// The formation registered under `id`.
    pub fn formation(&self, id: &str) -> (r: Option<&FormationDef>)
        requires
            self.wf(),
        ensures
            match r {
                Some(f) => self.spec_formation(id@) == Some(*f) && f.id@ == id@,
                None => self.spec_formation(id@) is None,
            },
    {
        let mut i: usize = 0;
        while i < self.formations.len()
            invariant
                i <= self.formations.len(),
                self.wf(),
                forall|j: int| 0 <= j < i ==> self.formations@[j].id@ != id@,
            decreases self.formations.len() - i,
        {
            if str_eq(self.formations[i].id.as_str(), id) {
                proof {
                    let c = choose|c: int|
                        0 <= c < self.formation_seq().len() && self.formation_seq()[c].id@ == id@;
                    if c != i {
                        assert(self.formation_seq()[i as int].id@ == id@);
                    }
                }
                return Some(&self.formations[i]);
            }
            i = i + 1;
        }
        None
    }

    /// The effect registered last under `id`.
    pub fn effect(&self, id: &str) -> (r: Option<&EffectDef>)
        ensures
            match r {
                Some(e) => effect_lookup(self.effect_seq(), id@) == Some(*e),
                None => effect_lookup(self.effect_seq(), id@) is None,
            },
    {
        let mut i = self.effects.len();
        assert(self.effects@.subrange(0, i as int) =~= self.effects@);
        while i > 0
            invariant
                i <= self.effects.len(),
                effect_lookup(self.effects@, id@) == effect_lookup(
                    self.effects@.subrange(0, i as int),
                    id@,
                ),
            decreases i,
        {
            let ghost prefix = self.effects@.subrange(0, i as int);
            assert(prefix.drop_last() =~= self.effects@.subrange(0, i as int - 1));
            if str_eq(self.effects[i - 1].id.as_str(), id) {
                return Some(&self.effects[i - 1]);
            }
            i = i - 1;
        }
        None
    }

    /// The effect a formation is linked to.
    pub fn effect_for(&self, formation: &FormationDef) -> (r: Option<&EffectDef>)
        ensures
            match r {
                Some(e) => effect_lookup(self.effect_seq(), formation.effect_id@) == Some(*e),
                None => effect_lookup(self.effect_seq(), formation.effect_id@) is None,
            },
    {
        self.effect(formation.effect_id.as_str())
    }

    /// How many formations are registered.
    pub fn formation_count(&self) -> (r: usize)
        ensures
            r == self.formation_seq().len(),
    {
        self.formations.len()
    }

    /// How many effects are registered.
    pub fn effect_count(&self) -> (r: usize)
        ensures
            r == self.effect_seq().len(),
    {
        self.effects.len()
    }

    /// The registered formations, ordered by identity; in a well-formed registry each
    /// identity appears once.
    pub fn formations(&self) -> (r: Vec<FormationDef>)
        ensures
            r.len() == self.formation_seq().len(),
            ids_sorted(r@),
            self.wf() ==> ids_distinct(r@),
            forall|i: int| 0 <= i < r.len() ==> view_in(self.formation_seq(), #[trigger] r@[i]@),
            forall|j: int|
                0 <= j < self.formation_seq().len() ==> view_in(
                    r@,
                    #[trigger] self.formation_seq()[j]@,
                ),
    {
        let mut sorted: Vec<FormationDef> = Vec::new();
        let mut k: usize = 0;
        while k < self.formations.len()
            invariant
                k <= self.formations.len(),
                sorted.len() == k,
                ids_sorted(sorted@),
                self.wf() ==> ids_distinct(sorted@),
                forall|i: int|
                    0 <= i < sorted.len() ==> view_in(
                        self.formations@.subrange(0, k as int),
                        #[trigger] sorted@[i]@,
                    ),
                forall|j: int|
                    0 <= j < k ==> view_in(sorted@, #[trigger] self.formations@[j]@),
            decreases self.formations.len() - k,
        {
            let item = self.formations[k].clone();
            let mut p: usize = 0;
            while p < sorted.len() && !str_lt(item.id.as_str(), sorted[p].id.as_str())
                invariant
                    p <= sorted.len(),
                    forall|i: int| 0 <= i < p ==> !seq_lt(item.id@, sorted@[i].id@),
                decreases sorted.len() - p,
            {
                p = p + 1;
            }
            let ghost old = sorted@;
            sorted.insert(p, item);
            proof {
                if self.wf() {
                    assert forall|i: int| 0 <= i < old.len() implies (#[trigger] old[i]).id@ != item.id@ by {
                        assert(view_in(self.formations@.subrange(0, k as int), old[i]@));
                        let x = choose|x: int|
                            0 <= x < k && self.formations@.subrange(0, k as int)[x]@ == old[i]@;
                        assert(self.formations@[x]@ == old[i]@);
                        assert(self.formation_seq()[x].id@ != self.formation_seq()[k as int].id@);
                    }
                    lemma_insert_distinct(old, p as int, item);
                }
                lemma_insert_sorted(old, p as int, item);
                lemma_insert_membership(old, p as int, item, self.formations@, k as int);
            }
            k = k + 1;
        }
        assert(self.formations@.subrange(0, k as int) =~= self.formations@);
        sorted
    }
}

/// Identities never decrease along the sequence.
pub open spec fn ids_sorted(s: Seq<FormationDef>) -> bool {
    forall|i: int, j: int| 0 <= i < j < s.len() ==> !seq_lt(s[j].id@, s[i].id@)
}

/// No identity appears twice along the sequence.
pub open spec fn ids_distinct(s: Seq<FormationDef>) -> bool {
    forall|i: int, j: int| 0 <= i < j < s.len() ==> s[i].id@ != s[j].id@
}

proof fn lemma_insert_distinct(old: Seq<FormationDef>, p: int, item: FormationDef)
    requires
        ids_distinct(old),
        0 <= p <= old.len(),
        forall|i: int| 0 <= i < old.len() ==> (#[trigger] old[i]).id@ != item.id@,
    ensures
        ids_distinct(old.insert(p, item)),
{
    let s = old.insert(p, item);
    assert forall|i: int, j: int| 0 <= i < j < s.len() implies s[i].id@ != s[j].id@ by {
        if j == p {
            assert(s[i] == old[i]);
        } else if i == p {
            assert(s[j] == old[j - 1]);
        } else if j < p {
            assert(s[i] == old[i] && s[j] == old[j]);
        } else if i < p {
            assert(s[i] == old[i] && s[j] == old[j - 1]);
        } else {
            assert(s[i] == old[i - 1] && s[j] == old[j - 1]);
        }
    }
}

/// Some formation of the sequence has the given view.
pub open spec fn view_in(s: Seq<FormationDef>, v: FormationDefView) -> bool {
    exists|i: int| 0 <= i < s.len() && s[i]@ == v
}

proof fn lemma_insert_sorted(old: Seq<FormationDef>, p: int, item: FormationDef)
    requires
        ids_sorted(old),
        0 <= p <= old.len(),
        forall|i: int| 0 <= i < p ==> !seq_lt(item.id@, old[i].id@),
        p < old.len() ==> seq_lt(item.id@, old[p].id@),
    ensures
        ids_sorted(old.insert(p, item)),
{
    let s = old.insert(p, item);
    assert forall|i: int, j: int| 0 <= i < j < s.len() implies !seq_lt(s[j].id@, s[i].id@) by {
        if j == p {
            assert(s[i] == old[i]);
        } else if i == p {
            assert(s[j] == old[j - 1]);
            if seq_lt(s[j].id@, item.id@) {
                lemma_seq_lt_transitive(s[j].id@, item.id@, old[p].id@);
                if j - 1 > p {
                    assert(!seq_lt(old[j - 1].id@, old[p].id@));
                } else {
                    lemma_seq_lt_irreflexive(old[p].id@);
                }
            }
        } else if j < p {
            assert(s[i] == old[i] && s[j] == old[j]);
        } else if i < p {
            assert(s[i] == old[i] && s[j] == old[j - 1]);
        } else {
            assert(s[i] == old[i - 1] && s[j] == old[j - 1]);
        }
    }
}

proof fn lemma_insert_membership(
    old: Seq<FormationDef>,
    p: int,
    item: FormationDef,
    all: Seq<FormationDef>,
    k: int,
)
    requires
        0 <= p <= old.len(),
        0 <= k < all.len(),
        item@ == all[k]@,
        forall|i: int| 0 <= i < old.len() ==> view_in(all.subrange(0, k), #[trigger] old[i]@),
        forall|j: int| 0 <= j < k ==> view_in(old, #[trigger] all[j]@),
    ensures
        forall|i: int|
            0 <= i < old.len() + 1 ==> view_in(
                all.subrange(0, k + 1),
                #[trigger] old.insert(p, item)[i]@,
            ),
        forall|j: int| 0 <= j < k + 1 ==> view_in(old.insert(p, item), #[trigger] all[j]@),
{
    let s = old.insert(p, item);
    assert forall|i: int| 0 <= i < old.len() + 1 implies view_in(
        all.subrange(0, k + 1),
        #[trigger] s[i]@,
    ) by {
        if i == p {
            assert(all.subrange(0, k + 1)[k] == all[k]);
        } else {
            let o = if i < p {
                i
            } else {
                i - 1
            };
            assert(s[i] == old[o]);
            assert(view_in(all.subrange(0, k), old[o]@));
            let w = choose|w: int| 0 <= w < k && all.subrange(0, k)[w]@ == old[o]@;
            assert(all.subrange(0, k + 1)[w] == all.subrange(0, k)[w]);
        }
    }
    assert forall|j: int| 0 <= j < k + 1 implies view_in(s, #[trigger] all[j]@) by {
        if j == k {
            assert(s[p] == item);
        } else {
            assert(view_in(old, all[j]@));
            let i0 = choose|i0: int| 0 <= i0 < old.len() && old[i0]@ == all[j]@;
            if i0 < p {
                assert(s[i0] == old[i0]);
            } else {
                assert(s[i0 + 1] == old[i0]);
            }
        }
    }
}

/// Whether some effect is registered under `id`.
fn has_effect(effects: &Vec<EffectDef>, id: &str) -> (r: bool)
    ensures
        r == (effect_lookup(effects@, id@) is Some),
{
    let mut i = effects.len();
    assert(effects@.subrange(0, i as int) =~= effects@);
    while i > 0
        invariant
            i <= effects.len(),
            effect_lookup(effects@, id@) == effect_lookup(effects@.subrange(0, i as int), id@),
        decreases i,
    {
        let ghost prefix = effects@.subrange(0, i as int);
        assert(prefix.drop_last() =~= effects@.subrange(0, i as int - 1));
        if str_eq(effects[i - 1].id.as_str(), id) {
            return true;
        }
        i = i - 1;
    }
    false
}

/// Once an error is met among the first `n` formations, registering more keeps it.
proof fn lemma_registry_error_extends(formations: Seq<FormationDef>, effects: Seq<EffectDef>, n: int)
    requires
        0 < n <= formations.len(),
        registry_error(formations.subrange(0, n), effects) is Some,
    ensures
        registry_error(formations, effects) == registry_error(formations.subrange(0, n), effects),
    decreases formations.len() - n,
{
    if n < formations.len() {
        assert(formations.subrange(0, n + 1).drop_last() =~= formations.subrange(0, n));
        lemma_registry_error_extends(formations, effects, n + 1);
    } else {
        assert(formations.subrange(0, n) =~= formations);
    }
}


/// Some effect has the identity `id`.
pub open spec fn effect_listed(effects: Seq<EffectDef>, id: Seq<char>) -> bool {
    exists|k: int| 0 <= k < effects.len() && #[trigger] effects[k].id@ == id
}

proof fn lemma_effect_lookup_finds_listed(effects: Seq<EffectDef>, id: Seq<char>)
    ensures
        effect_lookup(effects, id) is Some <==> effect_listed(effects, id),
    decreases effects.len(),
{
    if effects.len() > 0 {
        lemma_effect_lookup_finds_listed(effects.drop_last(), id);
        if effect_listed(effects.drop_last(), id) {
            let k = choose|k: int| 0 <= k < effects.drop_last().len() && #[trigger] effects.drop_last()[k].id@ == id;
            assert(effects[k].id@ == id);
        }
        if effect_listed(effects, id) && effects.last().id@ != id {
            let k = choose|k: int| 0 <= k < effects.len() && #[trigger] effects[k].id@ == id;
            assert(effects.drop_last()[k].id@ == id);
        }
    }
}

/// The formations and effects register without error exactly when every formation's
/// effect is listed and no identity is registered twice.
pub proof fn lemma_registry_error_none_iff(formations: Seq<FormationDef>, effects: Seq<EffectDef>)
    ensures
        registry_error(formations, effects) is None <==> (forall|i: int|
            0 <= i < formations.len() ==> effect_listed(effects, #[trigger] formations[i].effect_id@))
            && (forall|i: int, j: int|
            0 <= i < j < formations.len() ==> formations[i].id@ != formations[j].id@),
    decreases formations.len(),
{
    if formations.len() > 0 {
        let init = formations.drop_last();
        lemma_registry_error_none_iff(init, effects);
        let f = formations.last();
        lemma_effect_lookup_finds_listed(effects, f.effect_id@);
        assert forall|i: int| 0 <= i < init.len() implies #[trigger] init[i] == formations[i] by {}
        if registry_error(formations, effects) is None {
            assert forall|i: int, j: int| 0 <= i < j < formations.len() implies formations[i].id@
                != formations[j].id@ by {
                if j == formations.len() - 1 {
                    if formations[i].id@ == formations[j].id@ {
                        assert(formation_id_among(formations, formations.len() - 1, f.id@));
                    }
                } else {
                    assert(init[i] == formations[i] && init[j] == formations[j]);
                }
            }
            assert forall|i: int| 0 <= i < formations.len() implies effect_listed(
                effects,
                #[trigger] formations[i].effect_id@,
            ) by {
                if i < formations.len() - 1 {
                    assert(init[i] == formations[i]);
                }
            }
        } else {
            let all_listed = forall|i: int|
                0 <= i < formations.len() ==> effect_listed(effects, #[trigger] formations[i].effect_id@);
            let distinct = forall|i: int, j: int|
                0 <= i < j < formations.len() ==> formations[i].id@ != formations[j].id@;
            if all_listed && distinct {
                assert forall|i: int| 0 <= i < init.len() implies effect_listed(
                    effects,
                    #[trigger] init[i].effect_id@,
                ) by {
                    assert(init[i] == formations[i]);
                }
                assert forall|i: int, j: int| 0 <= i < j < init.len() implies init[i].id@
                    != init[j].id@ by {
                    assert(init[i] == formations[i] && init[j] == formations[j]);
                }
                assert(effect_listed(effects, formations[formations.len() - 1].effect_id@));
                if formation_id_among(formations, formations.len() - 1, f.id@) {
                    let j = choose|j: int|
                        0 <= j < formations.len() - 1 && formations[j].id@ == f.id@;
                    assert(formations[j].id@ != formations[formations.len() - 1].id@);
                }
            }
        }
    }
}

} // verus!
