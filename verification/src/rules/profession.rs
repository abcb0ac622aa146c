//! The shared shape of a profession catalog entry, published by every rule
//! module that offers professions.
use crate::domain::{ProfessionId, str_eq};
use vstd::prelude::*;

verus! {

/// A profession as the catalog presents it: its module, its texts, its parents, and the
/// identities of the abilities it grants.
#[derive(Debug, PartialEq, Eq)]
pub struct ProfessionCatalogEntry {
    pub id: ProfessionId,
    pub module_id: &'static str,
    pub name: &'static str,
    pub rule_text: &'static str,
    pub parents: Vec<ProfessionId>,
    pub ability_ids: Vec<&'static str>,
}

/// The abstract content of a catalog entry.
pub struct CatalogEntryView {
    pub id: Seq<char>,
    pub module_id: Seq<char>,
    pub name: Seq<char>,
    pub rule_text: Seq<char>,
    pub parents: Seq<Seq<char>>,
    pub ability_ids: Seq<Seq<char>>,
}

impl View for ProfessionCatalogEntry {
    type V = CatalogEntryView;

    open spec fn view(&self) -> CatalogEntryView {
        CatalogEntryView {
            id: self.id@,
            module_id: self.module_id@,
            name: self.name@,
            rule_text: self.rule_text@,
            parents: self.parents@.map_values(|p: ProfessionId| p@),
            ability_ids: self.ability_ids@.map_values(|a: &'static str| a@),
        }
    }
}

/// The views of a list of entries.
pub open spec fn entry_views(s: Seq<ProfessionCatalogEntry>) -> Seq<CatalogEntryView> {
    s.map_values(|e: ProfessionCatalogEntry| e@)
}

/// A list of profession identities, from literals.
pub fn profession_ids(list: &[&'static str]) -> (r: Vec<ProfessionId>)
    ensures
        r@.map_values(|p: ProfessionId| p@) == list@.map_values(|a: &'static str| a@),
{
    let mut r: Vec<ProfessionId> = Vec::new();
    let mut i: usize = 0;
    while i < list.len()
        invariant
            i <= list.len(),
            r.len() == i,
            forall|j: int| 0 <= j < i ==> r@[j]@ == list@[j]@,
        decreases list.len() - i,
    {
        r.push(ProfessionId::new(list[i]));
        i = i + 1;
    }
    assert(r@.map_values(|p: ProfessionId| p@) =~= list@.map_values(|a: &'static str| a@));
    r
}

/// A list of identities, from literals.
pub fn static_ids(list: &[&'static str]) -> (r: Vec<&'static str>)
    ensures
        r@ == list@,
{
    let mut r: Vec<&'static str> = Vec::new();
    let mut i: usize = 0;
    while i < list.len()
        invariant
            i <= list.len(),
            r@ == list@.subrange(0, i as int),
        decreases list.len() - i,
    {
        r.push(list[i]);
        assert(r@ =~= list@.subrange(0, i as int + 1));
        i = i + 1;
    }
    assert(list@.subrange(0, list.len() as int) =~= list@);
    r
}

/// A catalog entry from literals.
pub fn entry(
    id: &'static str,
    module_id: &'static str,
    name: &'static str,
    rule_text: &'static str,
    parents: &[&'static str],
    abilities: &[&'static str],
) -> (r: ProfessionCatalogEntry)
    ensures
        r@ == (CatalogEntryView {
            id: id@,
            module_id: module_id@,
            name: name@,
            rule_text: rule_text@,
            parents: parents@.map_values(|a: &'static str| a@),
            ability_ids: abilities@.map_values(|a: &'static str| a@),
        }),
{
    let ids = static_ids(abilities);
    ProfessionCatalogEntry {
        id: ProfessionId::new(id),
        module_id,
        name,
        rule_text,
        parents: profession_ids(parents),
        ability_ids: ids,
    }
}

/// A profession's line is the profession and every profession it inherits from under
/// the enabled modules; the rule modules decide formation use by it.
/// Some profession of `lineage` has identity `id`.
pub open spec fn lineage_has(lineage: Seq<ProfessionId>, id: Seq<char>) -> bool {
    exists|i: int| 0 <= i < lineage.len() && #[trigger] lineage[i]@ == id
}

/// Whether some profession of `lineage` has identity `id`.
pub fn lineage_contains(lineage: &[ProfessionId], id: &str) -> (r: bool)
    ensures
        r == lineage_has(lineage@, id@),
{
    let mut i: usize = 0;
    while i < lineage.len()
        invariant
            i <= lineage.len(),
            forall|j: int| 0 <= j < i ==> lineage@[j]@ != id@,
        decreases lineage.len() - i,
    {
        if str_eq(lineage[i].as_str(), id) {
            return true;
        }
        i = i + 1;
    }
    false
}


/// The view of an optional profession.
pub open spec fn opt_view(p: Option<&ProfessionId>) -> Option<Seq<char>> {
    match p {
        Some(q) => Some(q@),
        None => None,
    }
}

/// The identity and name a profession change candidate offers.
pub open spec fn change_offer(c: crate::rules::detail::ProfessionChangeCandidate) -> (
    Seq<char>,
    Seq<char>,
) {
    (c.profession_id@, c.profession_name@)
}

/// The views of a list of texts.
pub open spec fn text_views(s: Seq<&'static str>) -> Seq<Seq<char>> {
    s.map_values(|t: &'static str| t@)
}

/// The views of a list of text pairs.
pub open spec fn pair_views(s: Seq<(String, String)>) -> Seq<(Seq<char>, Seq<char>)> {
    s.map_values(|p: (String, String)| (p.0@, p.1@))
}

} // verus!
