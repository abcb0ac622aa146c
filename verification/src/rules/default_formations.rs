//! The official formation table of the default modules registers consistently: no
//! identity occurs twice, and every formation's effect is registered.
use crate::rules::catalog::{base_spec_table, five_directions_table};
use crate::rules::confluence::confluence_formation_table;
use crate::rules::dark::dark_formation_table;
use crate::rules::echo::echo_formation_table;
use crate::rules::hero::hero_formation_table;
use crate::rules::jianghu::jianghu_formation_table;
use crate::domain::RuleVersion;
use crate::rules::official::{default_module_ids, official_ids};
use crate::rules::official_formations::{
    GroupView, flat_specs, module_formation_table, spec_groups, table_consistent, table_effects_listed, table_has_effect,
    table_ids_distinct,
};
use crate::rules::registry::SpecView;
use vstd::prelude::*;

verus! {

/// The family an identity belongs to by its prefix: Jianghu, Confluence, Dark Glimmer,
/// Echo, or none of these.
pub open spec fn id_class(id: Seq<char>) -> int {
    if id.len() > 8 && id[0] == 'j' && id[7] == ':' {
        1
    } else if id.len() > 11 && id[0] == 'c' && id[10] == ':' {
        2
    } else if id.len() > 5 && id[0] == 'd' && id[4] == ':' {
        3
    } else if id.len() > 5 && id[0] == 'e' && id[4] == ':' {
        4
    } else {
        0
    }
}

/// Each entry's effect carries the entry's own effect identity.
pub open spec fn self_effects(t: Seq<SpecView>) -> bool {
    forall|i: int| 0 <= i < t.len() ==> (#[trigger] t[i]).effect.id == t[i].formation.effect_id
}

/// Every identity of the table is of a family below `k`.
pub open spec fn classes_below(t: Seq<SpecView>, k: int) -> bool {
    forall|i: int| 0 <= i < t.len() ==> id_class((#[trigger] t[i].formation).id) < k
}

/// A table of one family: distinct identities, all of the family, each with its own
/// effect.
pub open spec fn block_ok(t: Seq<SpecView>, k: int) -> bool {
    &&& table_ids_distinct(t)
    &&& forall|i: int| 0 <= i < t.len() ==> id_class((#[trigger] t[i].formation).id) == k
    &&& self_effects(t)
}

proof fn lemma_append_block(a: Seq<SpecView>, b: Seq<SpecView>, k: int)
    requires
        table_ids_distinct(a),
        self_effects(a),
        classes_below(a, k),
        block_ok(b, k),
    ensures
        table_ids_distinct(a + b),
        self_effects(a + b),
        classes_below(a + b, k + 1),
{
    let s = a + b;
    assert forall|i: int, j: int| 0 <= i < j < s.len() implies (#[trigger] s[i].formation).id
        != (#[trigger] s[j].formation).id by {
        if j < a.len() {
            assert(s[i] == a[i] && s[j] == a[j]);
            assert((#[trigger] a[i].formation).id != (#[trigger] a[j].formation).id);
        } else if i >= a.len() {
            assert(s[i] == b[i - a.len()] && s[j] == b[j - a.len()]);
            assert((#[trigger] b[i - a.len()].formation).id != (#[trigger] b[j - a.len()].formation).id);
        } else {
            assert(s[i] == a[i] && s[j] == b[j - a.len()]);
            assert(id_class(a[i].formation.id) < k);
            assert(id_class(b[j - a.len()].formation.id) == k);
        }
    }
    assert forall|i: int| 0 <= i < s.len() implies (#[trigger] s[i]).effect.id
        == s[i].formation.effect_id by {
        if i < a.len() {
            assert(s[i] == a[i]);
        } else {
            assert(s[i] == b[i - a.len()]);
        }
    }
    assert forall|i: int| 0 <= i < s.len() implies id_class((#[trigger] s[i].formation).id) < k + 1 by {
        if i < a.len() {
            assert(s[i] == a[i]);
        } else {
            assert(s[i] == b[i - a.len()]);
        }
    }
}

/// The base, Five Directions Legend and Hero Schools formations form one family.
proof fn lemma_plain_block()
    ensures
        block_ok(base_spec_table() + five_directions_table() + hero_formation_table(), 0),
{
    reveal_strlit("metal-strike");
    reveal_strlit("wood-strike");
    reveal_strlit("water-strike");
    reveal_strlit("fire-strike");
    reveal_strlit("earth-strike");
    reveal_strlit("weapon");
    reveal_strlit("defense");
    reveal_strlit("seal");
    reveal_strlit("countershock");
    reveal_strlit("metamorphosis");
    reveal_strlit("empty-city");
    reveal_strlit("triple-metal");
    reveal_strlit("triple-wood");
    reveal_strlit("triple-water");
    reveal_strlit("triple-fire");
    reveal_strlit("triple-earth");
    reveal_strlit("generating-formation");
    reveal_strlit("overcoming-formation");
    reveal_strlit("radiance");
    reveal_strlit("barrier");
    reveal_strlit("return-to-origin");
    reveal_strlit("shock-burst");
    reveal_strlit("chaos");
    reveal_strlit("five-elements-cycle");
    reveal_strlit("five-streams-unite");
    reveal_strlit("east-azure-dragon");
    reveal_strlit("west-white-tiger");
    reveal_strlit("south-vermilion-bird");
    reveal_strlit("north-black-tortoise");
    reveal_strlit("center-yellow-serpent");
    reveal_strlit("void-meridian-severing");
    reveal_strlit("divine-weapon");
    reveal_strlit("falling-light-slash");
    reveal_strlit("dao-defense");
    reveal_strlit("reincarnation");
    reveal_strlit("magic-seal");
    reveal_strlit("purple-light-shield");
    reveal_strlit("magic-shock");
    reveal_strlit("magic-reflection-flash");
    reveal_strlit("shadow-assault");
    reveal_strlit("instant-shadow-death");
    reveal_strlit("condensed-void-arrow");
    reveal_strlit("sky-bow-roar");
    reveal_strlit("holy-light-break");
    reveal_strlit("holy-wind");
    reveal_strlit("void-reversion");
    let t = base_spec_table() + five_directions_table() + hero_formation_table();
    assert forall|a: int, b: int| 0 <= a < b < t.len() implies (#[trigger] t[a].formation).id
        != (#[trigger] t[b].formation).id by {
        if t[a].formation.id == t[b].formation.id {
            assert(t[a].formation.id.len() == t[b].formation.id.len());
            assert(t[a].formation.id[0] == t[b].formation.id[0]);
            assert(t[a].formation.id[7] == t[b].formation.id[7]);
            assert(t[a].formation.id[8] == t[b].formation.id[8]);
            assert(t[a].formation.id[11] == t[b].formation.id[11]);
            assert(t[a].formation.id[12] == t[b].formation.id[12]);
        }
    }
    assert forall|i: int| 0 <= i < t.len() implies id_class((#[trigger] t[i].formation).id) == 0 by {}
    assert forall|i: int| 0 <= i < t.len() implies (#[trigger] t[i]).effect.id == t[i].formation.effect_id by {}
}
/// The Jianghu formations form one family.
proof fn lemma_jianghu_block()
    ensures
        block_ok(jianghu_formation_table(), 1),
{
    reveal_strlit("jianghu:thousand-blades-sword-art");
    reveal_strlit("jianghu:snow-treading-sword-art");
    reveal_strlit("jianghu:flowing-shadow-remnant-light-sword");
    reveal_strlit("jianghu:thousand-blades-flying-feather");
    reveal_strlit("jianghu:snow-treading-reflected-moon");
    reveal_strlit("jianghu:flowing-shadow-cloud-breaking-sword");
    reveal_strlit("jianghu:water-dotting-fan");
    reveal_strlit("jianghu:wind-riding-fan");
    reveal_strlit("jianghu:fan-beyond-heaven");
    reveal_strlit("jianghu:poison-dart");
    reveal_strlit("jianghu:poison-smoke");
    reveal_strlit("jianghu:thousand-poison-hand");
    reveal_strlit("jianghu:lingering-frost-hand");
    reveal_strlit("jianghu:king-yama-decree");
    let t = jianghu_formation_table();
    assert forall|a: int, b: int| 0 <= a < b < t.len() implies (#[trigger] t[a].formation).id
        != (#[trigger] t[b].formation).id by {
        if t[a].formation.id == t[b].formation.id {
            assert(t[a].formation.id.len() == t[b].formation.id.len());
            assert(t[a].formation.id[0] == t[b].formation.id[0]);
            assert(t[a].formation.id[7] == t[b].formation.id[7]);
            assert(t[a].formation.id[8] == t[b].formation.id[8]);
            assert(t[a].formation.id[11] == t[b].formation.id[11]);
            assert(t[a].formation.id[12] == t[b].formation.id[12]);
        }
    }
    assert forall|i: int| 0 <= i < t.len() implies id_class((#[trigger] t[i].formation).id) == 1 by {}
    assert forall|i: int| 0 <= i < t.len() implies (#[trigger] t[i]).effect.id == t[i].formation.effect_id by {}
}
/// The Confluence formations form one family.
proof fn lemma_confluence_block()
    ensures
        block_ok(confluence_formation_table(), 2),
{
    reveal_strlit("confluence:mirror-resonance");
    reveal_strlit("confluence:forest-resonance");
    reveal_strlit("confluence:stream-resonance");
    reveal_strlit("confluence:blaze-resonance");
    reveal_strlit("confluence:earth-resonance");
    reveal_strlit("confluence:thousand-resonance");
    reveal_strlit("confluence:myriad-resonance");
    reveal_strlit("confluence:imprisoning-array");
    reveal_strlit("confluence:endless-array");
    reveal_strlit("confluence:wind-dance");
    reveal_strlit("confluence:clear-wind-ten-thousand-miles");
    reveal_strlit("confluence:void-barrier");
    reveal_strlit("confluence:void-return-to-nothing");
    let t = confluence_formation_table();
    assert forall|a: int, b: int| 0 <= a < b < t.len() implies (#[trigger] t[a].formation).id
        != (#[trigger] t[b].formation).id by {
        if t[a].formation.id == t[b].formation.id {
            assert(t[a].formation.id.len() == t[b].formation.id.len());
            assert(t[a].formation.id[0] == t[b].formation.id[0]);
            assert(t[a].formation.id[7] == t[b].formation.id[7]);
            assert(t[a].formation.id[8] == t[b].formation.id[8]);
            assert(t[a].formation.id[11] == t[b].formation.id[11]);
            assert(t[a].formation.id[12] == t[b].formation.id[12]);
        }
    }
    assert forall|i: int| 0 <= i < t.len() implies id_class((#[trigger] t[i].formation).id) == 2 by {}
    assert forall|i: int| 0 <= i < t.len() implies (#[trigger] t[i]).effect.id == t[i].formation.effect_id by {}
}
/// The Dark Glimmer formations form one family.
proof fn lemma_dark_block()
    ensures
        block_ok(dark_formation_table(), 3),
{
    reveal_strlit("dark:dark-radiance");
    reveal_strlit("dark:dark-barrier");
    reveal_strlit("dark:dark-return-to-origin");
    reveal_strlit("dark:dark-shock-burst");
    reveal_strlit("dark:dark-chaos");
    reveal_strlit("dark:dark-cycle");
    reveal_strlit("dark:afterimage-slash");
    reveal_strlit("dark:berserk-afterimage-slash");
    reveal_strlit("dark:evil-spirit-summoning");
    reveal_strlit("dark:death-spirit-summoning");
    let t = dark_formation_table();
    assert forall|a: int, b: int| 0 <= a < b < t.len() implies (#[trigger] t[a].formation).id
        != (#[trigger] t[b].formation).id by {
        if t[a].formation.id == t[b].formation.id {
            assert(t[a].formation.id.len() == t[b].formation.id.len());
            assert(t[a].formation.id[0] == t[b].formation.id[0]);
            assert(t[a].formation.id[7] == t[b].formation.id[7]);
            assert(t[a].formation.id[8] == t[b].formation.id[8]);
            assert(t[a].formation.id[11] == t[b].formation.id[11]);
            assert(t[a].formation.id[12] == t[b].formation.id[12]);
        }
    }
    assert forall|i: int| 0 <= i < t.len() implies id_class((#[trigger] t[i].formation).id) == 3 by {}
    assert forall|i: int| 0 <= i < t.len() implies (#[trigger] t[i]).effect.id == t[i].formation.effect_id by {}
}
/// The Echo formations form one family.
proof fn lemma_echo_block()
    ensures
        block_ok(echo_formation_table(), 4),
{
    reveal_strlit("echo:ringing-metal");
    reveal_strlit("echo:pure-fire");
    reveal_strlit("echo:plant-earth");
    reveal_strlit("echo:falling-wood");
    reveal_strlit("echo:flowing-water");
    reveal_strlit("echo:war-fire");
    reveal_strlit("echo:split-earth");
    let t = echo_formation_table();
    assert forall|a: int, b: int| 0 <= a < b < t.len() implies (#[trigger] t[a].formation).id
        != (#[trigger] t[b].formation).id by {
        if t[a].formation.id == t[b].formation.id {
            assert(t[a].formation.id.len() == t[b].formation.id.len());
            assert(t[a].formation.id[0] == t[b].formation.id[0]);
            assert(t[a].formation.id[7] == t[b].formation.id[7]);
            assert(t[a].formation.id[8] == t[b].formation.id[8]);
            assert(t[a].formation.id[11] == t[b].formation.id[11]);
            assert(t[a].formation.id[12] == t[b].formation.id[12]);
        }
    }
    assert forall|i: int| 0 <= i < t.len() implies id_class((#[trigger] t[i].formation).id) == 4 by {}
    assert forall|i: int| 0 <= i < t.len() implies (#[trigger] t[i]).effect.id == t[i].formation.effect_id by {}
}
proof fn lemma_default_module_groups()
    ensures
        official_ids().filter_map(
            |id: Seq<char>|
                match module_formation_table(id) {
                    Some(t) => Some((Some(id), t)),
                    None => None,
                },
        ) == seq![
            (Some(official_ids()[3]), five_directions_table()),
            (Some(official_ids()[5]), hero_formation_table()),
            (Some(official_ids()[7]), jianghu_formation_table()),
            (Some(official_ids()[8]), confluence_formation_table()),
            (Some(official_ids()[9]), dark_formation_table()),
            (Some(official_ids()[10]), echo_formation_table()),
        ],
{
    reveal_strlit("totem-formation");
    reveal_strlit("discard-retrieval");
    reveal_strlit("personal-deck");
    reveal_strlit("five-directions-legend");
    reveal_strlit("star");
    reveal_strlit("hero-schools");
    reveal_strlit("spirit");
    reveal_strlit("jianghu");
    reveal_strlit("confluence-generation");
    reveal_strlit("dark-glimmer");
    reveal_strlit("echo");
    reveal_strlit("tribulation");
    reveal_strlit("pouch");
    let m = official_ids();
    let f = |id: Seq<char>|
        match module_formation_table(id) {
            Some(t) => Some((Some(id), t)),
            None => None,
        };
    assert(m.len() == 13);
    assert(m.take(0).filter_map(f) =~= Seq::<GroupView>::empty());
    assert(m[0] == crate::rules::official::official_module_table()[0].id);
    assert(module_formation_table(m[0]) is None);
    m.lemma_filter_map_take_succ(f, 0);
    assert(m[1] == crate::rules::official::official_module_table()[1].id);
    assert(module_formation_table(m[1]) is None);
    m.lemma_filter_map_take_succ(f, 1);
    assert(m[2] == crate::rules::official::official_module_table()[2].id);
    assert(module_formation_table(m[2]) is None);
    m.lemma_filter_map_take_succ(f, 2);
    assert(m[3] == crate::rules::official::official_module_table()[3].id);
    assert(module_formation_table(m[3]) == Some(five_directions_table()));
    m.lemma_filter_map_take_succ(f, 3);
    assert(m[4] == crate::rules::official::official_module_table()[4].id);
    assert(m[4][0] != crate::domain::ECHO_MODULE_ID@[0]);
    assert(module_formation_table(m[4]) is None);
    m.lemma_filter_map_take_succ(f, 4);
    assert(m[5] == crate::rules::official::official_module_table()[5].id);
    assert(module_formation_table(m[5]) == Some(hero_formation_table()));
    m.lemma_filter_map_take_succ(f, 5);
    assert(m[6] == crate::rules::official::official_module_table()[6].id);
    assert(module_formation_table(m[6]) is None);
    m.lemma_filter_map_take_succ(f, 6);
    assert(m[7] == crate::rules::official::official_module_table()[7].id);
    assert(module_formation_table(m[7]) == Some(crate::rules::jianghu::jianghu_formation_table()));
    m.lemma_filter_map_take_succ(f, 7);
    assert(m[8] == crate::rules::official::official_module_table()[8].id);
    assert(module_formation_table(m[8]) == Some(confluence_formation_table()));
    m.lemma_filter_map_take_succ(f, 8);
    assert(m[9] == crate::rules::official::official_module_table()[9].id);
    assert(m[9][0] != crate::domain::HERO_SCHOOLS_MODULE_ID@[0]);
    assert(module_formation_table(m[9]) == Some(dark_formation_table()));
    m.lemma_filter_map_take_succ(f, 9);
    assert(m[10] == crate::rules::official::official_module_table()[10].id);
    assert(module_formation_table(m[10]) == Some(echo_formation_table()));
    m.lemma_filter_map_take_succ(f, 10);
    assert(m[11] == crate::rules::official::official_module_table()[11].id);
    assert(module_formation_table(m[11]) is None);
    m.lemma_filter_map_take_succ(f, 11);
    assert(m[12] == crate::rules::official::official_module_table()[12].id);
    assert(module_formation_table(m[12]) is None);
    m.lemma_filter_map_take_succ(f, 12);
    assert(m.take(13) =~= m);
    assert(m.filter_map(f) =~= seq![
        (Some(m[3]), five_directions_table()),
        (Some(m[5]), hero_formation_table()),
        (Some(m[7]), jianghu_formation_table()),
        (Some(m[8]), confluence_formation_table()),
        (Some(m[9]), dark_formation_table()),
        (Some(m[10]), echo_formation_table()),
    ]);
}

proof fn lemma_flat_seven(g: Seq<GroupView>)
    requires
        g.len() == 7,
    ensures
        flat_specs(g) == g[0].1 + g[1].1 + g[2].1 + g[3].1 + g[4].1 + g[5].1 + g[6].1,
{
    assert(flat_specs(g.take(0)) =~= Seq::<SpecView>::empty());
    assert(flat_specs(g.take(1)) == flat_specs(g.take(0)) + g[0].1) by {
        assert(g.take(1).drop_last() =~= g.take(0));
        assert(g.take(1).last() == g[0]);
    }
    assert(flat_specs(g.take(2)) == flat_specs(g.take(1)) + g[1].1) by {
        assert(g.take(2).drop_last() =~= g.take(1));
        assert(g.take(2).last() == g[1]);
    }
    assert(flat_specs(g.take(3)) == flat_specs(g.take(2)) + g[2].1) by {
        assert(g.take(3).drop_last() =~= g.take(2));
        assert(g.take(3).last() == g[2]);
    }
    assert(flat_specs(g.take(4)) == flat_specs(g.take(3)) + g[3].1) by {
        assert(g.take(4).drop_last() =~= g.take(3));
        assert(g.take(4).last() == g[3]);
    }
    assert(flat_specs(g.take(5)) == flat_specs(g.take(4)) + g[4].1) by {
        assert(g.take(5).drop_last() =~= g.take(4));
        assert(g.take(5).last() == g[4]);
    }
    assert(flat_specs(g.take(6)) == flat_specs(g.take(5)) + g[5].1) by {
        assert(g.take(6).drop_last() =~= g.take(5));
        assert(g.take(6).last() == g[5]);
    }
    assert(flat_specs(g.take(7)) == flat_specs(g.take(6)) + g[6].1) by {
        assert(g.take(7).drop_last() =~= g.take(6));
        assert(g.take(7).last() == g[6]);
    }
    assert(g.take(7) =~= g);
    assert(flat_specs(g.take(0)) + g[0].1 =~= g[0].1);
}

/// The formation groups of the default modules, flattened: the base, Five Directions
/// Legend, Hero Schools, Jianghu, Confluence, Dark Glimmer and Echo formations, in that
/// order.
proof fn lemma_default_flat()
    ensures
        flat_specs(spec_groups(default_module_ids(RuleVersion::Current))) == base_spec_table()
            + five_directions_table() + hero_formation_table() + jianghu_formation_table()
            + confluence_formation_table() + dark_formation_table() + echo_formation_table(),
{
    crate::rules::official::lemma_default_ids_are_official_ids();
    lemma_default_module_groups();
    let g = spec_groups(official_ids());
    assert(g.len() == 7);
    assert(g[0].1 == base_spec_table());
    assert(g[1].1 == five_directions_table());
    assert(g[2].1 == hero_formation_table());
    assert(g[3].1 == jianghu_formation_table());
    assert(g[4].1 == confluence_formation_table());
    assert(g[5].1 == dark_formation_table());
    assert(g[6].1 == echo_formation_table());
    lemma_flat_seven(g);
}

/// The official formation table of the default modules registers consistently: no
/// identity occurs twice and every formation's effect is registered, so
/// `official_formation_registry` builds the registry for the default modules, and its
/// formation groups partition that registry.
pub proof fn lemma_default_table_consistent()
    ensures
        table_consistent(flat_specs(spec_groups(default_module_ids(RuleVersion::Current)))),
{
    lemma_default_flat();
    lemma_plain_block();
    lemma_jianghu_block();
    lemma_confluence_block();
    lemma_dark_block();
    lemma_echo_block();
    let p = base_spec_table() + five_directions_table() + hero_formation_table();
    assert forall|i: int| 0 <= i < p.len() implies id_class((#[trigger] p[i].formation).id) < 1 by {}
    lemma_append_block(p, jianghu_formation_table(), 1);
    let pj = p + jianghu_formation_table();
    lemma_append_block(pj, confluence_formation_table(), 2);
    let pjc = pj + confluence_formation_table();
    lemma_append_block(pjc, dark_formation_table(), 3);
    let pjcd = pjc + dark_formation_table();
    lemma_append_block(pjcd, echo_formation_table(), 4);
    let t = pjcd + echo_formation_table();
    assert forall|i: int| 0 <= i < t.len() implies table_has_effect(t, #[trigger] t[i].formation.effect_id) by {
        assert(t[i].effect.id == t[i].formation.effect_id);
    }
    assert(table_ids_distinct(t));
    assert(table_effects_listed(t));
}

} // verus!
