//! The base ruleset's setup: the official game setup, personal decks, the
//! official deck order and the card labels.
use crate::domain::{
    PERSONAL_DECK_MODULE_ID, POUCH_MODULE_ID, copy_cards, module_enabled, EngineInvariantError, StatusDuration, StatusExpiryTiming, TurnDrawSkipReason,
    BASE_RULESET_ID, CardDef, CardInstanceDef, CardInstanceId, CardOrigin, GameError, GameSetup,
    Player, PlayerDeckList, PlayerId, RuleVersion, RulesetId, TeamHp, TeamId, ValidationError,
    str_eq,
};
use crate::rules::deck_composition::{
    DeckComposition, PRECONSTRUCTED_DECK_NAME, deck_fits, deck_issues, def_id,
    def_matches, is_resolution, preconstructed_ids, shared_instance_defs,
};
use vstd::prelude::*;

verus! {

broadcast use vstd::seq_lib::group_to_multiset_ensures;

// ---------------------------------------------------------------------------
// Teams and their life totals.
// ---------------------------------------------------------------------------

/// The player at `i` plays for a team of an earlier player.
pub open spec fn team_seen_before(players: Seq<Player>, i: int) -> bool {
    exists|j: int| 0 <= j < i && #[trigger] players[j].team@ == players[i].team@
}

/// The teams of the first `n` players, each once, in order of first appearance.
pub open spec fn team_order(players: Seq<Player>, n: int) -> Seq<Seq<char>>
    decreases n,
{
    if n <= 0 {
        seq![]
    } else if team_seen_before(players, n - 1) {
        team_order(players, n - 1)
    } else {
        team_order(players, n - 1).push(players[n - 1].team@)
    }
}

/// The teams of the players, each once, in order of first appearance.
pub open spec fn teams_of(players: Seq<Player>) -> Seq<Seq<char>> {
    team_order(players, players.len() as int)
}

/// The life totals of a setup, as team and amount.
pub open spec fn hp_views(hp: Seq<TeamHp>) -> Seq<(Seq<char>, int)> {
    hp.map_values(|t: TeamHp| (t.team@, t.hp as int))
}

/// Every team of the players starts with `hp`.
pub open spec fn team_hp_table(players: Seq<Player>, hp: int) -> Seq<(Seq<char>, int)> {
    teams_of(players).map_values(|t: Seq<char>| (t, hp))
}

fn team_hp_for(players: &Vec<Player>, hp: i32) -> (r: Vec<TeamHp>)
    ensures
        hp_views(r@) == team_hp_table(players@, hp as int),
{
    let mut r: Vec<TeamHp> = Vec::new();
    let mut i: usize = 0;
    while i < players.len()
        invariant
            i <= players.len(),
            hp_views(r@) == team_order(players@, i as int).map_values(
                |t: Seq<char>| (t, hp as int),
            ),
        decreases players.len() - i,
    {
        let mut seen = false;
        let mut j: usize = 0;
        while j < i
            invariant
                j <= i < players.len(),
                seen == exists|k: int| 0 <= k < j && #[trigger] players@[k].team@ == players@[i as int].team@,
            decreases i - j,
        {
            if players[j].team.same(&players[i].team) {
                seen = true;
            }
            j = j + 1;
        }
        assert(seen == team_seen_before(players@, i as int));
        let ghost before = r@;
        if !seen {
            let team = players[i].team.clone();
            assert(team@ == players@[i as int].team@);
            r.push(TeamHp { team, hp });
            assert(hp_views(r@) =~= hp_views(before).push((players@[i as int].team@, hp as int)));
        }
        assert(hp_views(r@) =~= team_order(players@, i as int + 1).map_values(
            |t: Seq<char>| (t, hp as int),
        ));
        i = i + 1;
    }
    r
}

// ---------------------------------------------------------------------------
// The official game setup.
// ---------------------------------------------------------------------------

/// The shared supply of the official game: ninety card instances numbered from one, in
/// catalog order.
pub open spec fn is_shared_supply(instances: Seq<CardInstanceDef>) -> bool {
    &&& instances.len() == shared_instance_defs(25).len()
    &&& forall|i: int|
        0 <= i < instances.len() ==> {
            &&& (#[trigger] instances[i]).instance.0 == i + 1
            &&& instances[i].definition@ == def_id(shared_instance_defs(25)[i])
            &&& instances[i].origin == CardOrigin::Shared
        }
}

/// The twenty-five official definitions, in catalog order.
pub open spec fn is_official_definitions(defs: Seq<CardDef>) -> bool {
    defs.len() == 25 && forall|k: int| 0 <= k < 25 ==> def_matches(#[trigger] defs[k], k)
}

/// The official setup for the players and turn order, every team starting with `hp`:
/// the base ruleset, no module, the official definitions and shared supply, hands of five
/// and draws of two.
pub open spec fn is_official_setup(
    s: GameSetup,
    players: Seq<Player>,
    turn_order: Seq<PlayerId>,
    hp: int,
) -> bool {
    &&& s.ruleset@ == BASE_RULESET_ID@
    &&& s.rule_version == RuleVersion::Current
    &&& s.enabled_rule_modules@.len() == 0
    &&& s.players@ == players
    &&& s.turn_order@ == turn_order
    &&& hp_views(s.hp@) == team_hp_table(players, hp)
    &&& is_official_definitions(s.card_defs@)
    &&& is_shared_supply(s.card_instances@)
    &&& s.deck_lists@.len() == 0
    &&& s.hand_limit == 5
    &&& s.base_draw == 2
}

/// The official setup with every team starting at `hp`.
pub fn official_game_setup_with_hp(players: Vec<Player>, turn_order: Vec<PlayerId>, hp: i32) -> (r:
    GameSetup)
    ensures
        is_official_setup(r, players@, turn_order@, hp as int),
{
    let team_hp = team_hp_for(&players, hp);
    GameSetup {
        ruleset: RulesetId::base(),
        rule_version: RuleVersion::Current,
        enabled_rule_modules: Vec::new(),
        players,
        turn_order,
        hp: team_hp,
        card_defs: DeckComposition.official_card_defs(),
        card_instances: DeckComposition.official_card_instances(),
        deck_lists: Vec::new(),
        hand_limit: 5,
        base_draw: 2,
    }
}

// ---------------------------------------------------------------------------
// Personal decks.
// ---------------------------------------------------------------------------

/// The view of a deck list.
pub type DeckView = (Seq<char>, Seq<char>, Seq<Seq<char>>);

/// The first requested deck, from position `k` on, of the player.
pub open spec fn first_request_from(requested: Seq<PlayerDeckList>, player: Seq<char>, k: int) -> Option<
    DeckView,
>
    decreases requested.len() - k,
{
    if k < 0 || k >= requested.len() {
        None
    } else if requested[k].player@ == player {
        Some(requested[k]@)
    } else {
        first_request_from(requested, player, k + 1)
    }
}

/// The deck a player plays with: their first requested deck when it has no issue, and the
/// preconstructed deck otherwise.
pub open spec fn personal_deck_of(requested: Seq<PlayerDeckList>, player: Seq<char>) -> DeckView {
    match first_request_from(requested, player, 0) {
        Some(d) => if deck_issues(player, d).len() == 0 {
            d
        } else {
            (player, PRECONSTRUCTED_DECK_NAME@, preconstructed_ids(25))
        },
        None => (player, PRECONSTRUCTED_DECK_NAME@, preconstructed_ids(25)),
    }
}

/// The decks of the players, in seating order.
pub open spec fn personal_decks(players: Seq<Player>, requested: Seq<PlayerDeckList>) -> Seq<
    DeckView,
> {
    players.map_values(|p: Player| personal_deck_of(requested, p.id@))
}

/// The cards of the decks, one after another, each with its deck's owner.
pub open spec fn deck_cards(decks: Seq<DeckView>) -> Seq<(Seq<char>, Seq<char>)>
    decreases decks.len(),
{
    if decks.len() == 0 {
        seq![]
    } else {
        deck_cards(decks.drop_last()) + decks.last().2.map_values(
            |c: Seq<char>| (c, decks.last().0),
        )
    }
}

/// The personal card instances of the decks: numbered from one, each printing its card
/// and owned by its deck's player.
pub open spec fn is_personal_supply(instances: Seq<CardInstanceDef>, decks: Seq<DeckView>) -> bool {
    &&& instances.len() == deck_cards(decks).len()
    &&& forall|i: int|
        0 <= i < instances.len() ==> {
            &&& (#[trigger] instances[i]).instance.0 == i + 1
            &&& instances[i].definition@ == deck_cards(decks)[i].0
            &&& instances[i].origin matches CardOrigin::Player(p) && p@ == deck_cards(decks)[i].1
        }
}

/// The deck lists of a setup, by view.
pub open spec fn deck_views(decks: Seq<PlayerDeckList>) -> Seq<DeckView> {
    decks.map_values(|d: PlayerDeckList| d@)
}

fn find_request(requested: &Vec<PlayerDeckList>, player: &PlayerId) -> (r: Option<PlayerDeckList>)
    ensures
        crate::rules::deck_composition::deck_view(r) == first_request_from(requested@, player@, 0),
        r matches Some(d) ==> exists|k: int| 0 <= k < requested@.len() && requested@[k]@ == d@,
{
    let mut k: usize = 0;
    while k < requested.len()
        invariant
            k <= requested.len(),
            first_request_from(requested@, player@, 0) == first_request_from(
                requested@,
                player@,
                k as int,
            ),
        decreases requested.len() - k,
    {
        if requested[k].player.same(player) {
            let d = requested[k].clone();
            return Some(d);
        }
        k = k + 1;
    }
    None
}

proof fn lemma_deck_cards_len(decks: Seq<DeckView>, k: int)
    requires
        0 <= k < decks.len(),
    ensures
        deck_cards(decks.take(k + 1)) == deck_cards(decks.take(k)) + decks[k].2.map_values(
            |c: Seq<char>| (c, decks[k].0),
        ),
{
    assert(decks.take(k + 1).drop_last() =~= decks.take(k));
}

/// The most cards a resolved personal deck holds: a requested deck whose level total fits
/// a `u32`, or the preconstructed deck.
pub open spec fn deck_bound() -> int {
    u32::MAX / 5 + 60
}

fn resolve_decks(players: &Vec<Player>, requested: &Vec<PlayerDeckList>) -> (r: Vec<PlayerDeckList>)
    requires
        forall|k: int| 0 <= k < requested@.len() ==> deck_fits(#[trigger] requested@[k]@),
    ensures
        deck_views(r@) == personal_decks(players@, requested@),
        forall|k: int| 0 <= k < r@.len() ==> #[trigger] r@[k].cards@.len() <= deck_bound(),
{
    let ghost decks = personal_decks(players@, requested@);
    let mut deck_lists: Vec<PlayerDeckList> = Vec::new();
    let mut i: usize = 0;
    while i < players.len()
        invariant
            i <= players.len(),
            forall|k: int| 0 <= k < requested@.len() ==> deck_fits(#[trigger] requested@[k]@),
            decks == personal_decks(players@, requested@),
            deck_views(deck_lists@) == decks.take(i as int),
            forall|k: int| 0 <= k < deck_lists@.len() ==> #[trigger] deck_lists@[k].cards@.len() <= deck_bound(),
        decreases players.len() - i,
    {
        let candidate = find_request(requested, &players[i].id);
        proof {
            crate::rules::deck_composition::lemma_preconstructed_fits();
        }
        let resolved = DeckComposition.resolve(players[i].id.clone(), candidate);
        let effective = resolved.effective;
        assert(effective@ == decks[i as int]);
        assert(effective.cards@.len() == effective@.2.len());
        let ghost before = deck_lists@;
        deck_lists.push(effective);
        assert(deck_views(deck_lists@) =~= deck_views(before).push(decks[i as int]));
        assert(deck_views(deck_lists@) =~= decks.take(i as int + 1));
        i = i + 1;
    }
    assert(decks.take(decks.len() as int) =~= decks);
    deck_lists
}

fn number_instances(deck_lists: &Vec<PlayerDeckList>) -> (r: Vec<CardInstanceDef>)
    requires
        deck_lists@.len() <= u32::MAX,
        forall|k: int| 0 <= k < deck_lists@.len() ==> #[trigger] deck_lists@[k].cards@.len() <= deck_bound(),
    ensures
        is_personal_supply(r@, deck_views(deck_lists@)),
{
    let ghost decks = deck_views(deck_lists@);
    let mut card_instances: Vec<CardInstanceDef> = Vec::new();
    let mut next: u64 = 1;
    let mut d: usize = 0;
    while d < deck_lists.len()
        invariant
            d <= deck_lists.len(),
            deck_lists@.len() <= u32::MAX,
            forall|k: int| 0 <= k < deck_lists@.len() ==> #[trigger] deck_lists@[k].cards@.len() <= deck_bound(),
            decks == deck_views(deck_lists@),
            card_instances@.len() == deck_cards(decks.take(d as int)).len(),
            next == card_instances@.len() + 1,
            next <= d * deck_bound() + 1,
            forall|i: int|
                0 <= i < card_instances@.len() ==> {
                    &&& (#[trigger] card_instances@[i]).instance.0 == i + 1
                    &&& card_instances@[i].definition@ == deck_cards(decks.take(d as int))[i].0
                    &&& card_instances@[i].origin matches CardOrigin::Player(p) && p@
                        == deck_cards(decks.take(d as int))[i].1
                },
        decreases deck_lists.len() - d,
    {
        proof {
            lemma_deck_cards_len(decks, d as int);
        }
        let deck = &deck_lists[d];
        assert(deck@ == decks[d as int]);
        assert(deck.cards@.len() <= deck_bound());
        let ghost before = deck_cards(decks.take(d as int));
        let ghost after = deck_cards(decks.take(d as int + 1));
        let mut c: usize = 0;
        while c < deck.cards.len()
            invariant
                c <= deck.cards.len(),
                d < deck_lists@.len() <= u32::MAX,
                deck.cards@.len() <= deck_bound(),
                after == before + decks[d as int].2.map_values(
                    |x: Seq<char>| (x, decks[d as int].0),
                ),
                decks[d as int] == deck@,
                card_instances@.len() == before.len() + c,
                next == card_instances@.len() + 1,
                next <= d * deck_bound() + c + 1,
                forall|i: int|
                    0 <= i < card_instances@.len() ==> {
                        &&& (#[trigger] card_instances@[i]).instance.0 == i + 1
                        &&& card_instances@[i].definition@ == after[i].0
                        &&& card_instances@[i].origin matches CardOrigin::Player(p) && p@
                            == after[i].1
                    },
            decreases deck.cards.len() - c,
        {
            assert(d * deck_bound() + c + 1 <= u32::MAX * deck_bound() + deck_bound()) by (nonlinear_arith)
                requires
                    d < u32::MAX,
                    c < deck_bound(),
                    deck_bound() > 0,
            ;
            card_instances.push(
                CardInstanceDef {
                    instance: CardInstanceId::new(next),
                    definition: deck.cards[c].clone(),
                    origin: CardOrigin::Player(deck.player.clone()),
                },
            );
            next = next + 1;
            c = c + 1;
        }
        assert(d * deck_bound() + deck.cards@.len() <= (d + 1) * deck_bound()) by (nonlinear_arith)
            requires
                deck.cards@.len() <= deck_bound(),
        ;
        d = d + 1;
    }
    assert(decks.take(decks.len() as int) =~= decks);
    card_instances
}

/// Gives every player a personal deck (their first valid requested deck, or the
/// preconstructed deck) and replaces the card instances by the personal decks' cards.
fn personal_decks_into(setup: &mut GameSetup, requested: Vec<PlayerDeckList>)
    requires
        forall|k: int| 0 <= k < requested@.len() ==> deck_fits(#[trigger] requested@[k]@),
        old(setup).players@.len() <= u32::MAX,
    ensures
        final(setup).ruleset == old(setup).ruleset,
        final(setup).rule_version == old(setup).rule_version,
        final(setup).enabled_rule_modules == old(setup).enabled_rule_modules,
        final(setup).players == old(setup).players,
        final(setup).turn_order == old(setup).turn_order,
        final(setup).hp == old(setup).hp,
        final(setup).card_defs == old(setup).card_defs,
        final(setup).hand_limit == old(setup).hand_limit,
        final(setup).base_draw == old(setup).base_draw,
        deck_views(final(setup).deck_lists@) == personal_decks(old(setup).players@, requested@),
        is_personal_supply(
            final(setup).card_instances@,
            personal_decks(old(setup).players@, requested@),
        ),
{
    let deck_lists = resolve_decks(&setup.players, &requested);
    assert(deck_views(deck_lists@).len() == deck_lists@.len());
    let card_instances = number_instances(&deck_lists);
    setup.deck_lists = deck_lists;
    setup.card_instances = card_instances;
}

// ---------------------------------------------------------------------------
// The official deck order and the card labels.
// ---------------------------------------------------------------------------

/// The instance identities of card instances, in order.
pub open spec fn instance_ids(instances: Seq<CardInstanceDef>) -> Seq<CardInstanceId> {
    instances.map_values(|c: CardInstanceDef| c.instance)
}

/// Card instance identities in increasing order of serial.
pub open spec fn sorted_ids(s: Seq<CardInstanceId>) -> bool {
    forall|i: int, j: int| 0 <= i < j < s.len() ==> s[i].0 <= s[j].0
}

/// The official deck order: every card instance of the setup, by increasing serial.
fn sorted_instances(setup: &GameSetup) -> (r: Vec<CardInstanceId>)
    ensures
        sorted_ids(r@),
        r@.to_multiset() == instance_ids(setup.card_instances@).to_multiset(),
{
    let ghost ids = instance_ids(setup.card_instances@);
    let mut r: Vec<CardInstanceId> = Vec::new();
    let mut i: usize = 0;
    while i < setup.card_instances.len()
        invariant
            i <= setup.card_instances.len(),
            ids == instance_ids(setup.card_instances@),
            sorted_ids(r@),
            r@.to_multiset() == ids.take(i as int).to_multiset(),
        decreases setup.card_instances.len() - i,
    {
        let x = setup.card_instances[i].instance;
        let mut p: usize = 0;
        while p < r.len() && r[p].0 <= x.0
            invariant
                p <= r.len(),
                sorted_ids(r@),
                forall|k: int| 0 <= k < p ==> r@[k].0 <= x.0,
            decreases r.len() - p,
        {
            p = p + 1;
        }
        let ghost before = r@;
        r.insert(p, x);
        proof {
            assert(ids.take(i as int + 1) =~= ids.take(i as int).push(x));
            assert(r@ == before.insert(p as int, x));
            assert forall|a: int, b: int| 0 <= a < b < r@.len() implies r@[a].0 <= r@[b].0 by {
                if b < p {
                } else if b == p {
                    assert(r@[a] == before[a]);
                } else if a < p {
                    assert(r@[a] == before[a]);
                    assert(r@[b] == before[b - 1]);
                    assert(before[p as int].0 > x.0);
                } else if a == p {
                    assert(r@[b] == before[b - 1]);
                    assert(before[p as int].0 > x.0);
                } else {
                    assert(r@[a] == before[a - 1]);
                    assert(r@[b] == before[b - 1]);
                }
            }
        }
        i = i + 1;
    }
    assert(ids.take(ids.len() as int) =~= ids);
    r
}

/// The characters of a decimal digit.
pub open spec fn spec_digit(d: int) -> Seq<char> {
    if d == 0 {
        "0"@
    } else if d == 1 {
        "1"@
    } else if d == 2 {
        "2"@
    } else if d == 3 {
        "3"@
    } else if d == 4 {
        "4"@
    } else if d == 5 {
        "5"@
    } else if d == 6 {
        "6"@
    } else if d == 7 {
        "7"@
    } else if d == 8 {
        "8"@
    } else {
        "9"@
    }
}

/// The decimal digits of a number, most significant first.
pub open spec fn spec_decimal(n: nat) -> Seq<char>
    decreases n,
{
    if n < 10 {
        spec_digit(n as int)
    } else {
        spec_decimal(n / 10) + spec_digit((n % 10) as int)
    }
}

fn digit(d: u32) -> (r: &'static str)
    requires
        d < 10,
    ensures
        r@ == spec_digit(d as int),
{
    if d == 0 {
        "0"
    } else if d == 1 {
        "1"
    } else if d == 2 {
        "2"
    } else if d == 3 {
        "3"
    } else if d == 4 {
        "4"
    } else if d == 5 {
        "5"
    } else if d == 6 {
        "6"
    } else if d == 7 {
        "7"
    } else if d == 8 {
        "8"
    } else {
        "9"
    }
}

/// The decimal representation of a number.
pub fn decimal(n: u32) -> (r: String)
    ensures
        r@ == spec_decimal(n as nat),
    decreases n,
{
    if n < 10 {
        crate::domain::owned(digit(n))
    } else {
        decimal(n / 10).concat(digit(n % 10))
    }
}

/// The label of a card: its name, a space and its level.
pub open spec fn spec_label(d: CardDef) -> Seq<char> {
    d.name@ + " "@ + spec_decimal(d.level as nat)
}

/// The first definition, from position `k` on, with identity `id`.
pub open spec fn first_def_from(defs: Seq<CardDef>, id: Seq<char>, k: int) -> Option<int>
    decreases defs.len() - k,
{
    if k < 0 || k >= defs.len() {
        None
    } else if defs[k].id@ == id {
        Some(k)
    } else {
        first_def_from(defs, id, k + 1)
    }
}

/// The label of every card instance whose definition the setup knows, in order.
pub open spec fn spec_card_labels(setup: GameSetup) -> Seq<(CardInstanceId, Seq<char>)> {
    setup.card_instances@.filter_map(
        |c: CardInstanceDef|
            match first_def_from(setup.card_defs@, c.definition@, 0) {
                Some(k) => Some((c.instance, spec_label(setup.card_defs@[k]))),
                None => None,
            },
    )
}

/// The views of labelled cards.
pub open spec fn label_views(s: Seq<(CardInstanceId, String)>) -> Seq<(CardInstanceId, Seq<char>)> {
    s.map_values(|p: (CardInstanceId, String)| (p.0, p.1@))
}

fn find_def(defs: &Vec<CardDef>, id: &crate::domain::CardDefId) -> (r: Option<usize>)
    ensures
        match r {
            Some(k) => k < defs@.len() && first_def_from(defs@, id@, 0) == Some(k as int),
            None => first_def_from(defs@, id@, 0) is None,
        },
{
    let mut k: usize = 0;
    while k < defs.len()
        invariant
            k <= defs.len(),
            first_def_from(defs@, id@, 0) == first_def_from(defs@, id@, k as int),
        decreases defs.len() - k,
    {
        if defs[k].id.same(id) {
            return Some(k);
        }
        k = k + 1;
    }
    None
}

/// The label of every card instance whose definition the setup knows, in order.
/// No card instance serial appears twice among the instances.
pub open spec fn instances_distinct(s: Seq<CardInstanceDef>) -> bool {
    forall|i: int, j: int| 0 <= i < j < s.len() ==> s[i].instance != s[j].instance
}

/// No card instance is labelled twice.
pub open spec fn label_keys_distinct(s: Seq<(CardInstanceId, Seq<char>)>) -> bool {
    forall|i: int, j: int| 0 <= i < j < s.len() ==> s[i].0 != s[j].0
}

proof fn lemma_label_keys_distinct(
    s: Seq<CardInstanceDef>,
    f: spec_fn(CardInstanceDef) -> Option<(CardInstanceId, Seq<char>)>,
)
    requires
        instances_distinct(s),
        forall|c: CardInstanceDef| (#[trigger] f(c)) is Some ==> (f(c)->0).0 == c.instance,
    ensures
        label_keys_distinct(s.filter_map(f)),
        forall|i: int|
            0 <= i < s.filter_map(f).len() ==> exists|k: int|
                0 <= k < s.len() && #[trigger] s[k].instance == (#[trigger] s.filter_map(f)[i]).0,
    decreases s.len(),
{
    if s.len() > 0 {
        let rest = s.drop_last();
        assert forall|i: int, j: int| 0 <= i < j < rest.len() implies rest[i].instance
            != rest[j].instance by {
            assert(rest[i] == s[i] && rest[j] == s[j]);
        }
        lemma_label_keys_distinct(rest, f);
        let fm = s.filter_map(f);
        let rm = rest.filter_map(f);
        match f(s.last()) {
            Some(p) => {
                assert(fm == rm + seq![p]);
                assert forall|i: int, j: int| 0 <= i < j < fm.len() implies fm[i].0 != fm[j].0 by {
                    if j == fm.len() - 1 {
                        assert(fm[i] == rm[i]);
                        let k = choose|k: int| 0 <= k < rest.len() && #[trigger] rest[k].instance == (#[trigger] rm[i]).0;
                        assert(rest[k] == s[k]);
                        assert(s[k].instance != s[s.len() - 1].instance);
                    } else {
                        assert(fm[i] == rm[i] && fm[j] == rm[j]);
                    }
                }
                assert forall|i: int| 0 <= i < fm.len() implies exists|k: int|
                    0 <= k < s.len() && #[trigger] s[k].instance == (#[trigger] fm[i]).0 by {
                    if i == fm.len() - 1 {
                        assert(s[s.len() - 1].instance == fm[i].0);
                    } else {
                        assert(fm[i] == rm[i]);
                        let k = choose|k: int| 0 <= k < rest.len() && #[trigger] rest[k].instance == (#[trigger] rm[i]).0;
                        assert(rest[k] == s[k]);
                    }
                }
            },
            None => {
                assert(fm == rm);
                assert forall|i: int| 0 <= i < fm.len() implies exists|k: int|
                    0 <= k < s.len() && #[trigger] s[k].instance == (#[trigger] fm[i]).0 by {
                    let k = choose|k: int| 0 <= k < rest.len() && #[trigger] rest[k].instance == (#[trigger] rm[i]).0;
                    assert(rest[k] == s[k]);
                }
            },
        }
    } else {
        assert(s.filter_map(f).len() == 0);
    }
}

fn labels_of(setup: &GameSetup) -> (r: Vec<(CardInstanceId, String)>)
    ensures
        label_views(r@) == spec_card_labels(*setup),
        instances_distinct(setup.card_instances@) ==> label_keys_distinct(label_views(r@)),
{
    let ghost instances = setup.card_instances@;
    let ghost f = |c: CardInstanceDef|
        match first_def_from(setup.card_defs@, c.definition@, 0) {
            Some(k) => Some((c.instance, spec_label(setup.card_defs@[k]))),
            None => None,
        };
    let mut r: Vec<(CardInstanceId, String)> = Vec::new();
    let mut i: usize = 0;
    while i < setup.card_instances.len()
        invariant
            i <= setup.card_instances.len(),
            instances == setup.card_instances@,
            f == (|c: CardInstanceDef|
                match first_def_from(setup.card_defs@, c.definition@, 0) {
                    Some(k) => Some((c.instance, spec_label(setup.card_defs@[k]))),
                    None => None,
                }),
            label_views(r@) == instances.take(i as int).filter_map(f),
        decreases setup.card_instances.len() - i,
    {
        proof {
            instances.lemma_filter_map_take_succ(f, i as int);
        }
        let instance = &setup.card_instances[i];
        match find_def(&setup.card_defs, &instance.definition) {
            Some(k) => {
                let d = &setup.card_defs[k];
                let label = d.name.clone().concat(" ").concat(decimal(d.level).as_str());
                r.push((instance.instance, label));
            },
            None => {},
        }
        assert(label_views(r@) =~= instances.take(i as int + 1).filter_map(f));
        i = i + 1;
    }
    assert(instances.take(instances.len() as int) =~= instances);
    proof {
        if instances_distinct(instances) {
            lemma_label_keys_distinct(instances, f);
        }
    }
    r
}

// ---------------------------------------------------------------------------
// The opening deal.
// ---------------------------------------------------------------------------

/// What the check of a deck order concludes, naming the offending card.
pub enum DeckOrderVerdict {
    Duplicate(CardInstanceId),
    Unknown(CardInstanceId),
    Accepted,
}

/// The card at `i` repeats an earlier one.
pub open spec fn repeats_card(order: Seq<CardInstanceId>, i: int) -> bool {
    exists|j: int| 0 <= j < i && order[j] == order[i]
}

/// The first card of the order, from position `i` on, that repeats an earlier one or has
/// no instance in the setup.
pub open spec fn deck_order_scan(
    order: Seq<CardInstanceId>,
    known: Seq<CardInstanceId>,
    i: int,
) -> DeckOrderVerdict
    decreases order.len() - i,
{
    if i < 0 || i >= order.len() {
        DeckOrderVerdict::Accepted
    } else if repeats_card(order, i) {
        DeckOrderVerdict::Duplicate(order[i])
    } else if !known.contains(order[i]) {
        DeckOrderVerdict::Unknown(order[i])
    } else {
        deck_order_scan(order, known, i + 1)
    }
}

fn knows_instance(instances: &Vec<CardInstanceDef>, card: CardInstanceId) -> (r: bool)
    ensures
        r == instance_ids(instances@).contains(card),
{
    let mut i: usize = 0;
    while i < instances.len()
        invariant
            i <= instances.len(),
            forall|j: int| 0 <= j < i ==> instances@[j].instance != card,
        decreases instances.len() - i,
    {
        if instances[i].instance == card {
            assert(instance_ids(instances@)[i as int] == card);
            return true;
        }
        i = i + 1;
    }
    assert forall|j: int| 0 <= j < instance_ids(instances@).len() implies instance_ids(instances@)[j] != card by {
        assert(instances@[j].instance != card);
    }
    false
}

/// Checks a deck order: each card once, each an instance of the setup.
#[verifier::loop_isolation(false)]
pub fn validate_card_instances(setup: &GameSetup, deck_order: &[CardInstanceId]) -> (r: Result<
    (),
    GameError,
>)
    ensures
        match deck_order_scan(deck_order@, instance_ids(setup.card_instances@), 0) {
            DeckOrderVerdict::Accepted => r is Ok,
            DeckOrderVerdict::Duplicate(c) => r == Err::<(), GameError>(
                GameError::Validation(ValidationError::DuplicateCard(c)),
            ),
            DeckOrderVerdict::Unknown(c) => r == Err::<(), GameError>(
                GameError::Validation(ValidationError::MissingCardInstanceDefinition(c)),
            ),
        },
{
    let ghost known = instance_ids(setup.card_instances@);
    let mut i: usize = 0;
    while i < deck_order.len()
        invariant
            i <= deck_order.len(),
            deck_order_scan(deck_order@, known, 0) == deck_order_scan(deck_order@, known, i as int),
        decreases deck_order.len() - i,
    {
        let card = deck_order[i];
        let mut j: usize = 0;
        while j < i
            invariant
                j <= i < deck_order.len(),
                card == deck_order@[i as int],
                forall|k: int| 0 <= k < j ==> deck_order@[k] != card,
            decreases i - j,
        {
            if deck_order[j] == card {
                assert(repeats_card(deck_order@, i as int));
                return Err(GameError::Validation(ValidationError::DuplicateCard(card)));
            }
            j = j + 1;
        }
        assert(!repeats_card(deck_order@, i as int));
        if !knows_instance(&setup.card_instances, card) {
            return Err(GameError::Validation(ValidationError::MissingCardInstanceDefinition(card)));
        }
        i = i + 1;
    }
    Ok(())
}

/// How many cards the opening deal hands out: four to the first player of the turn order
/// and five to each other player.
pub fn initial_deal_count(setup: &GameSetup) -> (r: usize)
    requires
        setup.turn_order@.len() * 5 <= usize::MAX,
    ensures
        r == if setup.turn_order@.len() == 0 {
            0
        } else {
            5 * setup.turn_order@.len() - 1
        },
{
    let mut count: usize = 0;
    let mut i: usize = 0;
    while i < setup.turn_order.len()
        invariant
            i <= setup.turn_order.len(),
            setup.turn_order@.len() * 5 <= usize::MAX,
            count == if i == 0 {
                0
            } else {
                5 * i - 1
            },
        decreases setup.turn_order.len() - i,
    {
        count = count + if i == 0 {
            4
        } else {
            5
        };
        i = i + 1;
    }
    count
}

// ---------------------------------------------------------------------------
// The base ruleset.
// ---------------------------------------------------------------------------

/// The base ruleset of CFECards.
#[derive(Clone, Copy, Debug, Default, PartialEq, Eq)]
pub struct BaseRuleset;

impl BaseRuleset {
    pub fn new() -> (r: Self)
        ensures
            r == BaseRuleset,
    {
        BaseRuleset
    }

    /// The identity of the base ruleset.
    pub fn id(&self) -> (r: RulesetId)
        ensures
            r@ == BASE_RULESET_ID@,
    {
        RulesetId::base()
    }

    /// The official setup for the players and turn order: every team starts with twenty
    /// life, with the official definitions and shared supply.
    pub fn official_game_setup(&self, players: Vec<Player>, turn_order: Vec<PlayerId>) -> (r:
        GameSetup)
        ensures
            is_official_setup(r, players@, turn_order@, 20),
    {
        official_game_setup_with_hp(players, turn_order, 20)
    }

    /// Gives every player a personal deck (their first valid requested deck, or the
    /// preconstructed deck) and replaces the card instances by the personal decks' cards.
    pub fn configure_personal_decks(&self, setup: &mut GameSetup, requested: Vec<PlayerDeckList>)
        requires
            forall|k: int| 0 <= k < requested@.len() ==> deck_fits(#[trigger] requested@[k]@),
            old(setup).players@.len() <= u32::MAX,
        ensures
            final(setup).ruleset == old(setup).ruleset,
            final(setup).rule_version == old(setup).rule_version,
            final(setup).enabled_rule_modules == old(setup).enabled_rule_modules,
            final(setup).players == old(setup).players,
            final(setup).turn_order == old(setup).turn_order,
            final(setup).hp == old(setup).hp,
            final(setup).card_defs == old(setup).card_defs,
            final(setup).hand_limit == old(setup).hand_limit,
            final(setup).base_draw == old(setup).base_draw,
            deck_views(final(setup).deck_lists@) == personal_decks(old(setup).players@, requested@),
            is_personal_supply(
                final(setup).card_instances@,
                personal_decks(old(setup).players@, requested@),
            ),
    {
        personal_decks_into(setup, requested)
    }

    /// The preconstructed personal deck for a player.
    pub fn preconstructed_deck(&self, player: PlayerId) -> (r: PlayerDeckList)
        ensures
            r@ == (player@, PRECONSTRUCTED_DECK_NAME@, preconstructed_ids(25)),
    {
        DeckComposition.preconstructed_deck(player)
    }

    /// The opening events of a game without the pouch module: the deck order must name
    /// each card instance once; then the deck is prepared and the opening hands dealt.
    /// The pouch module's opening is not part of this library.
    pub fn start_game(&self, setup: &GameSetup, deck_order: Vec<CardInstanceId>) -> (r: Result<
        Vec<StartEvent>,
        GameError,
    >)
        requires
            !module_enabled(setup.enabled_rule_modules@, POUCH_MODULE_ID@),
            setup.turn_order@.len() * 5 <= usize::MAX,
        ensures
            match deck_order_scan(deck_order@, instance_ids(setup.card_instances@), 0) {
                DeckOrderVerdict::Duplicate(c) => r == Err::<Vec<StartEvent>, GameError>(
                    GameError::Validation(ValidationError::DuplicateCard(c)),
                ),
                DeckOrderVerdict::Unknown(c) => r == Err::<Vec<StartEvent>, GameError>(
                    GameError::Validation(ValidationError::MissingCardInstanceDefinition(c)),
                ),
                DeckOrderVerdict::Accepted => match spec_initial_events(*setup, deck_order@) {
                    Ok(events) => r matches Ok(v) && start_event_views(v@) == events,
                    Err(e) => r == Err::<Vec<StartEvent>, GameError>(e),
                },
            },
    {
        match validate_card_instances(setup, deck_order.as_slice()) {
            Ok(()) => {},
            Err(e) => {
                return Err(e);
            },
        }
        initial_events(setup, &deck_order)
    }

    /// The official deck order: every card instance of the setup, by increasing serial.
    pub fn official_deck_order(&self, setup: &GameSetup) -> (r: Vec<CardInstanceId>)
        ensures
            sorted_ids(r@),
            r@.to_multiset() == instance_ids(setup.card_instances@).to_multiset(),
    {
        sorted_instances(setup)
    }

    /// The label of every card instance whose definition the setup knows, in order.
    pub fn card_labels(&self, setup: &GameSetup) -> (r: Vec<(CardInstanceId, String)>)
        ensures
            label_views(r@) == spec_card_labels(*setup),
            instances_distinct(setup.card_instances@) ==> label_keys_distinct(label_views(r@)),
    {
        labels_of(setup)
    }
}


// ---------------------------------------------------------------------------
// Turn order, engine invariants, statuses and the turn draw.
// ---------------------------------------------------------------------------

/// The first position, from `k` on, of the player in the turn order.
pub open spec fn position_from(order: Seq<PlayerId>, player: Seq<char>, k: int) -> Option<int>
    decreases order.len() - k,
{
    if k < 0 || k >= order.len() {
        None
    } else if order[k]@ == player {
        Some(k)
    } else {
        position_from(order, player, k + 1)
    }
}

/// The player seated before `player` in the turn order: the last one for the first
/// player; an unknown player is refused.
pub open spec fn spec_previous_player(order: Seq<PlayerId>, player: PlayerId) -> Result<
    PlayerId,
    GameError,
> {
    match position_from(order, player@, 0) {
        None => Err(GameError::Validation(ValidationError::UnknownPlayer(player))),
        Some(i) => Ok(
            if i == 0 {
                order[order.len() - 1]
            } else {
                order[i - 1]
            },
        ),
    }
}

proof fn lemma_position_from(order: Seq<PlayerId>, player: Seq<char>, k: int)
    requires
        0 <= k,
    ensures
        match position_from(order, player, k) {
            Some(i) => k <= i < order.len() && order[i]@ == player,
            None => forall|j: int| k <= j < order.len() ==> order[j]@ != player,
        },
    decreases order.len() - k,
{
    if k < order.len() && order[k]@ != player {
        lemma_position_from(order, player, k + 1);
    }
}

/// The player seated before `player` in the turn order.
pub fn previous_player(turn_order: &[PlayerId], player: &PlayerId) -> (r: Result<PlayerId, GameError>)
    ensures
        r == spec_previous_player(turn_order@, *player),
{
    proof {
        lemma_position_from(turn_order@, player@, 0);
    }
    let mut i: usize = 0;
    while i < turn_order.len()
        invariant
            i <= turn_order.len(),
            position_from(turn_order@, player@, 0) == position_from(turn_order@, player@, i as int),
        decreases turn_order.len() - i,
    {
        if turn_order[i].same(player) {
            let previous = if i == 0 {
                turn_order.len() - 1
            } else {
                i - 1
            };
            return Ok(turn_order[previous].clone());
        }
        i = i + 1;
    }
    Err(GameError::Validation(ValidationError::UnknownPlayer(player.clone())))
}

/// Some earlier entry, before position `i`, names the same player.
pub open spec fn owner_seen_before(owners: Seq<PlayerId>, i: int) -> bool {
    exists|j: int| 0 <= j < i && #[trigger] owners[j]@ == owners[i]@
}

/// The player is seated.
pub open spec fn is_seated(players: Seq<Player>, p: Seq<char>) -> bool {
    exists|j: int| 0 <= j < players.len() && #[trigger] players[j].id@ == p
}

/// The player owns one of the formation areas.
pub open spec fn owns_area(areas: Seq<PlayerId>, p: Seq<char>) -> bool {
    exists|j: int| 0 <= j < areas.len() && #[trigger] areas[j]@ == p
}

/// The first formation area, from `k` on, that belongs to no seated player or to a player
/// who already has one.
pub open spec fn bad_area_from(players: Seq<Player>, areas: Seq<PlayerId>, k: int) -> Option<int>
    decreases areas.len() - k,
{
    if k < 0 || k >= areas.len() {
        None
    } else if !is_seated(players, areas[k]@) || owner_seen_before(areas, k) {
        Some(k)
    } else {
        bad_area_from(players, areas, k + 1)
    }
}

/// The first seated player, from `k` on, without a formation area.
pub open spec fn arealess_from(players: Seq<Player>, areas: Seq<PlayerId>, k: int) -> Option<int>
    decreases players.len() - k,
{
    if k < 0 || k >= players.len() {
        None
    } else if !owns_area(areas, players[k].id@) {
        Some(k)
    } else {
        arealess_from(players, areas, k + 1)
    }
}

/// The first profession, from `k` on, of a player who already holds one.
pub open spec fn repeated_owner_from(owners: Seq<PlayerId>, k: int) -> Option<int>
    decreases owners.len() - k,
{
    if k < 0 || k >= owners.len() {
        None
    } else if owner_seen_before(owners, k) {
        Some(k)
    } else {
        repeated_owner_from(owners, k + 1)
    }
}

/// The engine invariants of a game: every formation area belongs to a distinct seated
/// player, every seated player has one, and no player holds two professions. The first
/// broken one is reported.
pub open spec fn spec_engine_invariants(
    players: Seq<Player>,
    areas: Seq<PlayerId>,
    professions: Seq<PlayerId>,
) -> Result<(), GameError> {
    match bad_area_from(players, areas, 0) {
        Some(k) => Err(
            GameError::EngineInvariant(EngineInvariantError::DuplicateFormationArea { player: areas[k] }),
        ),
        None => match arealess_from(players, areas, 0) {
            Some(k) => Err(
                GameError::EngineInvariant(
                    EngineInvariantError::FormationAreaMissing { player: players[k].id },
                ),
            ),
            None => match repeated_owner_from(professions, 0) {
                Some(k) => Err(
                    GameError::EngineInvariant(
                        EngineInvariantError::DuplicateProfession { player: professions[k] },
                    ),
                ),
                None => Ok(()),
            },
        },
    }
}

fn seen_before(owners: &[PlayerId], i: usize) -> (r: bool)
    requires
        i <= owners.len(),
    ensures
        i < owners.len() ==> r == owner_seen_before(owners@, i as int),
        i == owners.len() ==> true,
{
    if i == owners.len() {
        return false;
    }
    let mut j: usize = 0;
    while j < i
        invariant
            j <= i < owners.len(),
            forall|k: int| 0 <= k < j ==> owners@[k]@ != owners@[i as int]@,
        decreases i - j,
    {
        if owners[j].same(&owners[i]) {
            return true;
        }
        j = j + 1;
    }
    false
}

fn seated(players: &[Player], p: &PlayerId) -> (r: bool)
    ensures
        r == is_seated(players@, p@),
{
    let mut j: usize = 0;
    while j < players.len()
        invariant
            j <= players.len(),
            forall|k: int| 0 <= k < j ==> players@[k].id@ != p@,
        decreases players.len() - j,
    {
        if players[j].id.same(p) {
            return true;
        }
        j = j + 1;
    }
    false
}

fn has_area(areas: &[PlayerId], p: &PlayerId) -> (r: bool)
    ensures
        r == owns_area(areas@, p@),
{
    let mut j: usize = 0;
    while j < areas.len()
        invariant
            j <= areas.len(),
            forall|k: int| 0 <= k < j ==> areas@[k]@ != p@,
        decreases areas.len() - j,
    {
        if areas[j].same(p) {
            return true;
        }
        j = j + 1;
    }
    false
}

/// Checks the engine invariants of a game whose seated players are `players`, whose
/// formation areas belong to `area_owners` and whose professions are held by
/// `profession_owners`.
pub fn ensure_engine_invariants(
    players: &[Player],
    area_owners: &[PlayerId],
    profession_owners: &[PlayerId],
) -> (r: Result<(), GameError>)
    ensures
        r == spec_engine_invariants(players@, area_owners@, profession_owners@),
{
    let mut i: usize = 0;
    while i < area_owners.len()
        invariant
            i <= area_owners.len(),
            bad_area_from(players@, area_owners@, 0) == bad_area_from(players@, area_owners@, i as int),
        decreases area_owners.len() - i,
    {
        if !seated(players, &area_owners[i]) || seen_before(area_owners, i) {
            return Err(
                GameError::EngineInvariant(
                    EngineInvariantError::DuplicateFormationArea { player: area_owners[i].clone() },
                ),
            );
        }
        i = i + 1;
    }
    let mut p: usize = 0;
    while p < players.len()
        invariant
            p <= players.len(),
            bad_area_from(players@, area_owners@, 0) is None,
            arealess_from(players@, area_owners@, 0) == arealess_from(players@, area_owners@, p as int),
        decreases players.len() - p,
    {
        if !has_area(area_owners, &players[p].id) {
            return Err(
                GameError::EngineInvariant(
                    EngineInvariantError::FormationAreaMissing { player: players[p].id.clone() },
                ),
            );
        }
        p = p + 1;
    }
    let mut k: usize = 0;
    while k < profession_owners.len()
        invariant
            k <= profession_owners.len(),
            bad_area_from(players@, area_owners@, 0) is None,
            arealess_from(players@, area_owners@, 0) is None,
            repeated_owner_from(profession_owners@, 0) == repeated_owner_from(profession_owners@, k as int),
        decreases profession_owners.len() - k,
    {
        if seen_before(profession_owners, k) {
            return Err(
                GameError::EngineInvariant(
                    EngineInvariantError::DuplicateProfession { player: profession_owners[k].clone() },
                ),
            );
        }
        k = k + 1;
    }
    Ok(())
}

/// A status of this duration expires at this moment of the given turn: a status lasting
/// until a player's turn start or turn end expires then, one lasting until the end of a
/// numbered turn expires at that player's turn end in that turn, and a permanent one
/// never expires.
pub open spec fn spec_status_expires_at(
    duration: StatusDuration,
    timing: StatusExpiryTiming,
    current_turn_number: u64,
) -> bool {
    match (duration, timing) {
        (StatusDuration::UntilTurnStart { player: d }, StatusExpiryTiming::TurnStart { player: t }) => d@
            == t@,
        (StatusDuration::UntilTurnEnd { player: d }, StatusExpiryTiming::TurnEnd { player: t }) => d@
            == t@,
        (
            StatusDuration::UntilTurnEndNumber { player: d, turn_number },
            StatusExpiryTiming::TurnEnd { player: t },
        ) => d@ == t@ && turn_number == current_turn_number,
        _ => false,
    }
}

/// Whether a status of this duration expires at this moment of the given turn.
pub fn status_expires_at(
    duration: &StatusDuration,
    timing: &StatusExpiryTiming,
    current_turn_number: u64,
) -> (r: bool)
    ensures
        r == spec_status_expires_at(*duration, *timing, current_turn_number),
{
    match (duration, timing) {
        (StatusDuration::UntilTurnStart { player: d }, StatusExpiryTiming::TurnStart { player: t }) => d.same(
            t,
        ),
        (StatusDuration::UntilTurnEnd { player: d }, StatusExpiryTiming::TurnEnd { player: t }) => d.same(
            t,
        ),
        (
            StatusDuration::UntilTurnEndNumber { player: d, turn_number },
            StatusExpiryTiming::TurnEnd { player: t },
        ) => d.same(t) && *turn_number == current_turn_number,
        _ => false,
    }
}

/// What the turn draw does: it is skipped, or it draws some cards.
#[derive(Clone, Copy, Debug, PartialEq, Eq, Structural)]
pub enum TurnDrawPlan {
    Skipped(TurnDrawSkipReason),
    Draw { count: usize },
}

/// The turn draw of a player: skipped when a status forbids drawing or the hand is at its
/// limit; otherwise the base draw and the player's bonus, no more than the room left in
/// the hand, and one card more to discard.
pub open spec fn spec_turn_draw_plan(
    cannot_draw: bool,
    hand_limit: usize,
    hand_len: usize,
    base_draw: usize,
    bonus: usize,
) -> TurnDrawPlan {
    let room = if hand_limit >= hand_len {
        hand_limit - hand_len
    } else {
        0
    };
    if cannot_draw {
        TurnDrawPlan::Skipped(TurnDrawSkipReason::CannotDrawByStatus)
    } else if room == 0 {
        TurnDrawPlan::Skipped(TurnDrawSkipReason::HandLimitReached)
    } else {
        TurnDrawPlan::Draw {
            count: ((if base_draw + bonus <= room {
                base_draw + bonus
            } else {
                room
            }) + 1) as usize,
        }
    }
}

/// The turn draw of a player with `hand_len` cards in hand.
pub fn turn_draw_plan(
    cannot_draw: bool,
    hand_limit: usize,
    hand_len: usize,
    base_draw: usize,
    bonus: usize,
) -> (r: TurnDrawPlan)
    requires
        !cannot_draw && hand_limit > hand_len ==> base_draw + bonus <= usize::MAX && (base_draw
            + bonus < usize::MAX || hand_limit - hand_len < usize::MAX),
    ensures
        r == spec_turn_draw_plan(cannot_draw, hand_limit, hand_len, base_draw, bonus),
{
    if cannot_draw {
        return TurnDrawPlan::Skipped(TurnDrawSkipReason::CannotDrawByStatus);
    }
    let room = hand_limit.saturating_sub(hand_len);
    if room == 0 {
        return TurnDrawPlan::Skipped(TurnDrawSkipReason::HandLimitReached);
    }
    let wanted = base_draw + bonus;
    let count = if wanted <= room {
        wanted
    } else {
        room
    };
    TurnDrawPlan::Draw { count: count + 1 }
}


/// The player seated before a seated player is seated too.
pub proof fn lemma_previous_player_is_seated(order: Seq<PlayerId>, player: PlayerId)
    requires
        exists|i: int| 0 <= i < order.len() && order[i]@ == player@,
    ensures
        spec_previous_player(order, player) matches Ok(p) && exists|j: int|
            0 <= j < order.len() && order[j] == p,
{
    lemma_position_from(order, player@, 0);
    let i = choose|i: int| 0 <= i < order.len() && order[i]@ == player@;
    assert(position_from(order, player@, 0) is Some);
    let k = position_from(order, player@, 0).unwrap();
    if k == 0 {
        assert(order[order.len() - 1] == order[order.len() - 1]);
    } else {
        assert(order[k - 1] == order[k - 1]);
    }
}


// ---------------------------------------------------------------------------
// The opening deal.
// ---------------------------------------------------------------------------

/// What the opening of a game reports: the shared deck, a player's own deck, or the cards
/// dealt to a player.
#[derive(Debug, PartialEq, Eq)]
pub enum StartEvent {
    DeckPrepared { deck_order: Vec<CardInstanceId> },
    PlayerDeckPrepared { player: PlayerId, deck_order: Vec<CardInstanceId> },
    CardsDealt { player: PlayerId, cards: Vec<CardInstanceId> },
}

/// An opening event as plain values.
pub enum StartEventView {
    DeckPrepared(Seq<CardInstanceId>),
    PlayerDeckPrepared(Seq<char>, Seq<CardInstanceId>),
    CardsDealt(Seq<char>, Seq<CardInstanceId>),
}

pub open spec fn start_event_view(e: StartEvent) -> StartEventView {
    match e {
        StartEvent::DeckPrepared { deck_order } => StartEventView::DeckPrepared(deck_order@),
        StartEvent::PlayerDeckPrepared { player, deck_order } => StartEventView::PlayerDeckPrepared(
            player@,
            deck_order@,
        ),
        StartEvent::CardsDealt { player, cards } => StartEventView::CardsDealt(player@, cards@),
    }
}

pub open spec fn start_event_views(s: Seq<StartEvent>) -> Seq<StartEventView> {
    s.map_values(|e: StartEvent| start_event_view(e))
}

/// The first player in the turn order is dealt four cards, every other player five.
pub open spec fn deal_size(i: int) -> int {
    if i == 0 {
        4
    } else {
        5
    }
}

/// Where the cards of the `i`-th player start in a shared deck.
pub open spec fn deal_offset(i: int) -> int {
    if i == 0 {
        0
    } else {
        5 * i - 1
    }
}

/// The first card instance, from `k` on, with the given identity.
pub open spec fn instance_from(instances: Seq<CardInstanceDef>, card: CardInstanceId, k: int) -> Option<int>
    decreases instances.len() - k,
{
    if k < 0 || k >= instances.len() {
        None
    } else if instances[k].instance == card {
        Some(k)
    } else {
        instance_from(instances, card, k + 1)
    }
}

/// The card belongs to the player's own deck.
pub open spec fn owned_card(instances: Seq<CardInstanceDef>, card: CardInstanceId, player: Seq<char>) -> bool {
    match instance_from(instances, card, 0) {
        Some(k) => instances[k].origin matches CardOrigin::Player(o) && o@ == player,
        None => false,
    }
}

/// The cards of the first `n` positions of the deck order that belong to the player, in
/// deck order.
pub open spec fn owned_cards(
    instances: Seq<CardInstanceDef>,
    deck: Seq<CardInstanceId>,
    player: Seq<char>,
    n: int,
) -> Seq<CardInstanceId>
    decreases n,
{
    if n <= 0 || n > deck.len() {
        seq![]
    } else {
        owned_cards(instances, deck, player, n - 1) + if owned_card(instances, deck[n - 1], player) {
            seq![deck[n - 1]]
        } else {
            seq![]
        }
    }
}

/// The player's own deck, in deck order.
pub open spec fn player_deck(setup: GameSetup, deck: Seq<CardInstanceId>, player: Seq<char>) -> Seq<
    CardInstanceId,
> {
    owned_cards(setup.card_instances@, deck, player, deck.len() as int)
}

/// The opening of the first `n` players with personal decks: each player's deck, then its
/// first cards; or the first player whose deck is too small, with the cards it needs and
/// the cards it has.
pub open spec fn personal_deal(setup: GameSetup, deck: Seq<CardInstanceId>, n: int) -> Result<
    Seq<StartEventView>,
    (int, int),
>
    decreases n,
{
    if n <= 0 || n > setup.turn_order@.len() {
        Ok(seq![])
    } else {
        match personal_deal(setup, deck, n - 1) {
            Err(e) => Err(e),
            Ok(events) => {
                let p = setup.turn_order@[n - 1]@;
                let own = player_deck(setup, deck, p);
                if own.len() < deal_size(n - 1) {
                    Err((deal_size(n - 1), own.len() as int))
                } else {
                    Ok(
                        events + seq![
                            StartEventView::PlayerDeckPrepared(p, own),
                            StartEventView::CardsDealt(p, own.take(deal_size(n - 1))),
                        ],
                    )
                }
            },
        }
    }
}

/// The deal of the first `n` players from a shared deck, one after another.
pub open spec fn shared_deal(setup: GameSetup, deck: Seq<CardInstanceId>, n: int) -> Seq<StartEventView>
    decreases n,
{
    if n <= 0 || n > setup.turn_order@.len() {
        seq![]
    } else {
        shared_deal(setup, deck, n - 1) + seq![
            StartEventView::CardsDealt(
                setup.turn_order@[n - 1]@,
                deck.subrange(deal_offset(n - 1), deal_offset(n - 1) + deal_size(n - 1)),
            ),
        ]
    }
}

/// The opening of a game: with personal decks, each player's deck and first cards; with a
/// shared deck, the deck and then each player's first cards, in turn order. A deck too
/// small for the deal is an engine error.
pub open spec fn spec_initial_events(setup: GameSetup, deck: Seq<CardInstanceId>) -> Result<
    Seq<StartEventView>,
    GameError,
> {
    let n = setup.turn_order@.len() as int;
    if module_enabled(setup.enabled_rule_modules@, PERSONAL_DECK_MODULE_ID@) {
        match personal_deal(setup, deck, n) {
            Ok(events) => Ok(events),
            Err((needed, available)) => Err(
                GameError::EngineInvariant(
                    EngineInvariantError::NotEnoughCards {
                        needed: needed as usize,
                        available: available as usize,
                    },
                ),
            ),
        }
    } else {
        let needed = if n == 0 {
            0
        } else {
            5 * n - 1
        };
        if deck.len() < needed {
            Err(
                GameError::EngineInvariant(
                    EngineInvariantError::NotEnoughCards {
                        needed: needed as usize,
                        available: deck.len() as usize,
                    },
                ),
            )
        } else {
            Ok(seq![StartEventView::DeckPrepared(deck)] + shared_deal(setup, deck, n))
        }
    }
}

fn owned_by(instances: &Vec<CardInstanceDef>, card: CardInstanceId, player: &PlayerId) -> (r: bool)
    ensures
        r == owned_card(instances@, card, player@),
{
    let mut k: usize = 0;
    while k < instances.len()
        invariant
            k <= instances.len(),
            instance_from(instances@, card, 0) == instance_from(instances@, card, k as int),
        decreases instances.len() - k,
    {
        if instances[k].instance == card {
            return match &instances[k].origin {
                CardOrigin::Player(o) => o.same(player),
                CardOrigin::Shared => false,
            };
        }
        k = k + 1;
    }
    false
}

fn own_deck(setup: &GameSetup, deck_order: &Vec<CardInstanceId>, player: &PlayerId) -> (r: Vec<
    CardInstanceId,
>)
    ensures
        r@ == player_deck(*setup, deck_order@, player@),
{
    let mut out: Vec<CardInstanceId> = Vec::new();
    let mut i: usize = 0;
    while i < deck_order.len()
        invariant
            i <= deck_order.len(),
            out@ == owned_cards(setup.card_instances@, deck_order@, player@, i as int),
        decreases deck_order.len() - i,
    {
        if owned_by(&setup.card_instances, deck_order[i], player) {
            out.push(deck_order[i]);
        }
        i = i + 1;
    }
    out
}

fn prefix(cards: &Vec<CardInstanceId>, n: usize) -> (r: Vec<CardInstanceId>)
    requires
        n <= cards.len(),
    ensures
        r@ == cards@.take(n as int),
{
    let mut out: Vec<CardInstanceId> = Vec::new();
    let mut i: usize = 0;
    while i < n
        invariant
            i <= n <= cards.len(),
            out@ == cards@.take(i as int),
        decreases n - i,
    {
        out.push(cards[i]);
        assert(out@ =~= cards@.take(i as int + 1));
        i = i + 1;
    }
    out
}

fn slice_of(cards: &Vec<CardInstanceId>, from: usize, to: usize) -> (r: Vec<CardInstanceId>)
    requires
        from <= to <= cards.len(),
    ensures
        r@ == cards@.subrange(from as int, to as int),
{
    let mut out: Vec<CardInstanceId> = Vec::new();
    let mut i: usize = from;
    while i < to
        invariant
            from <= i <= to <= cards.len(),
            out@ == cards@.subrange(from as int, i as int),
        decreases to - i,
    {
        out.push(cards[i]);
        assert(out@ =~= cards@.subrange(from as int, i as int + 1));
        i = i + 1;
    }
    out
}

fn personal_initial_events(setup: &GameSetup, deck_order: &Vec<CardInstanceId>) -> (r: Result<
    Vec<StartEvent>,
    GameError,
>)
    ensures
        match personal_deal(*setup, deck_order@, setup.turn_order@.len() as int) {
            Ok(events) => r matches Ok(v) && start_event_views(v@) == events,
            Err((needed, available)) => r == Err::<Vec<StartEvent>, GameError>(
                GameError::EngineInvariant(
                    EngineInvariantError::NotEnoughCards {
                        needed: needed as usize,
                        available: available as usize,
                    },
                ),
            ),
        },
{
    let mut events: Vec<StartEvent> = Vec::new();
    let mut i: usize = 0;
    while i < setup.turn_order.len()
        invariant
            i <= setup.turn_order.len(),
            personal_deal(*setup, deck_order@, i as int) matches Ok(ev) && start_event_views(events@)
                == ev,
        decreases setup.turn_order.len() - i,
    {
        let player = &setup.turn_order[i];
        let own = own_deck(setup, deck_order, player);
        let count: usize = if i == 0 {
            4
        } else {
            5
        };
        if own.len() < count {
            proof {
                lemma_personal_deal_error_persists(*setup, deck_order@, i as int + 1);
            }
            return Err(
                GameError::EngineInvariant(
                    EngineInvariantError::NotEnoughCards { needed: count, available: own.len() },
                ),
            );
        }
        let dealt = prefix(&own, count);
        let ghost before = events@;
        events.push(StartEvent::PlayerDeckPrepared { player: player.clone(), deck_order: own });
        events.push(StartEvent::CardsDealt { player: player.clone(), cards: dealt });
        assert(start_event_views(events@) =~= start_event_views(before) + seq![
            StartEventView::PlayerDeckPrepared(player@, player_deck(*setup, deck_order@, player@)),
            StartEventView::CardsDealt(
                player@,
                player_deck(*setup, deck_order@, player@).take(deal_size(i as int)),
            ),
        ]);
        i = i + 1;
    }
    Ok(events)
}

proof fn lemma_personal_deal_error_persists(setup: GameSetup, deck: Seq<CardInstanceId>, n: int)
    requires
        1 <= n <= setup.turn_order@.len(),
        personal_deal(setup, deck, n) is Err,
    ensures
        personal_deal(setup, deck, setup.turn_order@.len() as int) == personal_deal(setup, deck, n),
    decreases setup.turn_order@.len() - n,
{
    if n < setup.turn_order@.len() {
        lemma_personal_deal_error_persists(setup, deck, n + 1);
    }
}

/// The events that open a game without the pouch module, from the deck order.
pub fn initial_events(setup: &GameSetup, deck_order: &Vec<CardInstanceId>) -> (r: Result<
    Vec<StartEvent>,
    GameError,
>)
    requires
        !module_enabled(setup.enabled_rule_modules@, POUCH_MODULE_ID@),
        setup.turn_order@.len() * 5 <= usize::MAX,
    ensures
        match spec_initial_events(*setup, deck_order@) {
            Ok(events) => r matches Ok(v) && start_event_views(v@) == events,
            Err(e) => r == Err::<Vec<StartEvent>, GameError>(e),
        },
{
    if setup.has_rule_module(PERSONAL_DECK_MODULE_ID) {
        return personal_initial_events(setup, deck_order);
    }
    let needed = initial_deal_count(setup);
    if deck_order.len() < needed {
        return Err(
            GameError::EngineInvariant(
                EngineInvariantError::NotEnoughCards { needed, available: deck_order.len() },
            ),
        );
    }
    let mut events: Vec<StartEvent> = Vec::new();
    events.push(StartEvent::DeckPrepared { deck_order: copy_cards(deck_order.as_slice()) });
    let mut next: usize = 0;
    let mut i: usize = 0;
    while i < setup.turn_order.len()
        invariant
            i <= setup.turn_order.len(),
            setup.turn_order@.len() * 5 <= usize::MAX,
            needed == if setup.turn_order@.len() == 0 {
                0
            } else {
                5 * setup.turn_order@.len() - 1
            },
            needed <= deck_order.len(),
            next == deal_offset(i as int),
            start_event_views(events@) == seq![StartEventView::DeckPrepared(deck_order@)] + shared_deal(
                *setup,
                deck_order@,
                i as int,
            ),
        decreases setup.turn_order.len() - i,
    {
        let count: usize = if i == 0 {
            4
        } else {
            5
        };
        let cards = slice_of(deck_order, next, next + count);
        let ghost before = events@;
        events.push(StartEvent::CardsDealt { player: setup.turn_order[i].clone(), cards });
        assert(start_event_views(events@) =~= start_event_views(before) + seq![
            StartEventView::CardsDealt(
                setup.turn_order@[i as int]@,
                deck_order@.subrange(deal_offset(i as int), deal_offset(i as int) + deal_size(i as int)),
            ),
        ]);
        next = next + count;
        i = i + 1;
    }
    Ok(events)
}


/// The cards the events deal, one hand after another.
pub open spec fn dealt_cards(events: Seq<StartEventView>) -> Seq<CardInstanceId>
    decreases events.len(),
{
    if events.len() == 0 {
        seq![]
    } else {
        dealt_cards(events.drop_last()) + match events.last() {
            StartEventView::CardsDealt(_, cards) => cards,
            _ => seq![],
        }
    }
}

/// A shared deck is dealt from the top without gaps or overlaps: the hands of the first
/// `n` players, one after another, are exactly the first cards of the deck order.
pub proof fn lemma_shared_deal_takes_the_top_of_the_deck(setup: GameSetup, deck: Seq<CardInstanceId>, n: int)
    requires
        0 <= n <= setup.turn_order@.len(),
        deal_offset(n) <= deck.len(),
    ensures
        dealt_cards(shared_deal(setup, deck, n)) == deck.take(deal_offset(n)),
    decreases n,
{
    if n == 0 {
        assert(deck.take(0) =~= seq![]);
    } else {
        lemma_shared_deal_takes_the_top_of_the_deck(setup, deck, n - 1);
        let events = shared_deal(setup, deck, n);
        assert(events.drop_last() =~= shared_deal(setup, deck, n - 1));
        assert(deal_offset(n - 1) + deal_size(n - 1) == deal_offset(n));
        assert(deck.take(deal_offset(n - 1)) + deck.subrange(deal_offset(n - 1), deal_offset(n))
            =~= deck.take(deal_offset(n)));
    }
}

} // verus!
