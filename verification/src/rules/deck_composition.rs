//! The official card catalog, the shared and personal deck compositions, and
//! the validation and resolution of submitted personal deck lists.
use crate::domain::{
    CardDef, CardDefId, CardInstanceDef, CardInstanceId, CardOrigin, Element, PlayerDeckList,
    PlayerId, clone_def_ids, def_id_views, owned, str_eq,
};
use vstd::prelude::*;
use vstd::string::StringExecFns;

verus! {

pub const PERSONAL_DECK_CARD_COUNT: usize = 60;
pub const PERSONAL_DECK_LEVEL_LIMIT: u32 = 170;
pub const SHARED_DECK_CARD_COUNT: usize = 90;
pub const PRECONSTRUCTED_DECK_NAME: &'static str = "五行均衡預組";
/// The number of distinct official card definitions: five elements, five levels.
pub const OFFICIAL_DEFINITION_COUNT: usize = 25;

#[derive(Debug, PartialEq, Eq)]
pub struct DeckCompositionCatalog {
    pub card_definitions: Vec<DeckCompositionCardDefinition>,
    pub shared_deck: SharedDeckComposition,
    pub personal_deck: PersonalDeckComposition,
}

#[derive(Clone, Debug, PartialEq, Eq)]
pub struct SharedDeckComposition {
    pub exact_card_count: usize,
}

#[derive(Debug, PartialEq, Eq)]
pub struct DeckCompositionCardDefinition {
    pub id: CardDefId,
    pub name: String,
    pub element: Element,
    pub level: u32,
    pub shared_deck_copies: usize,
    pub personal_deck_copy_limit: usize,
    pub preconstructed_copies: usize,
}

#[derive(Debug, PartialEq, Eq)]
pub struct PersonalDeckComposition {
    pub exact_card_count: usize,
    pub maximum_level_total: u32,
    pub preconstructed: DeckListTemplate,
}

#[derive(Debug, PartialEq, Eq)]
pub struct DeckListTemplate {
    pub name: String,
    pub cards: Vec<CardDefId>,
}

#[derive(Debug, PartialEq, Eq)]
pub struct DeckListValidation {
    pub valid: bool,
    pub card_count: usize,
    pub level_total: u32,
    pub issues: Vec<DeckListIssue>,
}

#[derive(Debug, PartialEq, Eq)]
pub enum DeckListIssue {
    WrongPlayer,
    UnknownCardDefinition { card_definition: CardDefId },
    WrongCardCount { expected: usize, actual: usize },
    LevelTotalExceeded { maximum: u32, actual: u32 },
    CopyLimitExceeded { card_definition: CardDefId, maximum: usize, actual: usize },
}

/// The abstract form of a deck list issue, with identities as character sequences.
pub enum DeckListIssueView {
    WrongPlayer,
    UnknownCardDefinition { card_definition: Seq<char> },
    WrongCardCount { expected: usize, actual: usize },
    LevelTotalExceeded { maximum: u32, actual: u32 },
    CopyLimitExceeded { card_definition: Seq<char>, maximum: usize, actual: usize },
}

impl View for DeckListIssue {
    type V = DeckListIssueView;

    open spec fn view(&self) -> DeckListIssueView {
        match self {
            DeckListIssue::WrongPlayer => DeckListIssueView::WrongPlayer,
            DeckListIssue::UnknownCardDefinition { card_definition } =>
                DeckListIssueView::UnknownCardDefinition { card_definition: card_definition@ },
            DeckListIssue::WrongCardCount { expected, actual } =>
                DeckListIssueView::WrongCardCount { expected: *expected, actual: *actual },
            DeckListIssue::LevelTotalExceeded { maximum, actual } =>
                DeckListIssueView::LevelTotalExceeded { maximum: *maximum, actual: *actual },
            DeckListIssue::CopyLimitExceeded { card_definition, maximum, actual } =>
                DeckListIssueView::CopyLimitExceeded {
                    card_definition: card_definition@,
                    maximum: *maximum,
                    actual: *actual,
                },
        }
    }
}

/// The issues of a validation, each by its view.
pub open spec fn issue_views(issues: Seq<DeckListIssue>) -> Seq<DeckListIssueView> {
    issues.map_values(|i: DeckListIssue| i@)
}

#[derive(Clone, Copy, Debug, PartialEq, Eq, Structural)]
pub enum DeckListSource {
    Custom,
    Preconstructed,
}

#[derive(Debug, PartialEq, Eq)]
pub struct ResolvedPersonalDeck {
    pub candidate_validation: Option<DeckListValidation>,
    pub source: DeckListSource,
    pub effective: PlayerDeckList,
    pub effective_validation: DeckListValidation,
}

// ---------------------------------------------------------------------------
// The official catalog, as a mathematical table.
// ---------------------------------------------------------------------------

/// The element of the definition at catalog position `k` (five levels per element).
pub open spec fn def_element(k: int) -> Element {
    let e = k / 5;
    if e == 0 {
        Element::Metal
    } else if e == 1 {
        Element::Wood
    } else if e == 2 {
        Element::Water
    } else if e == 3 {
        Element::Fire
    } else {
        Element::Earth
    }
}

/// The printed level of the definition at catalog position `k`.
pub open spec fn def_level(k: int) -> int {
    k % 5 + 1
}

/// The identity key of an element, as used in card definition identities.
pub open spec fn element_key(e: Element) -> Seq<char> {
    match e {
        Element::Metal => "metal"@,
        Element::Wood => "wood"@,
        Element::Water => "water"@,
        Element::Fire => "fire"@,
        Element::Earth => "earth"@,
    }
}

/// The printed name of an element.
pub open spec fn element_label(e: Element) -> Seq<char> {
    match e {
        Element::Metal => "金"@,
        Element::Wood => "木"@,
        Element::Water => "水"@,
        Element::Fire => "火"@,
        Element::Earth => "土"@,
    }
}

/// The decimal digit of a level between one and five.
pub open spec fn level_digit(level: int) -> Seq<char> {
    if level == 1 {
        "1"@
    } else if level == 2 {
        "2"@
    } else if level == 3 {
        "3"@
    } else if level == 4 {
        "4"@
    } else {
        "5"@
    }
}

/// The identity of the definition at catalog position `k`, such as `metal-3`.
pub open spec fn def_id(k: int) -> Seq<char> {
    element_key(def_element(k)) + "-"@ + level_digit(def_level(k))
}

/// Copies of a level in the shared deck: four of levels one to three, three of four and five.
pub open spec fn spec_official_copy_count(level: int) -> int {
    if 1 <= level <= 3 {
        4
    } else if 4 <= level <= 5 {
        3
    } else {
        0
    }
}

/// Copies of a level in the preconstructed personal deck.
pub open spec fn spec_preconstructed_copy_count(level: int) -> int {
    if level == 1 {
        3
    } else if level == 2 {
        2
    } else if level == 3 {
        3
    } else if level == 4 {
        2
    } else if level == 5 {
        2
    } else {
        0
    }
}

/// Whether a definition matches the catalog entry at position `k`.
pub open spec fn def_matches(d: CardDef, k: int) -> bool {
    &&& d.id@ == def_id(k)
    &&& d.name@ == element_label(def_element(k))
    &&& d.element == def_element(k)
    &&& d.level == def_level(k)
}

/// The first catalog position at or after `k` whose identity is `id`.
pub open spec fn find_def_from(id: Seq<char>, k: int) -> Option<int>
    decreases 25 - k,
{
    if k >= 25 || k < 0 {
        None
    } else if def_id(k) == id {
        Some(k)
    } else {
        find_def_from(id, k + 1)
    }
}

/// The catalog position of a definition identity, if it is official.
pub open spec fn find_def(id: Seq<char>) -> Option<int> {
    find_def_from(id, 0)
}

/// The catalog positions, each repeated as many times as its shared deck copies.
pub open spec fn shared_instance_defs(k: int) -> Seq<int>
    decreases k,
{
    if k <= 0 {
        Seq::empty()
    } else {
        shared_instance_defs(k - 1) + Seq::new(
            spec_official_copy_count(def_level(k - 1)) as nat,
            |j: int| k - 1,
        )
    }
}

/// The preconstructed deck as catalog identities, in catalog order.
pub open spec fn preconstructed_ids(k: int) -> Seq<Seq<char>>
    decreases k,
{
    if k <= 0 {
        Seq::empty()
    } else {
        preconstructed_ids(k - 1) + Seq::new(
            spec_preconstructed_copy_count(def_level(k - 1)) as nat,
            |j: int| def_id(k - 1),
        )
    }
}

/// The sum of printed levels of the official cards in a list; unknown cards add nothing.
pub open spec fn level_total(cards: Seq<Seq<char>>) -> int
    decreases cards.len(),
{
    if cards.len() == 0 {
        0
    } else {
        level_total(cards.drop_last()) + match find_def(cards.last()) {
            Some(k) => def_level(k),
            None => 0,
        }
    }
}

/// The cards of a list that name no official definition, in list order.
pub open spec fn unknown_cards(cards: Seq<Seq<char>>) -> Seq<Seq<char>>
    decreases cards.len(),
{
    if cards.len() == 0 {
        Seq::empty()
    } else {
        unknown_cards(cards.drop_last()) + if find_def(cards.last()) is None {
            seq![cards.last()]
        } else {
            Seq::empty()
        }
    }
}

/// How many entries of a list equal `id`.
pub open spec fn copies_of(cards: Seq<Seq<char>>, id: Seq<char>) -> int
    decreases cards.len(),
{
    if cards.len() == 0 {
        0
    } else {
        copies_of(cards.drop_last(), id) + if cards.last() == id {
            1int
        } else {
            0
        }
    }
}

/// The copy-limit issues for catalog positions before `k`, in catalog order.
pub open spec fn copy_limit_issues(cards: Seq<Seq<char>>, k: int) -> Seq<DeckListIssueView>
    decreases k,
{
    if k <= 0 {
        Seq::empty()
    } else {
        copy_limit_issues(cards, k - 1) + if copies_of(cards, def_id(k - 1))
            > spec_official_copy_count(def_level(k - 1)) {
            seq![
                DeckListIssueView::CopyLimitExceeded {
                    card_definition: def_id(k - 1),
                    maximum: spec_official_copy_count(def_level(k - 1)) as usize,
                    actual: copies_of(cards, def_id(k - 1)) as usize,
                },
            ]
        } else {
            Seq::empty()
        }
    }
}

/// Every issue of a deck list submitted for `player`, in the order they are reported:
/// a wrong owner, unknown cards, a wrong card count, an excessive level total, then
/// each definition whose copy limit is exceeded.
pub open spec fn deck_issues(player: Seq<char>, deck: (Seq<char>, Seq<char>, Seq<Seq<char>>)) -> Seq<
    DeckListIssueView,
> {
    let cards = deck.2;
    (if deck.0 != player {
        seq![DeckListIssueView::WrongPlayer]
    } else {
        Seq::empty()
    }) + unknown_cards(cards).map_values(
        |c: Seq<char>| DeckListIssueView::UnknownCardDefinition { card_definition: c },
    ) + (if cards.len() != 60 {
        seq![DeckListIssueView::WrongCardCount { expected: 60, actual: cards.len() as usize }]
    } else {
        Seq::empty()
    }) + (if level_total(cards) > 170 {
        seq![
            DeckListIssueView::LevelTotalExceeded { maximum: 170, actual: level_total(cards) as u32 },
        ]
    } else {
        Seq::empty()
    }) + copy_limit_issues(cards, 25)
}

/// Whether a validation reports exactly the outcome of validating `deck` for `player`.
pub open spec fn validation_matches(
    v: DeckListValidation,
    player: Seq<char>,
    deck: (Seq<char>, Seq<char>, Seq<Seq<char>>),
) -> bool {
    &&& issue_views(v.issues@) == deck_issues(player, deck)
    &&& v.valid == (deck_issues(player, deck).len() == 0)
    &&& v.card_count == deck.2.len()
    &&& v.level_total == level_total(deck.2)
}

/// A deck list whose level total fits the counter used to add it up.
pub open spec fn deck_fits(deck: (Seq<char>, Seq<char>, Seq<Seq<char>>)) -> bool {
    deck.2.len() * 5 <= u32::MAX
}

// ---------------------------------------------------------------------------
// Executable catalog.
// ---------------------------------------------------------------------------

fn element_at(e: usize) -> (r: Element)
    requires
        e < 5,
    ensures
        r == def_element(e as int * 5),
{
    if e == 0 {
        Element::Metal
    } else if e == 1 {
        Element::Wood
    } else if e == 2 {
        Element::Water
    } else if e == 3 {
        Element::Fire
    } else {
        Element::Earth
    }
}

fn element_key_str(e: Element) -> (r: &'static str)
    ensures
        r@ == element_key(e),
{
    match e {
        Element::Metal => "metal",
        Element::Wood => "wood",
        Element::Water => "water",
        Element::Fire => "fire",
        Element::Earth => "earth",
    }
}

fn element_label_str(e: Element) -> (r: &'static str)
    ensures
        r@ == element_label(e),
{
    match e {
        Element::Metal => "金",
        Element::Wood => "木",
        Element::Water => "水",
        Element::Fire => "火",
        Element::Earth => "土",
    }
}

fn level_digit_str(level: u32) -> (r: &'static str)
    requires
        1 <= level <= 5,
    ensures
        r@ == level_digit(level as int),
{
    if level == 1 {
        "1"
    } else if level == 2 {
        "2"
    } else if level == 3 {
        "3"
    } else if level == 4 {
        "4"
    } else {
        "5"
    }
}

/// The copies of a level in the official shared deck.
pub fn official_copy_count(level: u32) -> (r: usize)
    ensures
        r == spec_official_copy_count(level as int),
{
    if 1 <= level && level <= 3 {
        4
    } else if 4 <= level && level <= 5 {
        3
    } else {
        0
    }
}

/// The most copies of a definition of this level that a personal deck may hold.
pub fn personal_copy_limit(level: u32) -> (r: usize)
    ensures
        r == spec_official_copy_count(level as int),
{
    official_copy_count(level)
}

/// The copies of a level in the preconstructed personal deck.
pub fn preconstructed_copy_count(level: u32) -> (r: usize)
    ensures
        r == spec_preconstructed_copy_count(level as int),
{
    if level == 1 {
        3
    } else if level == 2 {
        2
    } else if level == 3 {
        3
    } else if level == 4 {
        2
    } else if level == 5 {
        2
    } else {
        0
    }
}

/// The definition at catalog position `k`.
fn official_def(k: usize) -> (r: CardDef)
    requires
        k < 25,
    ensures
        def_matches(r, k as int),
{
    let e = element_at(k / 5);
    let level = (k % 5 + 1) as u32;
    let id = owned(element_key_str(e)).concat("-").concat(level_digit_str(level));
    CardDef { id: CardDefId(id), name: owned(element_label_str(e)), element: e, level }
}

/// The twenty-five official card definitions, element by element, levels one to five.
pub fn official_card_defs() -> (r: Vec<CardDef>)
    ensures
        r.len() == 25,
        forall|k: int| 0 <= k < 25 ==> def_matches(#[trigger] r@[k], k),
{
    let mut defs: Vec<CardDef> = Vec::new();
    let mut k: usize = 0;
    while k < OFFICIAL_DEFINITION_COUNT
        invariant
            k <= 25,
            defs.len() == k,
            forall|j: int| 0 <= j < k ==> def_matches(#[trigger] defs@[j], j),
        decreases 25 - k,
    {
        defs.push(official_def(k));
        k = k + 1;
    }
    defs
}

/// The catalog position of a definition identity, searching the official catalog in order.
pub fn find_official_def(defs: &Vec<CardDef>, id: &CardDefId) -> (r: Option<usize>)
    requires
        defs.len() == 25,
        forall|k: int| 0 <= k < 25 ==> def_matches(#[trigger] defs@[k], k),
    ensures
        match r {
            Some(k) => k < 25 && find_def(id@) == Some(k as int),
            None => find_def(id@) is None,
        },
{
    let mut k: usize = 0;
    while k < OFFICIAL_DEFINITION_COUNT
        invariant
            k <= 25,
            defs.len() == 25,
            forall|j: int| 0 <= j < 25 ==> def_matches(#[trigger] defs@[j], j),
            find_def(id@) == find_def_from(id@, k as int),
        decreases 25 - k,
    {
        assert(def_matches(defs@[k as int], k as int));
        if defs[k].id.same(id) {
            return Some(k);
        }
        k = k + 1;
    }
    None
}

/// The preconstructed deck's cards: each definition repeated by its preconstructed copies.
pub fn preconstructed_cards() -> (r: Vec<CardDefId>)
    ensures
        def_id_views(r@) == preconstructed_ids(25),
{
    let defs = official_card_defs();
    let mut cards: Vec<CardDefId> = Vec::new();
    let mut k: usize = 0;
    while k < OFFICIAL_DEFINITION_COUNT
        invariant
            k <= 25,
            defs.len() == 25,
            forall|j: int| 0 <= j < 25 ==> def_matches(#[trigger] defs@[j], j),
            def_id_views(cards@) == preconstructed_ids(k as int),
        decreases 25 - k,
    {
        assert(def_matches(defs@[k as int], k as int));
        let copies = preconstructed_copy_count(defs[k].level);
        let ghost before = def_id_views(cards@);
        let mut c: usize = 0;
        while c < copies
            invariant
                c <= copies,
                k < 25,
                defs.len() == 25,
                def_matches(defs@[k as int], k as int),
                def_id_views(cards@) == before + Seq::new(c as nat, |j: int| def_id(k as int)),
            decreases copies - c,
        {
            let id = defs[k].id.clone();
            assert(id@ == def_id(k as int));
            let ghost old_cards = cards@;
            cards.push(id);
            proof {
                assert(cards@ == old_cards.push(id));
                assert(def_id_views(cards@) =~= def_id_views(old_cards).push(def_id(k as int)));
                assert(def_id_views(cards@) =~= before + Seq::new(
                    (c + 1) as nat,
                    |j: int| def_id(k as int),
                ));
            }
            c = c + 1;
        }
        proof {
            assert(def_level(k as int) == defs@[k as int].level);
            assert(def_id_views(cards@) =~= preconstructed_ids(k as int + 1));
        }
        k = k + 1;
    }
    cards
}

/// The ninety shared-deck card instances, numbered from one, in catalog order.
pub fn official_card_instances() -> (r: Vec<CardInstanceDef>)
    ensures
        r.len() == shared_instance_defs(25).len(),
        forall|i: int|
            0 <= i < r.len() ==> {
                &&& (#[trigger] r@[i]).instance.0 == i + 1
                &&& r@[i].definition@ == def_id(shared_instance_defs(25)[i])
                &&& r@[i].origin == CardOrigin::Shared
            },
{
    let defs = official_card_defs();
    let mut instances: Vec<CardInstanceDef> = Vec::new();
    let mut next: u64 = 1;
    let mut k: usize = 0;
    while k < OFFICIAL_DEFINITION_COUNT
        invariant
            k <= 25,
            defs.len() == 25,
            forall|j: int| 0 <= j < 25 ==> def_matches(#[trigger] defs@[j], j),
            instances.len() == shared_instance_defs(k as int).len(),
            next == instances.len() + 1,
            instances.len() <= 4 * k,
            forall|i: int|
                0 <= i < instances.len() ==> {
                    &&& (#[trigger] instances@[i]).instance.0 == i + 1
                    &&& instances@[i].definition@ == def_id(shared_instance_defs(k as int)[i])
                    &&& instances@[i].origin == CardOrigin::Shared
                },
        decreases 25 - k,
    {
        assert(def_matches(defs@[k as int], k as int));
        let copies = official_copy_count(defs[k].level);
        let ghost before = shared_instance_defs(k as int);
        let ghost after = shared_instance_defs(k as int + 1);
        assert(after == before + Seq::new(
            spec_official_copy_count(def_level(k as int)) as nat,
            |j: int| k as int,
        ));
        let mut c: usize = 0;
        while c < copies
            invariant
                c <= copies,
                copies <= 4,
                copies == spec_official_copy_count(def_level(k as int)),
                k < 25,
                defs.len() == 25,
                def_matches(defs@[k as int], k as int),
                before == shared_instance_defs(k as int),
                after == before + Seq::new(copies as nat, |j: int| k as int),
                instances.len() == before.len() + c,
                instances.len() <= 4 * k + c,
                next == instances.len() + 1,
                forall|i: int|
                    0 <= i < instances.len() ==> {
                        &&& (#[trigger] instances@[i]).instance.0 == i + 1
                        &&& instances@[i].definition@ == def_id(after[i])
                        &&& instances@[i].origin == CardOrigin::Shared
                    },
            decreases copies - c,
        {
            instances.push(
                CardInstanceDef {
                    instance: CardInstanceId::new(next),
                    definition: defs[k].id.clone(),
                    origin: CardOrigin::Shared,
                },
            );
            next = next + 1;
            c = c + 1;
        }
        k = k + 1;
    }
    instances
}

/// The personal deck stage of the catalog: validation and resolution of deck lists.
#[derive(Clone, Copy, Debug, Default, PartialEq, Eq)]
pub struct DeckComposition;

/// The official deck composition catalog: the twenty-five definitions with their copy
/// counts, the shared deck of ninety cards, and personal decks of sixty cards totalling
/// at most one hundred seventy levels, with the preconstructed template.
pub open spec fn is_official_catalog(r: DeckCompositionCatalog) -> bool {
    &&& r.card_definitions.len() == 25
    &&& forall|k: int|
        0 <= k < 25 ==> {
            let d = #[trigger] r.card_definitions@[k];
            &&& d.id@ == def_id(k)
            &&& d.name@ == element_label(def_element(k))
            &&& d.element == def_element(k)
            &&& d.level == def_level(k)
            &&& d.shared_deck_copies == spec_official_copy_count(def_level(k))
            &&& d.personal_deck_copy_limit == spec_official_copy_count(def_level(k))
            &&& d.preconstructed_copies == spec_preconstructed_copy_count(def_level(k))
        }
    &&& r.shared_deck.exact_card_count == 90
    &&& r.personal_deck.exact_card_count == 60
    &&& r.personal_deck.maximum_level_total == 170
    &&& r.personal_deck.preconstructed.name@ == PRECONSTRUCTED_DECK_NAME@
    &&& def_id_views(r.personal_deck.preconstructed.cards@) == preconstructed_ids(25)
}

/// The view of an optional deck list.
pub open spec fn deck_view(d: Option<PlayerDeckList>) -> Option<(Seq<char>, Seq<char>, Seq<Seq<char>>)> {
    match d {
        Some(x) => Some(x@),
        None => None,
    }
}

/// How a personal deck is resolved for `player`: the candidate is validated when there
/// is one; it is played when it has no issue, and the preconstructed deck otherwise; the
/// effective deck's validation is reported.
pub open spec fn is_resolution(
    r: ResolvedPersonalDeck,
    player: Seq<char>,
    candidate: Option<(Seq<char>, Seq<char>, Seq<Seq<char>>)>,
) -> bool {
    &&& match candidate {
        Some(d) => (r.candidate_validation matches Some(v) && validation_matches(v, player, d)),
        None => r.candidate_validation is None,
    }
    &&& r.source == (if (candidate matches Some(d) && deck_issues(player, d).len() == 0) {
        DeckListSource::Custom
    } else {
        DeckListSource::Preconstructed
    })
    &&& r.source == DeckListSource::Custom ==> (candidate matches Some(d) && r.effective@ == d)
    &&& r.source == DeckListSource::Preconstructed ==> r.effective@ == (
        player,
        PRECONSTRUCTED_DECK_NAME@,
        preconstructed_ids(25),
    )
    &&& validation_matches(r.effective_validation, player, r.effective@)
}

impl DeckComposition {
    /// The catalog a deck builder needs: every definition with its copy counts, the shared
    /// deck size, and the personal deck rules with the preconstructed template.
    pub fn catalog(self) -> (r: DeckCompositionCatalog)
        ensures
            is_official_catalog(r),
    {
        let defs = official_card_defs();
        let mut card_definitions: Vec<DeckCompositionCardDefinition> = Vec::new();
        let mut k: usize = 0;
        while k < OFFICIAL_DEFINITION_COUNT
            invariant
                k <= 25,
                defs.len() == 25,
                forall|j: int| 0 <= j < 25 ==> def_matches(#[trigger] defs@[j], j),
                card_definitions.len() == k,
                forall|j: int|
                    0 <= j < k ==> {
                        let d = #[trigger] card_definitions@[j];
                        &&& d.id@ == def_id(j)
                        &&& d.name@ == element_label(def_element(j))
                        &&& d.element == def_element(j)
                        &&& d.level == def_level(j)
                        &&& d.shared_deck_copies == spec_official_copy_count(def_level(j))
                        &&& d.personal_deck_copy_limit == spec_official_copy_count(def_level(j))
                        &&& d.preconstructed_copies == spec_preconstructed_copy_count(
                            def_level(j),
                        )
                    },
            decreases 25 - k,
        {
            assert(def_matches(defs@[k as int], k as int));
            let definition = &defs[k];
            card_definitions.push(
                DeckCompositionCardDefinition {
                    id: definition.id.clone(),
                    name: definition.name.clone(),
                    element: definition.element,
                    level: definition.level,
                    shared_deck_copies: official_copy_count(definition.level),
                    personal_deck_copy_limit: personal_copy_limit(definition.level),
                    preconstructed_copies: preconstructed_copy_count(definition.level),
                },
            );
            k = k + 1;
        }
        DeckCompositionCatalog {
            card_definitions,
            shared_deck: SharedDeckComposition { exact_card_count: SHARED_DECK_CARD_COUNT },
            personal_deck: PersonalDeckComposition {
                exact_card_count: PERSONAL_DECK_CARD_COUNT,
                maximum_level_total: PERSONAL_DECK_LEVEL_LIMIT,
                preconstructed: DeckListTemplate {
                    name: owned(PRECONSTRUCTED_DECK_NAME),
                    cards: preconstructed_cards(),
                },
            },
        }
    }

    /// The official card definitions.
    pub fn official_card_defs(self) -> (r: Vec<CardDef>)
        ensures
            r.len() == 25,
            forall|k: int| 0 <= k < 25 ==> def_matches(#[trigger] r@[k], k),
    {
        official_card_defs()
    }

    /// The official shared deck's card instances.
    pub fn official_card_instances(self) -> (r: Vec<CardInstanceDef>)
        ensures
            r.len() == shared_instance_defs(25).len(),
            forall|i: int|
                0 <= i < r.len() ==> {
                    &&& (#[trigger] r@[i]).instance.0 == i + 1
                    &&& r@[i].definition@ == def_id(shared_instance_defs(25)[i])
                    &&& r@[i].origin == CardOrigin::Shared
                },
    {
        official_card_instances()
    }

    /// The preconstructed personal deck, owned by `player`.
    pub fn preconstructed_deck(self, player: PlayerId) -> (r: PlayerDeckList)
        ensures
            r@ == (player@, PRECONSTRUCTED_DECK_NAME@, preconstructed_ids(25)),
    {
        PlayerDeckList {
            player,
            name: owned(PRECONSTRUCTED_DECK_NAME),
            cards: preconstructed_cards(),
        }
    }

    /// Validates a deck list submitted for `player` against the personal deck rules.
    pub fn validate(self, player: &PlayerId, deck: &PlayerDeckList) -> (r: DeckListValidation)
        requires
            deck_fits(deck@),
        ensures
            validation_matches(r, player@, deck@),
    {
        let defs = official_card_defs();
        let ghost cards = def_id_views(deck.cards@);
        let mut issues: Vec<DeckListIssue> = Vec::new();
        let mut level_sum: u32 = 0;
        if !deck.player.same(player) {
            issues.push(DeckListIssue::WrongPlayer);
        }
        let ghost head = issue_views(issues@);
        assert(head =~= (if deck@.0 != player@ {
            seq![DeckListIssueView::WrongPlayer]
        } else {
            Seq::empty()
        }));
        let mut i: usize = 0;
        while i < deck.cards.len()
            invariant
                i <= deck.cards.len(),
                deck.cards.len() * 5 <= u32::MAX,
                cards == def_id_views(deck.cards@),
                defs.len() == 25,
                forall|j: int| 0 <= j < 25 ==> def_matches(#[trigger] defs@[j], j),
                level_sum == level_total(cards.subrange(0, i as int)),
                level_sum <= 5 * i,
                issue_views(issues@) == head + unknown_cards(cards.subrange(0, i as int)).map_values(
                    |c: Seq<char>| DeckListIssueView::UnknownCardDefinition { card_definition: c },
                ),
            decreases deck.cards.len() - i,
        {
            assert(cards.len() == deck.cards.len());
            let ghost prefix = cards.subrange(0, i as int);
            let ghost next = cards.subrange(0, i as int + 1);
            assert(next.drop_last() =~= prefix);
            assert(next.last() == deck.cards@[i as int]@);
            let ghost old_issues = issues@;
            match find_official_def(&defs, &deck.cards[i]) {
                Some(k) => {
                    assert(def_matches(defs@[k as int], k as int));
                    level_sum = level_sum + defs[k].level;
                },
                None => {
                    issues.push(
                        DeckListIssue::UnknownCardDefinition {
                            card_definition: deck.cards[i].clone(),
                        },
                    );
                },
            }
            proof {
                if find_def(next.last()) is None {
                    assert(issue_views(issues@) =~= issue_views(old_issues).push(
                        DeckListIssueView::UnknownCardDefinition { card_definition: next.last() },
                    ));
                } else {
                    assert(issues@ == old_issues);
                }
                assert(issue_views(issues@) =~= head + unknown_cards(next).map_values(
                    |c: Seq<char>| DeckListIssueView::UnknownCardDefinition { card_definition: c },
                ));
            }
            i = i + 1;
        }
        assert(cards.subrange(0, cards.len() as int) =~= cards);
        let ghost with_unknown = issue_views(issues@);
        if deck.cards.len() != PERSONAL_DECK_CARD_COUNT {
            issues.push(
                DeckListIssue::WrongCardCount {
                    expected: PERSONAL_DECK_CARD_COUNT,
                    actual: deck.cards.len(),
                },
            );
        }
        if level_sum > PERSONAL_DECK_LEVEL_LIMIT {
            issues.push(
                DeckListIssue::LevelTotalExceeded {
                    maximum: PERSONAL_DECK_LEVEL_LIMIT,
                    actual: level_sum,
                },
            );
        }
        let ghost before_limits = issue_views(issues@);
        assert(before_limits =~= with_unknown + (if cards.len() != 60 {
            seq![DeckListIssueView::WrongCardCount { expected: 60, actual: cards.len() as usize }]
        } else {
            Seq::empty()
        }) + (if level_total(cards) > 170 {
            seq![
                DeckListIssueView::LevelTotalExceeded {
                    maximum: 170,
                    actual: level_total(cards) as u32,
                },
            ]
        } else {
            Seq::empty()
        }));
        let mut k: usize = 0;
        while k < OFFICIAL_DEFINITION_COUNT
            invariant
                k <= 25,
                defs.len() == 25,
                forall|j: int| 0 <= j < 25 ==> def_matches(#[trigger] defs@[j], j),
                cards == def_id_views(deck.cards@),
                issue_views(issues@) == before_limits + copy_limit_issues(cards, k as int),
            decreases 25 - k,
        {
            assert(def_matches(defs@[k as int], k as int));
            let actual = count_copies(&deck.cards, &defs[k].id);
            let maximum = personal_copy_limit(defs[k].level);
            let ghost old_issues = issues@;
            if actual > maximum {
                issues.push(
                    DeckListIssue::CopyLimitExceeded {
                        card_definition: defs[k].id.clone(),
                        maximum,
                        actual,
                    },
                );
            }
            proof {
                if actual > maximum {
                    assert(issue_views(issues@) =~= issue_views(old_issues).push(
                        DeckListIssueView::CopyLimitExceeded {
                            card_definition: def_id(k as int),
                            maximum: maximum,
                            actual: actual,
                        },
                    ));
                } else {
                    assert(issues@ == old_issues);
                }
                assert(issue_views(issues@) =~= before_limits + copy_limit_issues(
                    cards,
                    k as int + 1,
                ));
            }
            k = k + 1;
        }
        proof {
            assert(issue_views(issues@) =~= deck_issues(player@, deck@));
        }
        DeckListValidation {
            valid: issues.len() == 0,
            card_count: deck.cards.len(),
            level_total: level_sum,
            issues,
        }
    }

    /// Chooses the personal deck a player plays with: the candidate when it is valid for
    /// the player, otherwise the preconstructed deck.
    pub fn resolve(self, player: PlayerId, candidate: Option<PlayerDeckList>) -> (r:
        ResolvedPersonalDeck)
        requires
            candidate matches Some(d) ==> deck_fits(d@),
        ensures
            is_resolution(r, player@, deck_view(candidate)),
    {
        match candidate {
            Some(deck) => {
                let candidate_validation = self.validate(&player, &deck);
                if candidate_validation.valid {
                    let effective_validation = self.validate(&player, &deck);
                    ResolvedPersonalDeck {
                        candidate_validation: Some(candidate_validation),
                        source: DeckListSource::Custom,
                        effective: deck,
                        effective_validation,
                    }
                } else {
                    let effective = self.preconstructed_deck(player.clone());
                    proof {
                        lemma_preconstructed_fits();
                    }
                    let effective_validation = self.validate(&player, &effective);
                    ResolvedPersonalDeck {
                        candidate_validation: Some(candidate_validation),
                        source: DeckListSource::Preconstructed,
                        effective,
                        effective_validation,
                    }
                }
            },
            None => {
                let effective = self.preconstructed_deck(player.clone());
                proof {
                    lemma_preconstructed_fits();
                }
                let effective_validation = self.validate(&player, &effective);
                ResolvedPersonalDeck {
                    candidate_validation: None,
                    source: DeckListSource::Preconstructed,
                    effective,
                    effective_validation,
                }
            },
        }
    }
}

/// How many cards of a list name the definition `id`.
pub fn count_copies(cards: &Vec<CardDefId>, id: &CardDefId) -> (r: usize)
    ensures
        r == copies_of(def_id_views(cards@), id@),
{
    let ghost all = def_id_views(cards@);
    let mut count: usize = 0;
    let mut i: usize = 0;
    while i < cards.len()
        invariant
            i <= cards.len(),
            all == def_id_views(cards@),
            count == copies_of(all.subrange(0, i as int), id@),
            count <= i,
        decreases cards.len() - i,
    {
        assert(all.subrange(0, i as int + 1).drop_last() =~= all.subrange(0, i as int));
        if cards[i].same(id) {
            count = count + 1;
        }
        i = i + 1;
    }
    assert(all.subrange(0, cards.len() as int) =~= all);
    count
}

/// The preconstructed deck holds sixty cards, few enough to total their levels.
pub proof fn lemma_preconstructed_fits()
    ensures
        preconstructed_ids(25).len() == 60,
{
    reveal_with_fuel(preconstructed_ids, 26);
}

} // verus!
