//! Formation patterns and the matcher that decides whether submitted cards
//! form a pattern.
use crate::domain::{Element, owned, str_eq};
use vstd::prelude::*;

verus! {

/// What a formation pattern needs to know of one submitted card.
#[derive(Clone, Copy, Debug, PartialEq, Eq, Structural)]
pub struct SubmittedCardFacts {
    pub element: Element,
    pub level: u32,
}

/// The card pattern a formation requires.
#[derive(Debug, PartialEq, Eq)]
pub enum FormationPattern {
    ExactElements(Vec<Element>),
    GeneratingSequence { length: usize },
    OvercomingSequence { length: usize },
    Custom(String),
}

impl Clone for FormationPattern {
    fn clone(&self) -> (r: Self)
        ensures
            r@ == self@,
    {
        match self {
            FormationPattern::ExactElements(v) => FormationPattern::ExactElements(v.clone()),
            FormationPattern::GeneratingSequence { length } => FormationPattern::GeneratingSequence {
                length: *length,
            },
            FormationPattern::OvercomingSequence { length } => FormationPattern::OvercomingSequence {
                length: *length,
            },
            FormationPattern::Custom(id) => FormationPattern::Custom(id.clone()),
        }
    }
}

/// The abstract form of a pattern.
pub enum PatternView {
    ExactElements(Seq<Element>),
    GeneratingSequence { length: usize },
    OvercomingSequence { length: usize },
    Custom(Seq<char>),
}

impl View for FormationPattern {
    type V = PatternView;

    open spec fn view(&self) -> PatternView {
        match self {
            FormationPattern::ExactElements(v) => PatternView::ExactElements(v@),
            FormationPattern::GeneratingSequence { length } => PatternView::GeneratingSequence {
                length: *length,
            },
            FormationPattern::OvercomingSequence { length } => PatternView::OvercomingSequence {
                length: *length,
            },
            FormationPattern::Custom(id) => PatternView::Custom(id@),
        }
    }
}

// ---------------------------------------------------------------------------
// Counting.
// ---------------------------------------------------------------------------

/// How many entries of `s` are `e`.
pub open spec fn count_elem(s: Seq<Element>, e: Element) -> int
    decreases s.len(),
{
    if s.len() == 0 {
        0
    } else {
        count_elem(s.drop_last(), e) + if s.last() == e {
            1int
        } else {
            0
        }
    }
}

/// Two element lists hold each element equally often (they are equal as multisets).
pub open spec fn same_counts(a: Seq<Element>, b: Seq<Element>) -> bool {
    forall|e: Element| count_elem(a, e) == count_elem(b, e)
}

/// The elements of submitted cards, in order.
pub open spec fn elements_of(s: Seq<SubmittedCardFacts>) -> Seq<Element> {
    s.map_values(|c: SubmittedCardFacts| c.element)
}

/// How many submitted cards are of element `e`.
pub open spec fn count_facts(s: Seq<SubmittedCardFacts>, e: Element) -> int {
    count_elem(elements_of(s), e)
}

/// The sum of the levels of submitted cards.
pub open spec fn level_sum(s: Seq<SubmittedCardFacts>) -> int
    decreases s.len(),
{
    if s.len() == 0 {
        0
    } else {
        level_sum(s.drop_last()) + s.last().level
    }
}

/// The levels of the submitted cards add up to an amount a `u32` holds.
pub open spec fn levels_fit(s: Seq<SubmittedCardFacts>) -> bool {
    level_sum(s) <= u32::MAX
}

/// Some submitted card is of element `e`.
pub open spec fn any_elem(s: Seq<SubmittedCardFacts>, e: Element) -> bool {
    exists|i: int| 0 <= i < s.len() && s[i].element == e
}

/// Every submitted card is of element `e`.
pub open spec fn all_elem(s: Seq<SubmittedCardFacts>, e: Element) -> bool {
    forall|i: int| 0 <= i < s.len() ==> s[i].element == e
}

/// Some submitted card has level `l`.
pub open spec fn any_level(s: Seq<SubmittedCardFacts>, l: int) -> bool {
    exists|i: int| 0 <= i < s.len() && s[i].level == l
}

/// Every submitted card has level `l`.
pub open spec fn all_level(s: Seq<SubmittedCardFacts>, l: int) -> bool {
    forall|i: int| 0 <= i < s.len() ==> s[i].level == l
}

/// The position of an element in the fixed order Metal, Wood, Water, Fire, Earth.
pub open spec fn elem_index(e: Element) -> int {
    match e {
        Element::Metal => 0,
        Element::Wood => 1,
        Element::Water => 2,
        Element::Fire => 3,
        Element::Earth => 4,
    }
}

/// The element at a position of the fixed order.
pub open spec fn elem_at(i: int) -> Element {
    if i == 0 {
        Element::Metal
    } else if i == 1 {
        Element::Wood
    } else if i == 2 {
        Element::Water
    } else if i == 3 {
        Element::Fire
    } else {
        Element::Earth
    }
}

proof fn lemma_count_elem_push(s: Seq<Element>, x: Element, e: Element)
    ensures
        count_elem(s.push(x), e) == count_elem(s, e) + if x == e {
            1int
        } else {
            0
        },
{
    assert(s.push(x).drop_last() =~= s);
}

proof fn lemma_count_elem_nonneg(s: Seq<Element>, e: Element)
    ensures
        0 <= count_elem(s, e) <= s.len(),
    decreases s.len(),
{
    if s.len() > 0 {
        lemma_count_elem_nonneg(s.drop_last(), e);
    }
}

/// Counts each element of a list, in the fixed element order.
pub fn element_counts(elements: &[Element]) -> (r: Vec<usize>)
    ensures
        r.len() == 5,
        forall|i: int| 0 <= i < 5 ==> r@[i] == count_elem(elements@, elem_at(i)),
{
    let mut counts: Vec<usize> = vec![0, 0, 0, 0, 0];
    let mut k: usize = 0;
    while k < elements.len()
        invariant
            k <= elements.len(),
            counts.len() == 5,
            forall|i: int|
                0 <= i < 5 ==> counts@[i] == count_elem(elements@.subrange(0, k as int), elem_at(i)),
            forall|i: int| 0 <= i < 5 ==> counts@[i] <= k,
        decreases elements.len() - k,
    {
        let ghost prev = elements@.subrange(0, k as int);
        assert(elements@.subrange(0, k as int + 1) =~= prev.push(elements@[k as int]));
        let e = elements[k];
        let idx: usize = match e {
            Element::Metal => 0,
            Element::Wood => 1,
            Element::Water => 2,
            Element::Fire => 3,
            Element::Earth => 4,
        };
        let c = counts[idx];
        counts.set(idx, c + 1);
        proof {
            assert forall|i: int| 0 <= i < 5 implies counts@[i] == count_elem(
                elements@.subrange(0, k as int + 1),
                elem_at(i),
            ) by {
                lemma_count_elem_push(prev, e, elem_at(i));
            }
        }
        k = k + 1;
    }
    assert(elements@.subrange(0, elements.len() as int) =~= elements@);
    counts
}

proof fn lemma_every_element_indexed(e: Element)
    ensures
        elem_at(elem_index(e)) == e,
        0 <= elem_index(e) < 5,
{
}

/// Whether two element lists are equal as multisets.
pub fn same_element_counts(a: &[Element], b: &[Element]) -> (r: bool)
    ensures
        r == same_counts(a@, b@),
{
    let ca = element_counts(a);
    let cb = element_counts(b);
    let mut i: usize = 0;
    while i < 5
        invariant
            i <= 5,
            ca.len() == 5,
            cb.len() == 5,
            forall|j: int| 0 <= j < 5 ==> ca@[j] == count_elem(a@, elem_at(j)),
            forall|j: int| 0 <= j < 5 ==> cb@[j] == count_elem(b@, elem_at(j)),
            forall|j: int| 0 <= j < i ==> ca@[j] == cb@[j],
        decreases 5 - i,
    {
        if ca[i] != cb[i] {
            return false;
        }
        i = i + 1;
    }
    proof {
        assert forall|e: Element| count_elem(a@, e) == count_elem(b@, e) by {
            lemma_every_element_indexed(e);
            assert(ca@[elem_index(e)] == cb@[elem_index(e)]);
        }
    }
    true
}

/// The elements of submitted cards, in order.
pub fn submitted_elements(submitted: &[SubmittedCardFacts]) -> (r: Vec<Element>)
    ensures
        r@ == elements_of(submitted@),
{
    let mut r: Vec<Element> = Vec::new();
    let mut i: usize = 0;
    while i < submitted.len()
        invariant
            i <= submitted.len(),
            r@ == elements_of(submitted@.subrange(0, i as int)),
        decreases submitted.len() - i,
    {
        r.push(submitted[i].element);
        proof {
            assert(elements_of(submitted@.subrange(0, i as int + 1)) =~= elements_of(
                submitted@.subrange(0, i as int),
            ).push(submitted@[i as int].element));
        }
        i = i + 1;
    }
    assert(submitted@.subrange(0, submitted.len() as int) =~= submitted@);
    r
}

proof fn lemma_level_sum_prefix(s: Seq<SubmittedCardFacts>, i: int)
    requires
        0 <= i <= s.len(),
    ensures
        0 <= level_sum(s.subrange(0, i)) <= level_sum(s),
    decreases s.len() - i,
{
    if i < s.len() {
        lemma_level_sum_prefix(s, i + 1);
        assert(s.subrange(0, i + 1).drop_last() =~= s.subrange(0, i));
        lemma_level_sum_nonneg(s.subrange(0, i));
    } else {
        assert(s.subrange(0, i) =~= s);
        lemma_level_sum_nonneg(s);
    }
}

proof fn lemma_level_sum_nonneg(s: Seq<SubmittedCardFacts>)
    ensures
        level_sum(s) >= 0,
    decreases s.len(),
{
    if s.len() > 0 {
        lemma_level_sum_nonneg(s.drop_last());
    }
}

/// The sum of the levels of the submitted cards.
pub fn sum_levels(submitted: &[SubmittedCardFacts]) -> (r: u32)
    requires
        levels_fit(submitted@),
    ensures
        r == level_sum(submitted@),
{
    let mut sum: u32 = 0;
    let mut i: usize = 0;
    while i < submitted.len()
        invariant
            i <= submitted.len(),
            levels_fit(submitted@),
            sum == level_sum(submitted@.subrange(0, i as int)),
        decreases submitted.len() - i,
    {
        proof {
            assert(submitted@.subrange(0, i as int + 1).drop_last() =~= submitted@.subrange(
                0,
                i as int,
            ));
            lemma_level_sum_prefix(submitted@, i as int + 1);
        }
        sum = sum + submitted[i].level;
        i = i + 1;
    }
    assert(submitted@.subrange(0, submitted.len() as int) =~= submitted@);
    sum
}

/// How many submitted cards are of element `e`.
pub fn count_element(submitted: &[SubmittedCardFacts], e: Element) -> (r: usize)
    ensures
        r == count_facts(submitted@, e),
{
    let elements = submitted_elements(submitted);
    let counts = element_counts(elements.as_slice());
    proof {
        lemma_every_element_indexed(e);
    }
    let idx: usize = match e {
        Element::Metal => 0,
        Element::Wood => 1,
        Element::Water => 2,
        Element::Fire => 3,
        Element::Earth => 4,
    };
    counts[idx]
}

/// The levels of the cards total at most `u32::MAX` apiece.
pub proof fn lemma_level_sum_bounded(s: Seq<SubmittedCardFacts>)
    ensures
        0 <= level_sum(s) <= s.len() * (u32::MAX as int),
    decreases s.len(),
{
    if s.len() > 0 {
        lemma_level_sum_bounded(s.drop_last());
    }
}

/// Whether the levels of the cards total at least `minimum`.
pub fn level_sum_at_least(facts: &[SubmittedCardFacts], minimum: u32) -> (r: bool)
    ensures
        r == (level_sum(facts@) >= minimum),
{
    let mut sum: u64 = 0;
    let mut i: usize = 0;
    while i < facts.len()
        invariant
            i <= facts.len(),
            sum == (if level_sum(facts@.subrange(0, i as int)) >= minimum {
                minimum as int
            } else {
                level_sum(facts@.subrange(0, i as int))
            }),
        decreases facts.len() - i,
    {
        proof {
            assert(facts@.subrange(0, i as int + 1).drop_last() =~= facts@.subrange(0, i as int));
            lemma_level_sum_bounded(facts@.subrange(0, i as int));
        }
        if sum < minimum as u64 {
            sum = sum + facts[i].level as u64;
            if sum > minimum as u64 {
                sum = minimum as u64;
            }
        }
        i = i + 1;
    }
    assert(facts@.subrange(0, facts.len() as int) =~= facts@);
    sum >= minimum as u64
}

/// Whether some submitted card is of element `e`.
pub fn has_element(submitted: &[SubmittedCardFacts], e: Element) -> (r: bool)
    ensures
        r == any_elem(submitted@, e),
{
    let mut i: usize = 0;
    while i < submitted.len()
        invariant
            i <= submitted.len(),
            forall|j: int| 0 <= j < i ==> submitted@[j].element != e,
        decreases submitted.len() - i,
    {
        if submitted[i].element == e {
            return true;
        }
        i = i + 1;
    }
    false
}

/// Whether every submitted card is of element `e`.
pub fn all_of_element(submitted: &[SubmittedCardFacts], e: Element) -> (r: bool)
    ensures
        r == all_elem(submitted@, e),
{
    let mut i: usize = 0;
    while i < submitted.len()
        invariant
            i <= submitted.len(),
            forall|j: int| 0 <= j < i ==> submitted@[j].element == e,
        decreases submitted.len() - i,
    {
        if submitted[i].element != e {
            return false;
        }
        i = i + 1;
    }
    true
}

/// Whether some submitted card has level `l`.
pub fn has_level(submitted: &[SubmittedCardFacts], l: u32) -> (r: bool)
    ensures
        r == any_level(submitted@, l as int),
{
    let mut i: usize = 0;
    while i < submitted.len()
        invariant
            i <= submitted.len(),
            forall|j: int| 0 <= j < i ==> submitted@[j].level != l,
        decreases submitted.len() - i,
    {
        if submitted[i].level == l {
            return true;
        }
        i = i + 1;
    }
    false
}

/// Whether every submitted card has level `l`.
pub fn all_of_level(submitted: &[SubmittedCardFacts], l: u32) -> (r: bool)
    ensures
        r == all_level(submitted@, l as int),
{
    let mut i: usize = 0;
    while i < submitted.len()
        invariant
            i <= submitted.len(),
            forall|j: int| 0 <= j < i ==> submitted@[j].level == l,
        decreases submitted.len() - i,
    {
        if submitted[i].level != l {
            return false;
        }
        i = i + 1;
    }
    true
}

// ---------------------------------------------------------------------------
// Element cycles.
// ---------------------------------------------------------------------------

/// Which of the two element cycles a sequence pattern follows.
#[derive(Clone, Copy, Debug, PartialEq, Eq, Structural)]
pub enum ElementCycle {
    /// Wood, Fire, Earth, Metal, Water: each feeds the next.
    Generating,
    /// Wood, Earth, Water, Fire, Metal: each overcomes the next.
    Overcoming,
}

/// The `i`-th element of a cycle.
pub open spec fn cycle_at(cycle: ElementCycle, i: int) -> Element {
    match cycle {
        ElementCycle::Generating => if i == 0 {
            Element::Wood
        } else if i == 1 {
            Element::Fire
        } else if i == 2 {
            Element::Earth
        } else if i == 3 {
            Element::Metal
        } else {
            Element::Water
        },
        ElementCycle::Overcoming => if i == 0 {
            Element::Wood
        } else if i == 1 {
            Element::Earth
        } else if i == 2 {
            Element::Water
        } else if i == 3 {
            Element::Fire
        } else {
            Element::Metal
        },
    }
}

/// `length` consecutive elements of a cycle from position `start`, wrapping around.
pub open spec fn cycle_window(cycle: ElementCycle, start: int, length: int) -> Seq<Element> {
    Seq::new(length as nat, |o: int| cycle_at(cycle, (start + o) % 5))
}

/// The submitted elements are, in some order, `length` consecutive elements of the cycle.
pub open spec fn unordered_sequence(
    submitted: Seq<Element>,
    length: int,
    cycle: ElementCycle,
) -> bool {
    &&& submitted.len() == length
    &&& 0 < length <= 5
    &&& exists|start: int| 0 <= start < 5 && same_counts(cycle_window(cycle, start, length), submitted)
}

fn cycle_element(cycle: ElementCycle, i: usize) -> (r: Element)
    requires
        i < 5,
    ensures
        r == cycle_at(cycle, i as int),
{
    match cycle {
        ElementCycle::Generating => if i == 0 {
            Element::Wood
        } else if i == 1 {
            Element::Fire
        } else if i == 2 {
            Element::Earth
        } else if i == 3 {
            Element::Metal
        } else {
            Element::Water
        },
        ElementCycle::Overcoming => if i == 0 {
            Element::Wood
        } else if i == 1 {
            Element::Earth
        } else if i == 2 {
            Element::Water
        } else if i == 3 {
            Element::Fire
        } else {
            Element::Metal
        },
    }
}

/// Whether the submitted elements are, in any order, consecutive elements of the cycle.
pub fn matches_unordered_sequence(submitted: &[Element], length: usize, cycle: ElementCycle) -> (r:
    bool)
    ensures
        r == unordered_sequence(submitted@, length as int, cycle),
{
    if submitted.len() != length || length == 0 || length > 5 {
        return false;
    }
    let mut start: usize = 0;
    while start < 5
        invariant
            start <= 5,
            0 < length <= 5,
            submitted.len() == length,
            forall|s: int|
                0 <= s < start ==> !same_counts(cycle_window(cycle, s, length as int), submitted@),
        decreases 5 - start,
    {
        let mut window: Vec<Element> = Vec::new();
        let mut offset: usize = 0;
        while offset < length
            invariant
                offset <= length,
                length <= 5,
                start < 5,
                window@ =~= cycle_window(cycle, start as int, offset as int),
            decreases length - offset,
        {
            window.push(cycle_element(cycle, (start + offset) % 5));
            offset = offset + 1;
        }
        assert(window@ =~= cycle_window(cycle, start as int, length as int));
        if same_element_counts(window.as_slice(), submitted) {
            assert(0 <= start < 5 && same_counts(
                cycle_window(cycle, start as int, length as int),
                submitted@,
            ));
            assert(unordered_sequence(submitted@, length as int, cycle));
            return true;
        }
        start = start + 1;
    }
    false
}

// ---------------------------------------------------------------------------
// Custom pattern rules.
// ---------------------------------------------------------------------------

/// A custom pattern rule registered under an identity. Each published rule is a variant,
/// so that what a registered rule accepts is stated by `spec_custom` and a
/// registry of rules can be compared and copied like any other value.
#[derive(Clone, Copy, Debug, PartialEq, Eq, Structural)]
pub enum CustomMatcher {
    /// Two cards of different elements.
    TwoDifferentElements,
    /// Five cards of one level.
    FiveSameLevel,
    /// Three cards of one level.
    ThreeSameLevel,
    /// Two cards, Fire and Water, with levels totalling at least seven.
    PureFire,
    /// Two cards, Earth and Wood, with levels totalling at least seven.
    PlantEarth,
    /// Two cards of one level, at least one of the given element.
    ElementAndSameLevel(Element),
    /// Four cards: a Wood card, and three further cards that form a generating
    /// sequence with levels totalling at least ten.
    Reincarnation,
    /// Five cards, at least two of them Water.
    WaterWaterThreeAny,
    /// Four cards, exactly two of them Fire.
    FireFireTwoNonFire,
    /// At least one card, all Earth, levels totalling at least ten.
    EarthSumTen,
    /// Exactly `count` cards, each of the given level.
    AllOfLevel { count: usize, level: u32 },
    /// One card of even level.
    SingleEvenLevel,
    /// Three cards of three different levels.
    ThreeDifferentLevels,
    /// Three cards, at least two of the given element, at least one of level five.
    TwoOfElementAndLevelFive(Element),
    /// Five cards whose levels are exactly one through five.
    LevelsOneThroughFive,
    /// Three cards of one level and three different elements.
    ThreeDifferentElementsSameLevel,
    /// Exactly `count` cards, all of the given element.
    AllOfElement { count: usize, element: Element },
    /// Exactly `count` cards, all of the given element, each above `level_above`.
    AllOfElementAbove { count: usize, element: Element, level_above: u32 },
    /// One card of at least the given level.
    SingleAtLeastLevel(u32),
}

/// The two submitted cards' elements differ.
pub open spec fn spec_two_different_elements(s: Seq<SubmittedCardFacts>) -> bool {
    s.len() == 2 && s[0].element != s[1].element
}

/// Exactly `n` cards, all of the level of the first.
pub open spec fn spec_n_same_level(s: Seq<SubmittedCardFacts>, n: int) -> bool {
    s.len() == n && s.len() > 0 && all_level(s, s[0].level as int)
}

/// Exactly two cards, one of each element, levels totalling at least seven.
pub open spec fn spec_pair_with_sum_seven(s: Seq<SubmittedCardFacts>, a: Element, b: Element) -> bool {
    s.len() == 2 && any_elem(s, a) && any_elem(s, b) && level_sum(s) >= 7
}

/// The submitted cards other than the one at `skip`.
pub open spec fn without(s: Seq<SubmittedCardFacts>, skip: int) -> Seq<SubmittedCardFacts> {
    s.subrange(0, skip) + s.subrange(skip + 1, s.len() as int)
}

/// Four cards: some Wood card, and the others form a generating sequence of three with
/// levels totalling at least ten.
pub open spec fn spec_reincarnation(s: Seq<SubmittedCardFacts>) -> bool {
    &&& s.len() == 4
    &&& exists|w: int|
        0 <= w < 4 && s[w].element == Element::Wood && unordered_sequence(
            elements_of(without(s, w)),
            3,
            ElementCycle::Generating,
        ) && level_sum(without(s, w)) >= 10
}

/// Pairwise different levels of three cards.
pub open spec fn spec_three_different_levels(s: Seq<SubmittedCardFacts>) -> bool {
    s.len() == 3 && s[0].level != s[1].level && s[0].level != s[2].level && s[1].level
        != s[2].level
}

/// Five cards whose levels are exactly one through five.
pub open spec fn spec_levels_one_through_five(s: Seq<SubmittedCardFacts>) -> bool {
    s.len() == 5 && forall|l: int| 1 <= l <= 5 ==> any_level(s, l)
}

/// Three cards of the first card's level, of three different elements.
pub open spec fn spec_three_different_elements_same_level(s: Seq<SubmittedCardFacts>) -> bool {
    &&& s.len() == 3
    &&& all_level(s, s[0].level as int)
    &&& s[0].element != s[1].element
    &&& s[0].element != s[2].element
    &&& s[1].element != s[2].element
}

/// What a custom rule decides for the submitted cards.
pub open spec fn spec_custom(m: CustomMatcher, s: Seq<SubmittedCardFacts>) -> bool {
    match m {
        CustomMatcher::TwoDifferentElements => spec_two_different_elements(s),
        CustomMatcher::FiveSameLevel => spec_n_same_level(s, 5),
        CustomMatcher::ThreeSameLevel => spec_n_same_level(s, 3),
        CustomMatcher::PureFire => spec_pair_with_sum_seven(s, Element::Fire, Element::Water),
        CustomMatcher::PlantEarth => spec_pair_with_sum_seven(s, Element::Earth, Element::Wood),
        CustomMatcher::ElementAndSameLevel(e) => s.len() == 2 && any_elem(s, e) && s[0].level
            == s[1].level,
        CustomMatcher::Reincarnation => spec_reincarnation(s),
        CustomMatcher::WaterWaterThreeAny => s.len() == 5 && count_facts(s, Element::Water) >= 2,
        CustomMatcher::FireFireTwoNonFire => s.len() == 4 && count_facts(s, Element::Fire) == 2,
        CustomMatcher::EarthSumTen => s.len() > 0 && all_elem(s, Element::Earth) && level_sum(s)
            >= 10,
        CustomMatcher::AllOfLevel { count, level } => s.len() == count && all_level(
            s,
            level as int,
        ),
        CustomMatcher::SingleEvenLevel => s.len() == 1 && s[0].level % 2 == 0,
        CustomMatcher::ThreeDifferentLevels => spec_three_different_levels(s),
        CustomMatcher::TwoOfElementAndLevelFive(e) => s.len() == 3 && count_facts(s, e) >= 2
            && any_level(s, 5),
        CustomMatcher::LevelsOneThroughFive => spec_levels_one_through_five(s),
        CustomMatcher::ThreeDifferentElementsSameLevel => spec_three_different_elements_same_level(
            s,
        ),
        CustomMatcher::AllOfElement { count, element } => s.len() == count && all_elem(s, element),
        CustomMatcher::AllOfElementAbove { count, element, level_above } => s.len() == count
            && forall|i: int|
            0 <= i < s.len() ==> s[i].element == element && s[i].level > level_above,
        CustomMatcher::SingleAtLeastLevel(l) => s.len() == 1 && s[0].level >= l,
    }
}

fn n_same_level(s: &[SubmittedCardFacts], n: usize) -> (r: bool)
    ensures
        r == spec_n_same_level(s@, n as int),
{
    if s.len() != n || s.len() == 0 {
        return false;
    }
    all_of_level(s, s[0].level)
}

fn pair_with_sum_seven(s: &[SubmittedCardFacts], a: Element, b: Element) -> (r: bool)
    ensures
        r == spec_pair_with_sum_seven(s@, a, b),
{
    if s.len() != 2 || !has_element(s, a) || !has_element(s, b) {
        return false;
    }
    proof {
        reveal_with_fuel(level_sum, 3);
        assert(s@.drop_last().drop_last() =~= Seq::<SubmittedCardFacts>::empty());
    }
    (s[0].level as u64) + (s[1].level as u64) >= 7
}

pub fn cards_without(s: &[SubmittedCardFacts], skip: usize) -> (r: Vec<SubmittedCardFacts>)
    requires
        skip < s.len(),
    ensures
        r@ == without(s@, skip as int),
{
    let mut r: Vec<SubmittedCardFacts> = Vec::new();
    let mut i: usize = 0;
    while i < s.len()
        invariant
            i <= s.len(),
            skip < s.len(),
            r@ == (if i <= skip {
                s@.subrange(0, i as int)
            } else {
                s@.subrange(0, skip as int) + s@.subrange(skip as int + 1, i as int)
            }),
        decreases s.len() - i,
    {
        if i != skip {
            r.push(s[i]);
        }
        proof {
            if i < skip {
                assert(r@ =~= s@.subrange(0, i as int + 1));
            } else if i == skip {
                assert(r@ =~= s@.subrange(0, skip as int) + s@.subrange(
                    skip as int + 1,
                    i as int + 1,
                ));
            } else {
                assert(r@ =~= s@.subrange(0, skip as int) + s@.subrange(
                    skip as int + 1,
                    i as int + 1,
                ));
            }
        }
        i = i + 1;
    }
    r
}

fn reincarnation(s: &[SubmittedCardFacts]) -> (r: bool)
    ensures
        r == spec_reincarnation(s@),
{
    if s.len() != 4 {
        return false;
    }
    let mut w: usize = 0;
    while w < 4
        invariant
            w <= 4,
            s.len() == 4,
            forall|v: int|
                0 <= v < w ==> !(s@[v].element == Element::Wood && unordered_sequence(
                    elements_of(without(s@, v)),
                    3,
                    ElementCycle::Generating,
                ) && level_sum(without(s@, v)) >= 10),
        decreases 4 - w,
    {
        if s[w].element == Element::Wood {
            let rest = cards_without(s, w);
            let rest_elements = submitted_elements(rest.as_slice());
            if matches_unordered_sequence(rest_elements.as_slice(), 3, ElementCycle::Generating) {
                proof {
                    lemma_level_sum_bounded(rest@);
                }
                let mut sum: u64 = 0;
                let mut i: usize = 0;
                while i < 3
                    invariant
                        i <= 3,
                        rest@.len() == 3,
                        sum == level_sum(rest@.subrange(0, i as int)),
                        sum <= i * (u32::MAX as int),
                    decreases 3 - i,
                {
                    assert(rest@.subrange(0, i as int + 1).drop_last() =~= rest@.subrange(
                        0,
                        i as int,
                    ));
                    sum = sum + rest[i].level as u64;
                    i = i + 1;
                }
                assert(rest@.subrange(0, 3) =~= rest@);
                if sum >= 10 {
                    return true;
                }
            }
        }
        w = w + 1;
    }
    false
}

fn earth_sum_ten(s: &[SubmittedCardFacts]) -> (r: bool)
    ensures
        r == (s@.len() > 0 && all_elem(s@, Element::Earth) && level_sum(s@) >= 10),
{
    if s.len() == 0 || !all_of_element(s, Element::Earth) {
        return false;
    }
    let mut sum: u64 = 0;
    let mut i: usize = 0;
    while i < s.len()
        invariant
            i <= s.len(),
            sum == (if level_sum(s@.subrange(0, i as int)) >= 10 {
                10
            } else {
                level_sum(s@.subrange(0, i as int))
            }),
        decreases s.len() - i,
    {
        proof {
            assert(s@.subrange(0, i as int + 1).drop_last() =~= s@.subrange(0, i as int));
            lemma_level_sum_nonneg(s@.subrange(0, i as int));
        }
        if sum < 10 {
            sum = sum + s[i].level as u64;
            if sum > 10 {
                sum = 10;
            }
        }
        i = i + 1;
    }
    assert(s@.subrange(0, s.len() as int) =~= s@);
    sum >= 10
}

fn three_different_levels(s: &[SubmittedCardFacts]) -> (r: bool)
    ensures
        r == spec_three_different_levels(s@),
{
    s.len() == 3 && s[0].level != s[1].level && s[0].level != s[2].level && s[1].level
        != s[2].level
}

fn levels_one_through_five(s: &[SubmittedCardFacts]) -> (r: bool)
    ensures
        r == spec_levels_one_through_five(s@),
{
    if s.len() != 5 {
        return false;
    }
    let mut l: u32 = 1;
    while l <= 5
        invariant
            1 <= l <= 6,
            s.len() == 5,
            forall|m: int| 1 <= m < l ==> any_level(s@, m),
        decreases 6 - l,
    {
        if !has_level(s, l) {
            return false;
        }
        l = l + 1;
    }
    true
}

fn three_different_elements_same_level(s: &[SubmittedCardFacts]) -> (r: bool)
    ensures
        r == spec_three_different_elements_same_level(s@),
{
    if s.len() != 3 {
        return false;
    }
    all_of_level(s, s[0].level) && s[0].element != s[1].element && s[0].element != s[2].element
        && s[1].element != s[2].element
}

fn all_of_element_above(s: &[SubmittedCardFacts], count: usize, element: Element, level_above: u32) -> (r:
    bool)
    ensures
        r == (s@.len() == count && forall|i: int|
            0 <= i < s@.len() ==> s@[i].element == element && s@[i].level > level_above),
{
    if s.len() != count {
        return false;
    }
    let mut i: usize = 0;
    while i < s.len()
        invariant
            i <= s.len(),
            forall|j: int| 0 <= j < i ==> s@[j].element == element && s@[j].level > level_above,
        decreases s.len() - i,
    {
        if s[i].element != element || s[i].level <= level_above {
            return false;
        }
        i = i + 1;
    }
    true
}

/// What a custom rule decides for the submitted cards.
pub fn custom_matches(m: CustomMatcher, s: &[SubmittedCardFacts]) -> (r: bool)
    ensures
        r == spec_custom(m, s@),
{
    match m {
        CustomMatcher::TwoDifferentElements => s.len() == 2 && s[0].element != s[1].element,
        CustomMatcher::FiveSameLevel => n_same_level(s, 5),
        CustomMatcher::ThreeSameLevel => n_same_level(s, 3),
        CustomMatcher::PureFire => pair_with_sum_seven(s, Element::Fire, Element::Water),
        CustomMatcher::PlantEarth => pair_with_sum_seven(s, Element::Earth, Element::Wood),
        CustomMatcher::ElementAndSameLevel(e) => s.len() == 2 && has_element(s, e) && s[0].level
            == s[1].level,
        CustomMatcher::Reincarnation => reincarnation(s),
        CustomMatcher::WaterWaterThreeAny => s.len() == 5 && count_element(s, Element::Water) >= 2,
        CustomMatcher::FireFireTwoNonFire => s.len() == 4 && count_element(s, Element::Fire) == 2,
        CustomMatcher::EarthSumTen => earth_sum_ten(s),
        CustomMatcher::AllOfLevel { count, level } => s.len() == count && all_of_level(s, level),
        CustomMatcher::SingleEvenLevel => s.len() == 1 && s[0].level % 2 == 0,
        CustomMatcher::ThreeDifferentLevels => three_different_levels(s),
        CustomMatcher::TwoOfElementAndLevelFive(e) => s.len() == 3 && count_element(s, e) >= 2
            && has_level(s, 5),
        CustomMatcher::LevelsOneThroughFive => levels_one_through_five(s),
        CustomMatcher::ThreeDifferentElementsSameLevel => three_different_elements_same_level(s),
        CustomMatcher::AllOfElement { count, element } => s.len() == count && all_of_element(s, element),
        CustomMatcher::AllOfElementAbove { count, element, level_above } => all_of_element_above(
            s,
            count,
            element,
            level_above,
        ),
        CustomMatcher::SingleAtLeastLevel(l) => s.len() == 1 && s[0].level >= l,
    }
}

// ---------------------------------------------------------------------------
// The matcher.
// ---------------------------------------------------------------------------

/// Decides whether submitted cards form a pattern; custom patterns are looked up among
/// the rules registered by identity.
#[derive(Debug, Default)]
pub struct FormationMatcher {
    custom_matchers: Vec<(String, CustomMatcher)>,
}

/// The rule registered last under `id` among `entries`, if any.
pub open spec fn lookup_custom(entries: Seq<(String, CustomMatcher)>, id: Seq<char>) -> Option<
    CustomMatcher,
>
    decreases entries.len(),
{
    if entries.len() == 0 {
        None
    } else if entries.last().0@ == id {
        Some(entries.last().1)
    } else {
        lookup_custom(entries.drop_last(), id)
    }
}

/// Whether the submitted cards form the pattern, given the registered custom rules.
pub open spec fn spec_pattern_matches(
    entries: Seq<(String, CustomMatcher)>,
    pattern: PatternView,
    s: Seq<SubmittedCardFacts>,
) -> bool {
    match pattern {
        PatternView::ExactElements(elements) => same_counts(elements, elements_of(s)),
        PatternView::GeneratingSequence { length } => unordered_sequence(
            elements_of(s),
            length as int,
            ElementCycle::Generating,
        ),
        PatternView::OvercomingSequence { length } => unordered_sequence(
            elements_of(s),
            length as int,
            ElementCycle::Overcoming,
        ),
        PatternView::Custom(id) => match lookup_custom(entries, id) {
            Some(m) => spec_custom(m, s),
            None => false,
        },
    }
}

impl FormationMatcher {
    /// The registered custom rules.
    pub closed spec fn entries(&self) -> Seq<(String, CustomMatcher)> {
        self.custom_matchers@
    }

    /// A matcher without custom rules.
    pub fn new() -> (r: Self)
        ensures
            r.entries().len() == 0,
    {
        FormationMatcher { custom_matchers: Vec::new() }
    }

    /// Registers a custom rule under `id`, replacing any rule registered under it before.
    pub fn with_custom(self, id: &str, matcher: CustomMatcher) -> (r: Self)
        ensures
            forall|other: Seq<char>|
                #![trigger lookup_custom(r.entries(), other)]
                lookup_custom(r.entries(), other) == if other == id@ {
                    Some(matcher)
                } else {
                    lookup_custom(self.entries(), other)
                },
    {
        let mut entries = self.custom_matchers;
        entries.push((owned(id), matcher));
        proof {
            assert forall|other: Seq<char>|
                #![trigger lookup_custom(entries@, other)]
                lookup_custom(entries@, other) == if other == id@ {
                    Some(matcher)
                } else {
                    lookup_custom(self.custom_matchers@, other)
                } by {
                assert(entries@.drop_last() =~= self.custom_matchers@);
            }
        }
        FormationMatcher { custom_matchers: entries }
    }

    fn custom_for(&self, id: &str) -> (r: Option<CustomMatcher>)
        ensures
            r == lookup_custom(self.entries(), id@),
    {
        let mut i = self.custom_matchers.len();
        assert(self.custom_matchers@.subrange(0, i as int) =~= self.custom_matchers@);
        while i > 0
            invariant
                i <= self.custom_matchers.len(),
                lookup_custom(self.custom_matchers@, id@) == lookup_custom(
                    self.custom_matchers@.subrange(0, i as int),
                    id@,
                ),
            decreases i,
        {
            let ghost prefix = self.custom_matchers@.subrange(0, i as int);
            assert(prefix.drop_last() =~= self.custom_matchers@.subrange(0, i as int - 1));
            if str_eq(self.custom_matchers[i - 1].0.as_str(), id) {
                return Some(self.custom_matchers[i - 1].1);
            }
            i = i - 1;
        }
        None
    }

    /// Whether the submitted cards form the pattern.
    pub fn matches(&self, pattern: &FormationPattern, submitted: &[SubmittedCardFacts]) -> (r:
        bool)
        ensures
            r == spec_pattern_matches(self.entries(), pattern@, submitted@),
    {
        let submitted_elements = submitted_elements(submitted);
        match pattern {
            FormationPattern::ExactElements(elements) => same_element_counts(
                elements.as_slice(),
                submitted_elements.as_slice(),
            ),
            FormationPattern::GeneratingSequence { length } => matches_unordered_sequence(
                submitted_elements.as_slice(),
                *length,
                ElementCycle::Generating,
            ),
            FormationPattern::OvercomingSequence { length } => matches_unordered_sequence(
                submitted_elements.as_slice(),
                *length,
                ElementCycle::Overcoming,
            ),
            FormationPattern::Custom(id) => match self.custom_for(id.as_str()) {
                Some(m) => custom_matches(m, submitted),
                None => false,
            },
        }
    }
}


/// The sum of the levels of the submitted cards of element `e`.
pub open spec fn element_level_sum(s: Seq<SubmittedCardFacts>, e: Element) -> int
    decreases s.len(),
{
    if s.len() == 0 {
        0
    } else {
        element_level_sum(s.drop_last(), e) + if s.last().element == e {
            s.last().level as int
        } else {
            0
        }
    }
}

proof fn lemma_element_level_sum_nonnegative(s: Seq<SubmittedCardFacts>, e: Element)
    ensures
        element_level_sum(s, e) >= 0,
    decreases s.len(),
{
    if s.len() > 0 {
        lemma_element_level_sum_nonnegative(s.drop_last(), e);
    }
}

/// Whether the submitted cards of element `e` total at least `minimum` in level.
pub fn element_minimum(facts: &[SubmittedCardFacts], e: Element, minimum: u32) -> (r: bool)
    ensures
        r == (element_level_sum(facts@, e) >= minimum),
{
    let mut sum: u64 = 0;
    let mut i: usize = 0;
    while i < facts.len()
        invariant
            i <= facts.len(),
            sum == (if element_level_sum(facts@.subrange(0, i as int), e) >= minimum {
                minimum as int
            } else {
                element_level_sum(facts@.subrange(0, i as int), e)
            }),
        decreases facts.len() - i,
    {
        proof {
            assert(facts@.subrange(0, i as int + 1).drop_last() =~= facts@.subrange(0, i as int));
            lemma_element_level_sum_nonnegative(facts@.subrange(0, i as int), e);
        }
        if sum < minimum as u64 && facts[i].element == e {
            sum = sum + facts[i].level as u64;
            if sum > minimum as u64 {
                sum = minimum as u64;
            }
        }
        i = i + 1;
    }
    assert(facts@.subrange(0, facts.len() as int) =~= facts@);
    sum >= minimum as u64
}

/// At least one card, all of element `e`, with levels totalling at least `minimum`.
pub open spec fn spec_one_element_minimum(
    facts: Seq<SubmittedCardFacts>,
    e: Element,
    minimum: int,
) -> bool {
    facts.len() > 0 && all_elem(facts, e) && level_sum(facts) >= minimum
}

/// Whether at least one card is submitted, all of element `e`, totalling at least
/// `minimum` in level.
pub fn one_element_minimum(facts: &[SubmittedCardFacts], e: Element, minimum: u32) -> (r: bool)
    ensures
        r == spec_one_element_minimum(facts@, e, minimum as int),
{
    facts.len() > 0 && all_of_element(facts, e) && level_sum_at_least(facts, minimum)
}


/// What the custom patterns accept, card by card: two cards of different elements; five,
/// or three, cards all of one level; three cards whose levels are pairwise different;
/// three cards of one level whose elements are pairwise different; exactly `count` cards
/// all of a level; one card of even level; exactly `count` cards all of an element.
pub proof fn lemma_custom_pattern_meanings(s: Seq<SubmittedCardFacts>)
    ensures
        spec_custom(CustomMatcher::TwoDifferentElements, s) <==> (s.len() == 2 && s[0].element
            != s[1].element),
        spec_custom(CustomMatcher::FiveSameLevel, s) <==> (s.len() == 5 && forall|i: int, j: int|
            0 <= i < 5 && 0 <= j < 5 ==> s[i].level == s[j].level),
        spec_custom(CustomMatcher::ThreeSameLevel, s) <==> (s.len() == 3 && forall|i: int, j: int|
            0 <= i < 3 && 0 <= j < 3 ==> s[i].level == s[j].level),
        spec_custom(CustomMatcher::ThreeDifferentLevels, s) <==> (s.len() == 3 && forall|
            i: int,
            j: int,
        | 0 <= i < j < 3 ==> s[i].level != s[j].level),
        spec_custom(CustomMatcher::ThreeDifferentElementsSameLevel, s) <==> (s.len() == 3 && (forall|
            i: int,
            j: int,
        | 0 <= i < 3 && 0 <= j < 3 ==> s[i].level == s[j].level) && (forall|i: int, j: int|
            0 <= i < j < 3 ==> s[i].element != s[j].element)),
        forall|count: usize, level: u32|
            spec_custom(CustomMatcher::AllOfLevel { count, level }, s) <==> (s.len() == count
                && forall|i: int| 0 <= i < s.len() ==> s[i].level == level),
        spec_custom(CustomMatcher::SingleEvenLevel, s) <==> (s.len() == 1 && s[0].level % 2 == 0),
        forall|count: usize, e: Element|
            spec_custom(CustomMatcher::AllOfElement { count, element: e }, s) <==> (s.len() == count
                && forall|i: int| 0 <= i < s.len() ==> s[i].element == e),
{
    if s.len() == 5 && all_level(s, s[0].level as int) {
        assert forall|i: int, j: int| 0 <= i < 5 && 0 <= j < 5 implies s[i].level == s[j].level by {}
    }
    if s.len() == 5 && (forall|i: int, j: int| 0 <= i < 5 && 0 <= j < 5 ==> s[i].level == s[j].level) {
        assert(all_level(s, s[0].level as int));
    }
    if s.len() == 3 && (forall|i: int, j: int| 0 <= i < 3 && 0 <= j < 3 ==> s[i].level == s[j].level) {
        assert(all_level(s, s[0].level as int));
    }
    if s.len() == 3 && all_level(s, s[0].level as int) {
        assert forall|i: int, j: int| 0 <= i < 3 && 0 <= j < 3 implies s[i].level == s[j].level by {}
    }
    if s.len() == 3 && (forall|i: int, j: int| 0 <= i < j < 3 ==> s[i].level != s[j].level) {
        assert(s[0].level != s[1].level && s[0].level != s[2].level && s[1].level != s[2].level);
    }
    if s.len() == 3 && (forall|i: int, j: int| 0 <= i < j < 3 ==> s[i].element != s[j].element) {
        assert(s[0].element != s[1].element && s[0].element != s[2].element && s[1].element
            != s[2].element);
    }
}

} // verus!
