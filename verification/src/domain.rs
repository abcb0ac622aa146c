//! Core game vocabulary shared by every rule module: elements, identifiers,
//! card definitions, the game setup record, and the error taxonomy.
use vstd::prelude::*;

verus! {

/// One of the five elements printed on a card.
#[derive(Clone, Copy, Debug, PartialEq, Eq, Structural, Hash)]
pub enum Element {
    Metal,
    Wood,
    Water,
    Fire,
    Earth,
}

/// Equality of two strings, by their characters.
pub fn str_eq(a: &str, b: &str) -> (r: bool)
    ensures
        r == (a@ == b@),
{
    a.to_owned() == b.to_owned()
}

/// Whether `prefix` is a prefix of `s`, by characters.
pub fn str_starts_with(s: &str, prefix: &str) -> (r: bool)
    ensures
        r == (prefix@.len() <= s@.len() && s@.subrange(0, prefix@.len() as int) == prefix@),
{
    let n = prefix.unicode_len();
    let m = s.unicode_len();
    if n > m {
        return false;
    }
    let mut i: usize = 0;
    while i < n
        invariant
            n == prefix@.len(),
            m == s@.len(),
            n <= m,
            i <= n,
            forall|j: int| 0 <= j < i ==> s@[j] == prefix@[j],
        decreases n - i,
    {
        if s.get_char(i) != prefix.get_char(i) {
            assert(s@.subrange(0, n as int)[i as int] == s@[i as int]);
            return false;
        }
        i = i + 1;
    }
    assert(s@.subrange(0, n as int) =~= prefix@);
    true
}

/// A string built from a literal, carrying its characters.
pub fn owned(s: &str) -> (r: String)
    ensures
        r@ == s@,
{
    s.to_owned()
}

/// A player's identity.
#[derive(Debug, PartialEq, Eq, Hash)]
pub struct PlayerId(pub String);

/// A team's identity.
#[derive(Debug, PartialEq, Eq, Hash)]
pub struct TeamId(pub String);

/// The identity of an optional rule module.
#[derive(Debug, PartialEq, Eq, Hash)]
pub struct RuleModuleId(pub String);

/// The identity of a printed card definition.
#[derive(Debug, PartialEq, Eq, Hash, PartialOrd, Ord)]
pub struct CardDefId(pub String);

/// The identity of a profession.
#[derive(Debug, PartialEq, Eq, Hash)]
pub struct ProfessionId(pub String);

/// The identity of a ruleset.
#[derive(Debug, PartialEq, Eq, Hash)]
pub struct RulesetId(pub String);

impl View for PlayerId {
    type V = Seq<char>;

    open spec fn view(&self) -> Seq<char> {
        self.0@
    }
}

impl View for TeamId {
    type V = Seq<char>;

    open spec fn view(&self) -> Seq<char> {
        self.0@
    }
}

impl View for RuleModuleId {
    type V = Seq<char>;

    open spec fn view(&self) -> Seq<char> {
        self.0@
    }
}

impl View for CardDefId {
    type V = Seq<char>;

    open spec fn view(&self) -> Seq<char> {
        self.0@
    }
}

impl View for ProfessionId {
    type V = Seq<char>;

    open spec fn view(&self) -> Seq<char> {
        self.0@
    }
}

impl View for RulesetId {
    type V = Seq<char>;

    open spec fn view(&self) -> Seq<char> {
        self.0@
    }
}

impl Clone for PlayerId {
    fn clone(&self) -> (r: Self)
        ensures
            r == *self,
    {
        PlayerId(self.0.clone())
    }
}

impl Clone for TeamId {
    fn clone(&self) -> (r: Self)
        ensures
            r == *self,
    {
        TeamId(self.0.clone())
    }
}

impl Clone for RuleModuleId {
    fn clone(&self) -> (r: Self)
        ensures
            r == *self,
    {
        RuleModuleId(self.0.clone())
    }
}

impl Clone for CardDefId {
    fn clone(&self) -> (r: Self)
        ensures
            r == *self,
    {
        CardDefId(self.0.clone())
    }
}

impl Clone for ProfessionId {
    fn clone(&self) -> (r: Self)
        ensures
            r == *self,
    {
        ProfessionId(self.0.clone())
    }
}

impl Clone for RulesetId {
    fn clone(&self) -> (r: Self)
        ensures
            r == *self,
    {
        RulesetId(self.0.clone())
    }
}

impl PlayerId {
    pub fn new(id: &str) -> (r: Self)
        ensures
            r@ == id@,
    {
        PlayerId(owned(id))
    }

    pub fn as_str(&self) -> (r: &str)
        ensures
            r@ == self@,
    {
        self.0.as_str()
    }

    /// Whether two players are the same player.
    pub fn same(&self, other: &PlayerId) -> (r: bool)
        ensures
            r == (self@ == other@),
    {
        self.0 == other.0
    }
}

impl TeamId {
    pub fn new(id: &str) -> (r: Self)
        ensures
            r@ == id@,
    {
        TeamId(owned(id))
    }

    /// Whether two teams are the same team.
    pub fn same(&self, other: &TeamId) -> (r: bool)
        ensures
            r == (self@ == other@),
    {
        self.0 == other.0
    }
}

impl RuleModuleId {
    pub fn new(id: &str) -> (r: Self)
        ensures
            r@ == id@,
    {
        RuleModuleId(owned(id))
    }

    pub fn as_str(&self) -> (r: &str)
        ensures
            r@ == self@,
    {
        self.0.as_str()
    }
}

impl CardDefId {
    pub fn new(id: &str) -> (r: Self)
        ensures
            r@ == id@,
    {
        CardDefId(owned(id))
    }

    pub fn as_str(&self) -> (r: &str)
        ensures
            r@ == self@,
    {
        self.0.as_str()
    }

    /// Whether two definitions are the same definition.
    pub fn same(&self, other: &CardDefId) -> (r: bool)
        ensures
            r == (self@ == other@),
    {
        self.0 == other.0
    }
}

impl ProfessionId {
    pub fn new(id: &str) -> (r: Self)
        ensures
            r@ == id@,
    {
        ProfessionId(owned(id))
    }

    pub fn as_str(&self) -> (r: &str)
        ensures
            r@ == self@,
    {
        self.0.as_str()
    }
}

/// The only ruleset this engine implements.
pub const BASE_RULESET_ID: &'static str = "base";

impl RulesetId {
    pub fn base() -> (r: Self)
        ensures
            r@ == BASE_RULESET_ID@,
    {
        RulesetId(owned(BASE_RULESET_ID))
    }

    pub fn new(id: &str) -> (r: Self)
        ensures
            r@ == id@,
    {
        RulesetId(owned(id))
    }
}

/// A physical card in play, identified by a positive serial number.
#[derive(Clone, Copy, Debug, PartialEq, Eq, Structural, Hash, PartialOrd, Ord)]
pub struct CardInstanceId(pub u64);

impl CardInstanceId {
    pub fn new(value: u64) -> (r: Self)
        ensures
            r.0 == value,
    {
        CardInstanceId(value)
    }

    pub fn as_u64(&self) -> (r: u64)
        ensures
            r == self.0,
    {
        self.0
    }
}

/// A copy of a list of card instances.
pub fn copy_cards(cards: &[CardInstanceId]) -> (r: Vec<CardInstanceId>)
    ensures
        r@ == cards@,
{
    let mut r: Vec<CardInstanceId> = Vec::new();
    let mut i: usize = 0;
    while i < cards.len()
        invariant
            i <= cards.len(),
            r@ == cards@.subrange(0, i as int),
        decreases cards.len() - i,
    {
        r.push(cards[i]);
        assert(r@ =~= cards@.subrange(0, i as int + 1));
        i = i + 1;
    }
    assert(cards@.subrange(0, cards.len() as int) =~= cards@);
    r
}

/// The identity of an issued pending choice.
#[derive(Clone, Copy, Debug, PartialEq, Eq, Structural, Hash, PartialOrd, Ord)]
pub struct ChoiceId(pub u64);

impl ChoiceId {
    pub fn new(value: u64) -> (r: Self)
        ensures
            r.0 == value,
    {
        ChoiceId(value)
    }
}

pub const TOTEM_FORMATION_MODULE_ID: &'static str = "totem-formation";
pub const DISCARD_RETRIEVAL_MODULE_ID: &'static str = "discard-retrieval";
pub const PERSONAL_DECK_MODULE_ID: &'static str = "personal-deck";
pub const FIVE_DIRECTIONS_LEGEND_MODULE_ID: &'static str = "five-directions-legend";
pub const STAR_MODULE_ID: &'static str = "star";
pub const HERO_SCHOOLS_MODULE_ID: &'static str = "hero-schools";
pub const SPIRIT_MODULE_ID: &'static str = "spirit";
pub const JIANGHU_MODULE_ID: &'static str = "jianghu";
pub const CONFLUENCE_GENERATION_MODULE_ID: &'static str = "confluence-generation";
pub const DARK_GLIMMER_MODULE_ID: &'static str = "dark-glimmer";
pub const ECHO_MODULE_ID: &'static str = "echo";
pub const TRIBULATION_MODULE_ID: &'static str = "tribulation";
pub const POUCH_MODULE_ID: &'static str = "pouch";

/// The edition of the published rules a game is played under.
#[derive(Clone, Copy, Debug, PartialEq, Eq, Structural, Hash, Default)]
pub enum RuleVersion {
    /// The current edition, which allows every official rule module.
    #[default]
    Current,
}

/// A printed card definition.
#[derive(Debug, PartialEq, Eq)]
pub struct CardDef {
    pub id: CardDefId,
    pub name: String,
    pub element: Element,
    pub level: u32,
}

impl Clone for CardDef {
    fn clone(&self) -> (r: Self)
        ensures
            r == *self,
    {
        CardDef { id: self.id.clone(), name: self.name.clone(), element: self.element, level: self.level }
    }
}

/// Where a card instance comes from: the shared supply or a player's own deck.
#[derive(Debug, PartialEq, Eq)]
pub enum CardOrigin {
    Shared,
    Player(PlayerId),
}

impl Clone for CardOrigin {
    fn clone(&self) -> (r: Self)
        ensures
            r == *self,
    {
        match self {
            CardOrigin::Shared => CardOrigin::Shared,
            CardOrigin::Player(p) => CardOrigin::Player(p.clone()),
        }
    }
}

/// A card instance: its serial, the definition it prints, and its origin.
#[derive(Debug, PartialEq, Eq)]
pub struct CardInstanceDef {
    pub instance: CardInstanceId,
    pub definition: CardDefId,
    pub origin: CardOrigin,
}

impl Clone for CardInstanceDef {
    fn clone(&self) -> (r: Self)
        ensures
            r == *self,
    {
        CardInstanceDef {
            instance: self.instance,
            definition: self.definition.clone(),
            origin: self.origin.clone(),
        }
    }
}

/// A player's submitted list of card definitions for a personal deck.
#[derive(Debug, PartialEq, Eq)]
pub struct PlayerDeckList {
    pub player: PlayerId,
    pub name: String,
    pub cards: Vec<CardDefId>,
}

/// The abstract content of a deck list: its owner, its name, and its card identities.
pub open spec fn def_id_views(cards: Seq<CardDefId>) -> Seq<Seq<char>> {
    cards.map_values(|c: CardDefId| c@)
}

impl View for PlayerDeckList {
    type V = (Seq<char>, Seq<char>, Seq<Seq<char>>);

    open spec fn view(&self) -> (Seq<char>, Seq<char>, Seq<Seq<char>>) {
        (self.player@, self.name@, def_id_views(self.cards@))
    }
}

impl Clone for PlayerDeckList {
    fn clone(&self) -> (r: Self)
        ensures
            r@ == self@,
            r.cards@ == self.cards@,
    {
        PlayerDeckList {
            player: self.player.clone(),
            name: self.name.clone(),
            cards: clone_def_ids(&self.cards),
        }
    }
}

/// A copy of a list of card definition identities.
pub fn clone_def_ids(v: &Vec<CardDefId>) -> (r: Vec<CardDefId>)
    ensures
        r@ == v@,
{
    let mut r: Vec<CardDefId> = Vec::new();
    let mut i: usize = 0;
    while i < v.len()
        invariant
            i <= v.len(),
            r@ == v@.subrange(0, i as int),
        decreases v.len() - i,
    {
        r.push(v[i].clone());
        i = i + 1;
    }
    assert(r@ =~= v@);
    r
}

/// A seated player and the team they play for.
#[derive(Debug, PartialEq, Eq)]
pub struct Player {
    pub id: PlayerId,
    pub team: TeamId,
}

impl Clone for Player {
    fn clone(&self) -> (r: Self)
        ensures
            r == *self,
    {
        Player { id: self.id.clone(), team: self.team.clone() }
    }
}

/// A team's shared life total.
#[derive(Debug, PartialEq, Eq)]
pub struct TeamHp {
    pub team: TeamId,
    pub hp: i32,
}

/// Everything fixed before the first event of a game.
#[derive(Debug, PartialEq, Eq)]
pub struct GameSetup {
    pub ruleset: RulesetId,
    pub rule_version: RuleVersion,
    pub enabled_rule_modules: Vec<RuleModuleId>,
    pub players: Vec<Player>,
    pub turn_order: Vec<PlayerId>,
    pub hp: Vec<TeamHp>,
    pub card_defs: Vec<CardDef>,
    pub card_instances: Vec<CardInstanceDef>,
    pub deck_lists: Vec<PlayerDeckList>,
    pub hand_limit: usize,
    pub base_draw: usize,
}

/// Whether a module identity occurs in a list of enabled modules.
pub open spec fn module_enabled(modules: Seq<RuleModuleId>, id: Seq<char>) -> bool {
    exists|i: int| 0 <= i < modules.len() && modules[i]@ == id
}

/// Whether a list of enabled modules contains the given module.
pub fn modules_contain(modules: &Vec<RuleModuleId>, id: &str) -> (r: bool)
    ensures
        r == module_enabled(modules@, id@),
{
    let mut i: usize = 0;
    while i < modules.len()
        invariant
            i <= modules.len(),
            forall|j: int| 0 <= j < i ==> modules@[j]@ != id@,
        decreases modules.len() - i,
    {
        if str_eq(modules[i].as_str(), id) {
            return true;
        }
        i = i + 1;
    }
    false
}

impl GameSetup {
    /// Whether the setup enables the given rule module.
    pub fn has_rule_module(&self, id: &str) -> (r: bool)
        ensures
            r == module_enabled(self.enabled_rule_modules@, id@),
    {
        modules_contain(&self.enabled_rule_modules, id)
    }
}

/// The phases of a turn.
#[derive(Clone, Copy, Debug, PartialEq, Eq, Structural)]
pub enum Phase {
    TurnStart,
    TurnDraw,
    Action,
    ActiveEffects,
    TurnEnd,
}

/// Where a game stands: still being prepared, being played, or over.
#[derive(Clone, Copy, Debug, PartialEq, Eq, Structural)]
pub enum GameStatusKind {
    Preparing,
    InProgress,
    Finished,
}

/// Why a player passes the action instead of acting.
#[derive(Clone, Copy, Debug, PartialEq, Eq, Structural)]
pub enum PassActionReason {
    NoCardsInHand,
    CannotActByStatus,
}

/// Why a player cannot act now.
#[derive(Debug, PartialEq, Eq)]
pub enum CannotPerformFormationReason {
    PendingChoiceInProgress { player: PlayerId },
    WrongPlayer { expected: PlayerId, actual: PlayerId },
    WrongPhase { expected: Phase, actual: Phase },
    CannotActByStatus { player: PlayerId },
}

/// Errors about a request that the rules refuse.
#[derive(Debug, PartialEq, Eq)]
pub enum ValidationError {
    GameFinished,
    GamePreparationInProgress,
    PendingRandomnessInProgress { request_id: String },
    PendingChoiceInProgress { player: PlayerId },
    WrongPhase { expected: Phase, actual: Phase },
    CannotPassAction { reason: PassActionReason },
    CannotPerformFormation { reason: CannotPerformFormationReason },
    CannotChangeProfession { reason: CannotPerformFormationReason },
    DiscardRetrievalDisabled,
    NoRetrievableDiscard { previous_player: PlayerId },
    UnknownRuleModule(RuleModuleId),
    DuplicateRuleModule(RuleModuleId),
    MissingRuleModuleDependencies { module: RuleModuleId, required: Vec<RuleModuleId> },
    UnsupportedRuleset(RulesetId),
    UnknownPlayer(PlayerId),
    WrongPlayer { expected: PlayerId, actual: PlayerId },
    StaleChoiceId { expected: ChoiceId, actual: ChoiceId },
    MissingPendingChoice,
    InvalidChoiceAnswer,
    DuplicateCard(CardInstanceId),
    MissingCardInstanceDefinition(CardInstanceId),
    EmptyTurnOrder,
    CardNotInHand(CardInstanceId),
    DuplicateChoiceCard(CardInstanceId),
    IllegalChoiceCard(CardInstanceId),
    TrustedRandomSelectionRequired { effect_id: String },
    ProfessionAbilityCannotResolve(String),
    ProfessionChangePatternMismatch { profession: ProfessionId },
    HeroSchoolsDisabled,
    UnknownProfession(ProfessionId),
    ProfessionPrerequisiteNotMet {
        profession: ProfessionId,
        required: ProfessionId,
        actual: Option<ProfessionId>,
    },
    MissingTeamHp(TeamId),
}

/// Errors that reveal a broken engine invariant rather than a bad request.
#[derive(Debug, PartialEq, Eq)]
pub enum EngineInvariantError {
    NotEnoughCards { needed: usize, available: usize },
    InvalidPendingChoice,
    DuplicatePendingChoice { player: PlayerId },
    InconsistentFormationRegistry,
    DuplicateFormationArea { player: PlayerId },
    FormationAreaMissing { player: PlayerId },
    DuplicateProfession { player: PlayerId },
    InvalidHpLedger { reason: String },
}

/// Any error the rules engine reports.
#[derive(Debug, PartialEq, Eq)]
pub enum GameError {
    Validation(ValidationError),
    EngineInvariant(EngineInvariantError),
}

/// How many more times an owner may use a limited rule, out of a maximum.
#[derive(Debug, PartialEq, Eq)]
pub struct LimitedUse {
    pub owner: PlayerId,
    pub key: String,
    pub remaining: u32,
    pub maximum: u32,
}

/// A card a Confluence tuning retrieved, which its owner must use this turn.
#[derive(Debug, PartialEq, Eq)]
pub struct ConfluenceCardObligation {
    pub owner: PlayerId,
    pub card: CardInstanceId,
    pub allow_profession_formation: bool,
    pub applied_on_turn: u64,
    pub residual_element: Option<Element>,
    pub residual_level: Option<u32>,
}

/// The kinds of lasting Jianghu states.
#[derive(Clone, Copy, Debug, PartialEq, Eq, Structural)]
pub enum JianghuStateKind {
    Poison,
    ThousandBlades,
    SnowTreading,
}

/// A lasting Jianghu state on a player.
#[derive(Debug, PartialEq, Eq)]
pub struct JianghuState {
    pub owner: PlayerId,
    pub kind: JianghuStateKind,
    pub remaining_turns: u32,
    pub expires_on_turn: Option<u64>,
    pub last_resolved_turn: Option<u64>,
}


/// How long a status lasts.
#[derive(Debug, PartialEq, Eq)]
pub enum StatusDuration {
    /// Until the start of the player's next turn.
    UntilTurnStart { player: PlayerId },
    /// Until the end of the player's turn.
    UntilTurnEnd { player: PlayerId },
    /// Until the end of the player's turn with the given turn number.
    UntilTurnEndNumber { player: PlayerId, turn_number: u64 },
    Permanent,
}

/// A moment at which statuses may expire.
#[derive(Debug, PartialEq, Eq)]
pub enum StatusExpiryTiming {
    TurnStart { player: PlayerId },
    TurnEnd { player: PlayerId },
}

/// Why a player's turn draw is skipped.
#[derive(Clone, Copy, Debug, PartialEq, Eq, Structural)]
pub enum TurnDrawSkipReason {
    CannotDrawByStatus,
    HandLimitReached,
}

} // verus!
