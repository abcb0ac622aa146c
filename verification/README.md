# fewfc

A rules engine for CFECards, verified with Verus. The library states what each rule
computes in `requires`/`ensures` contracts over mathematical models (sequences, views of
identities, spec functions for the rule tables) and proves its code against them.

## Layout

```text
src/
  domain.rs                  identities, cards, setups, errors and the lasting states
  rules.rs                   the rule modules:
  rules/
    matcher.rs               formation patterns and what submitted cards must satisfy
    registry.rs              formation and effect definitions, and their registry
    catalog.rs               the base formations
    deck_composition.rs      deck lists, the preconstructed deck, deck validation
    base.rs                  official setups, deck order, card labels, the opening deal,
                             turn order, engine invariants, status expiry, the turn draw
    official.rs              the official rule modules and versions, setup configuration
    official_formations.rs   the formations of the enabled modules, in module order
    default_formations.rs    the default modules' formation table registers consistently
    attack.rs                point formulas, environment and element interaction,
                             shields, life changes, the previewed points of an attack,
                             the defender's share of an attack
    covered_passive.rs       flipping the previous player's passives and counter effects
    formation_effect_sequence.rs  the shared fate that follows a formation effect
    command.rs               the guards a command passes, passing and its events, the guards of a
                             profession change and ability, retrieving the previous
                             turn's discard, the pass and retrieval a player is
                             offered, the next automatic step of a turn
    action_detail.rs, detail.rs   the player-facing detail of offered actions
    pending_choice.rs        pending choices and the answers they accept
    deck_supply.rs           how a draw is supplied from the deck and the discard
    profession.rs            the shared shape of profession catalogs
    hero.rs, dark.rs, confluence.rs, jianghu.rs, echo.rs   the theme modules
tests/                       tests of the library, run against the compiled crate
app/lib.rs                   serializable wire forms of the player-facing values and
                             map-shaped lookups
```

Functions that read the game state take the facts they read as arguments (a player's
abilities, the cards' levels, the pending choice), so each decision is a function of
plain values with an exact contract.

## What the library does not hold

The library holds the rules' decisions, not the game engine around them. It has no game
state, no event log and no command dispatcher (only a passed action records its events): there is no `decide_command`,
`advance_automatic` or `playable_actions`, and no resolution of attacks, formation
effects, active spells, Echo answers or profession abilities as a whole, only their
decisions on plain values (in `command.rs`, the guards of the commands and the pass and
retrieval offers; in `attack.rs`, the points and the defender's share of an attack).

The modules star, spirit, tribulation, pouch, projection, randomness, timed effects and
totems are not part of it either: those modules can be
enabled and are validated as a module set, but they add no formation group, their
custom patterns (the tribulation element pairs, the pouch chain) are not registered, the pouch
opening is not dealt, and where a decision depends on them (whether the pouch protects a
player) it is given as a fact. The checks of a setup's own shape (players, turn order,
card instances) are not made by `validate_setup`.

`card_labels` and `formation_names` return lists of pairs (the labels in card-instance
order, the names sorted by identity) rather than hash maps: their contracts state every
entry, which the verifier does not support for a hash map keyed by a string or by a
struct of the library. `app/` builds the maps from them.
