//! Rule registries: formations, effects, matchers, deck composition, and the
//! official rule set.
pub mod deck_composition;
pub mod matcher;
pub mod detail;
pub mod registry;
pub mod catalog;
pub mod echo;
pub mod hero;
pub mod profession;
pub mod dark;
pub mod official;
pub mod base;
pub mod official_formations;
pub mod pending_choice;
pub mod deck_supply;
pub mod confluence;
pub mod jianghu;
pub mod attack;
pub mod action_detail;
pub mod covered_passive;
pub mod formation_effect_sequence;
pub mod command;
pub mod default_formations;

pub use deck_composition::{
    DeckComposition, DeckCompositionCardDefinition, DeckCompositionCatalog, DeckListIssue,
    DeckListSource, DeckListTemplate, DeckListValidation, PersonalDeckComposition,
    ResolvedPersonalDeck, SharedDeckComposition,
};
