//! Deterministic rules engine for CFECards: formation registries and matchers,
//! deck composition, and the official rule modules.
pub mod domain;
pub mod rules;
