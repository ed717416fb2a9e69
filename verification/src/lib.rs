//! Catalog of user-overridable prompt templates, with named presets and
//! per-session prompt sources, modelled as verified state transitions; the
//! `/prompts` and `/agent` slash commands; and the prompts browser's list,
//! filter, navigation and key handling.

pub mod browser;
pub mod catalog;
mod clock;
pub mod commands;
pub mod keyed;
pub mod keys;
pub mod laws;
pub mod layout;
pub mod model;
pub mod names;
pub mod ops;
pub mod restore;
pub mod semantics;
pub mod store;
pub mod templates;
pub mod text;
mod unicode;
