//! Pokémon description service core.
//!
//! The library holds the decision logic of a small aggregation service: it
//! normalizes species records fetched from an upstream species API, selects a
//! translation style from a Pokémon's attributes, and applies the
//! fallback-on-failure rule when a translation attempt does not succeed.
//! Network transport stays outside; the library works on plain values.

pub mod context;
pub mod funtranslation;
pub mod handlers;
pub mod pokeapi;
pub mod policy;
pub mod strings;

pub use context::Context;
