//! Baselom: a pure game-state engine for baseball.
//!
//! The engine computes the next state of a half-inning from the current
//! state and the outcome of one pitch. Every transition builds a new
//! value from a read-only input; nothing is ever mutated in place.

pub mod engine;
pub mod errors;
pub mod models;
pub mod validators;
pub mod wire;

pub use engine::apply_pitch;
pub use errors::BaselomError;
pub use models::{GameRules, GameState, Score};
pub use validators::validate_state;
