//! A number-guessing round: difficulty levels, the round engine and the
//! parsing of the player's lines.

pub mod difficulty;
pub mod input;
pub mod laws;
pub mod outside;
pub mod round;

pub use difficulty::Difficulty;
pub use input::{difficulty_from_line, parse_guess, wants_replay};
pub use round::{GameState, RoundState};
