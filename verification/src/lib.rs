//! Core of a number-guessing game: a secret integer drawn from a closed
//! range, a bounded number of attempts, and textual feedback for each guess.
//! The windowing shell around it lives elsewhere; this crate holds only the
//! state machine and the text handling, with contracts proved by Verus.

pub mod app_data;
pub mod game;
pub mod numeral;
mod rng;

pub use app_data::AppData;
pub use game::Feedback;
pub use game::GameData;
pub use game::GameError;
