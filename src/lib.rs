//! A two-player game on a 3x3 board: move validation, turn alternation and
//! outcome detection, as pure functions over an explicit game state.
pub mod contract;
pub mod error;
pub mod lemmas;
pub mod msg;
pub mod state;
