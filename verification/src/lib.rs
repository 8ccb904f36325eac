//! Core of a speed-math practice game: problem generation with
//! difficulty-dependent operand ranges, exact integer and fraction answers,
//! and a session that tracks score and round completion.

pub mod game;
pub mod text;
