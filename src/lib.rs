//! Deterministic core of a falling-block puzzle game: piece geometry,
//! collision checks, line clearing, scoring and the tick-driven engine.

pub mod collision_checker;
pub mod tetronimoe;
pub mod game_state;
pub mod lemmas;
