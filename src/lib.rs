//! A falling-block puzzle engine: playfield, piece geometry with wall kicks,
//! bag randomizer, hold slot, scoring and the per-frame game state machine.

pub mod board;
pub mod piece;
pub mod score_manager;
pub mod queue;
pub mod hold;
pub mod states;
pub mod player;
pub mod game;
pub mod screens;
