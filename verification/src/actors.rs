//! The actors of a level.

pub mod player;
