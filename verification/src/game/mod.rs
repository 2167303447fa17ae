//! Core roguelike mechanics: components, the map and the game log.

pub mod components;
pub mod map;
pub mod log;
pub mod rules;
