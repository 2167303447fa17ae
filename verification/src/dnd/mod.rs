//! D&D 5e SRD rules.

pub mod ability;
pub mod dice;
pub mod weapons;
pub mod armor;
pub mod components;
pub mod combat;
pub mod effects;
pub mod monsters;
pub mod spells;
