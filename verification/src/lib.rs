//! NeuroHack rules library: D&D 5e mechanics, dungeon model and text
//! helpers for an AI-narrated roguelike.

pub mod ai;
pub mod dnd;
pub mod ecs;
pub mod game;
pub mod i18n;
pub mod input;
pub mod random;
pub mod screens;
pub mod seqs;
pub mod text;
pub mod tui;
