//! Game screens and in-game interaction modes.

use vstd::prelude::*;

pub mod gameplay;

verus! {

/// The main game screen states.
#[derive(Debug, Clone, Copy, PartialEq, Eq, Hash, Structural)]
pub enum GameScreen {
    /// Initial loading/title screen
    Loading,
    /// Main gameplay
    Playing,
    /// Player has died
    GameOver,
    /// Paused game
    Paused,
}

impl Default for GameScreen {
    fn default() -> (s: Self)
        ensures
            s == GameScreen::Loading,
    {
        GameScreen::Loading
    }
}

/// Game mode states for in-game UI modes: standard movement and
/// interaction, a cursor for looking at things or selecting targets, and
/// the inventory.
#[derive(Debug, Clone, Copy, PartialEq, Eq, Hash, Structural)]
pub enum GameMode {
    /// Standard movement and exploration.
    Exploring,
    /// Cursor/look mode for inspecting entities or selecting targets.
    Targeting,
    /// Inventory management screen.
    Inventory,
}

impl Default for GameMode {
    fn default() -> (m: Self)
        ensures
            m == GameMode::Exploring,
    {
        GameMode::Exploring
    }
}

} // verus!
