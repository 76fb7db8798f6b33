//! The screens of the game and the phases of a run.

use vstd::prelude::*;

verus! {

/// The top-level state of the game.
#[derive(PartialEq, Eq, Structural, Clone, Copy, Debug)]
pub enum GameState {
    StartupLoading,
    MainMenu,
    GameLoading,
    InGame,
    GameOver,
    GameClear,
    AssetLoadingError,
}

/// The phase of a run while the game is in play.
#[derive(PartialEq, Eq, Structural, Clone, Copy, Debug)]
pub enum RunPhase {
    Playing,
    LevelUp,
    Paused,
}

/// The game starts by loading its start-up assets.
impl Default for GameState {
    fn default() -> (r: Self)
        ensures
            r == GameState::StartupLoading,
    {
        GameState::StartupLoading
    }
}

/// A run starts in play.
impl Default for RunPhase {
    fn default() -> (r: Self)
        ensures
            r == RunPhase::Playing,
    {
        RunPhase::Playing
    }
}

} // verus!
