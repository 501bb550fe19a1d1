use vstd::prelude::*;

verus! {

/// Which screen the application shows; only `Playing` runs the simulation.
#[derive(Clone, Copy, Debug, PartialEq, Eq, Structural)]
pub enum GameState {
    PlayerCreation,
    PlayerSelection,
    Menu,
    Leaderboard,
    Options,
    Playing,
    Paused,
    GameOver,
}

/// A discrete command from the input layer.
#[derive(Clone, Copy, Debug, PartialEq, Eq, Hash, Structural)]
pub enum GameAction {
    MoveLeft,
    MoveRight,
    SoftDrop,
    HardDrop,
    RotateCW,
    RotateCCW,
    HoldPiece,
    RestartGame,
    PauseGame,
    ResumeGame,
}

} // verus!
