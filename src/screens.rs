use vstd::prelude::*;
use crate::states::GameAction;

verus! {

/// What a leaderboard ranks players by.
#[derive(Clone, Copy, Debug, PartialEq, Eq, Structural)]
pub enum LeaderboardCategory {
    HighScore,
    HighestLevel,
    MostLines,
    MaxCombo,
    Mostquadruples,
    MostBackToBacks,
}

/// The leaderboard screen's state: the category shown.
pub struct LeaderboardState {
    pub current_category: LeaderboardCategory,
}

impl LeaderboardState {
    pub fn new() -> (r: Self)
        ensures
            r.current_category == LeaderboardCategory::HighScore,
    {
        Self { current_category: LeaderboardCategory::HighScore }
    }
}

pub enum LeaderboardAction {
    Back,
}

pub enum MenuAction {
    StartGame,
    ResumeGame,
    NewPlayer,
    SelectPlayer,
    ShowLeaderboard,
    ShowOptions,
}

pub enum PausedAction {
    Resume,
    Restart,
    BackToMenu,
}

pub enum OptionSelectionAction {
    Save,
    Cancel,
}

/// The options screen's state: the command whose key is being rebound, if any.
pub struct OptionsScreen {
    pub waiting_for_key: Option<GameAction>,
}

impl Default for OptionsScreen {
    fn default() -> (r: Self)
        ensures
            r.waiting_for_key is None,
    {
        Self { waiting_for_key: None }
    }
}

pub enum PlayerSelectionAction {
    SelectPlayer(i64),
    Back,
}

/// A stored player as listed for selection.
pub struct PlayerInfo {
    pub id: i64,
    pub name: String,
}

/// What the screens ask the application to do.
pub enum ScreenAction {
    StartGame,
    RestartGame,
    ResumeGame,
    CreatePlayer(String),
    CreatePlayerError(String),
    ShowPlayerCreation,
    SelectPlayer(i64),
    ShowPlayerSelection,
    ShowLeaderboard,
    ShowOptions,
    BackToMenu,
}

/// The state that the screens keep between frames.
pub struct ScreenManager {
    pub player_name_input: String,
    pub leaderboard_state: LeaderboardState,
    pub player_creation_error: Option<String>,
    pub options_screen: OptionsScreen,
}

impl ScreenManager {
    pub fn new() -> (r: Self)
        ensures
            r.player_name_input@.len() == 0,
            r.leaderboard_state.current_category == LeaderboardCategory::HighScore,
            r.player_creation_error is None,
            r.options_screen.waiting_for_key is None,
    {
        ScreenManager {
            player_name_input: String::new(),
            leaderboard_state: LeaderboardState::new(),
            player_creation_error: None,
            options_screen: OptionsScreen::default(),
        }
    }
}

} // verus!
