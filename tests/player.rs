use rusttris::player::{GameStats, Player, PlayerStats};
use rusttris::screens::{LeaderboardCategory, LeaderboardState, ScreenManager};

fn game(score: u32, level: u32, combo: u32) -> GameStats {
    let mut g = GameStats::new(1000);
    g.score = score;
    g.level_reached = level;
    g.max_combo = combo;
    g.lines_cleared = 12;
    g.t_spins_singles = 1;
    g.t_spins_doubles = 2;
    g
}

#[test]
fn fresh_game_stats() {
    let g = GameStats::new(42);
    assert_eq!(g.timestamp, 42);
    assert_eq!(g.level_reached, 1);
    assert_eq!(g.score, 0);
}

#[test]
fn add_game_totals_and_bests() {
    let mut s = PlayerStats::new();
    s.add_game(game(500, 3, 2));
    s.add_game(game(300, 4, 1));
    assert_eq!(s.total_games, 2);
    assert_eq!(s.total_score, 800);
    assert_eq!(s.total_lines, 24);
    assert_eq!(s.total_t_spins, 6);
    assert_eq!(s.highest_score, 500);
    assert_eq!(s.highest_level, 4);
    assert_eq!(s.longest_combo, 2);
    assert_eq!(s.game_history.len(), 2);
}

#[test]
fn history_keeps_last_hundred() {
    let mut s = PlayerStats::new();
    for k in 0..105 {
        s.add_game(game(k, 1, 0));
    }
    assert_eq!(s.game_history.len(), 100);
    assert_eq!(s.game_history[0].score, 5);
    let recent = s.get_recent_games(3);
    assert_eq!(recent.len(), 3);
    assert_eq!(recent[2].score, 104);
    assert_eq!(s.get_recent_games(1000).len(), 100);
}

#[test]
fn player_finish_game() {
    let mut p = Player::new("ada".to_string());
    assert!(p.id.is_none());
    assert_eq!(p.stats.total_score, 0);
    assert_eq!(p.stats.highest_level, 0);
    assert_eq!(p.stats.total_playtime_seconds, 0);
    p.finish_game(game(250, 2, 0));
    assert_eq!(p.name, "ada");
    assert_eq!(p.stats.total_games, 1);
    assert_eq!(p.stats.highest_score, 250);
}

#[test]
fn screen_state_defaults() {
    let m = ScreenManager::new();
    assert!(m.player_name_input.is_empty());
    assert!(m.player_creation_error.is_none());
    assert!(m.options_screen.waiting_for_key.is_none());
    assert_eq!(LeaderboardState::new().current_category, LeaderboardCategory::HighScore);
}
