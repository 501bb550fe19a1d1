use rusttris::game::Game;
use rusttris::piece::{Piece, RotationState};
use rusttris::states::{GameAction, GameState};

fn started() -> Game {
    let mut g = Game::new();
    g.start_game(1_700_000_000);
    g
}

#[test]
fn new_game_waits_in_menu() {
    let g = Game::new();
    assert_eq!(g.get_state(), GameState::Menu);
    assert!(g.current_piece.is_some());
    assert_eq!(g.get_score(), 0);
    assert_eq!(g.get_lines_cleared(), 0);
    assert_eq!(g.level, 1);
    assert_eq!(g.drop_interval, 1_000_000);
    assert_eq!(g.lock_delay_duration, 500_000);
}

#[test]
fn start_game_plays() {
    let g = started();
    assert_eq!(g.get_state(), GameState::Playing);
    let p = g.current_piece.unwrap();
    assert_eq!(p.get_ypos(), 0);
    assert_eq!(g.current_game_stats.timestamp, 1_700_000_000);
}

#[test]
fn moves_stop_at_the_wall() {
    let mut g = started();
    g.current_piece = Some(Piece::create_piece("O"));
    for _ in 0..10 {
        g.handle_action(GameAction::MoveLeft);
    }
    assert_eq!(g.current_piece.unwrap().get_xpos(), 0);
    for _ in 0..10 {
        g.handle_action(GameAction::MoveRight);
    }
    assert_eq!(g.current_piece.unwrap().get_xpos(), 8);
}

#[test]
fn soft_drop_scores_one_per_step() {
    let mut g = started();
    g.handle_action(GameAction::SoftDrop);
    g.handle_action(GameAction::SoftDrop);
    assert_eq!(g.get_score(), 2);
    assert_eq!(g.current_piece.unwrap().get_ypos(), 2);
}

#[test]
fn hard_drop_scores_two_per_row_and_locks() {
    let mut g = started();
    let id = g.current_piece.unwrap().get_id();
    g.handle_action(GameAction::HardDrop);
    // Every spawn shape has its lowest cells in its second row: it falls 20 rows.
    assert_eq!(g.get_score(), 40);
    let mut in_bottom_row = 0;
    for col in 0..10 {
        if g.board.get_cell(21, col) == id {
            in_bottom_row += 1;
        }
    }
    assert!(in_bottom_row >= 2);
    assert_eq!(g.current_game_stats.pieces_placed, 1);
    assert_eq!(g.current_piece.unwrap().get_ypos(), 0);
}

#[test]
fn rotation_uses_first_kick_that_fits() {
    let mut g = started();
    let mut t = Piece::create_piece("T");
    t.set_position(3, 5);
    g.current_piece = Some(t);
    // The unkicked turn would cover (7, 4).
    g.board.set_cell(7, 4, 1);
    g.handle_action(GameAction::RotateCW);
    let p = g.current_piece.unwrap();
    assert_eq!(p.rotation, RotationState::R);
    assert_eq!(p.get_position(), (2, 5));
}

#[test]
fn rotation_without_kick_on_open_board() {
    let mut g = started();
    let mut t = Piece::create_piece("T");
    t.set_position(3, 5);
    g.current_piece = Some(t);
    g.handle_action(GameAction::RotateCCW);
    let p = g.current_piece.unwrap();
    assert_eq!(p.rotation, RotationState::L);
    assert_eq!(p.get_position(), (3, 5));
}

#[test]
fn blocked_rotation_changes_nothing() {
    let mut g = started();
    let mut t = Piece::create_piece("T");
    t.set_position(3, 5);
    g.current_piece = Some(t);
    let own = t.get_blocks();
    for row in 0..22 {
        for col in 0..10 {
            if !own.contains(&(row as i32, col as i32)) {
                g.board.set_cell(row, col, 5);
            }
        }
    }
    g.handle_action(GameAction::RotateCW);
    g.handle_action(GameAction::RotateCCW);
    let p = g.current_piece.unwrap();
    assert_eq!(p.rotation, RotationState::Zero);
    assert_eq!(p.get_position(), (3, 5));
}

#[test]
fn blocked_spawn_ends_the_game() {
    let mut g = started();
    for row in 0..2 {
        for col in 3..7 {
            g.board.set_cell(row, col, 4);
        }
    }
    let mut o = Piece::create_piece("O");
    o.set_position(0, 10);
    g.current_piece = Some(o);
    g.handle_action(GameAction::HardDrop);
    assert_eq!(g.get_state(), GameState::GameOver);
    assert!(g.current_piece.is_none());
    assert_eq!(g.board.get_cell(21, 0), 2);
}

#[test]
fn line_clear_scores_and_counts() {
    let mut g = started();
    for col in 0..6 {
        g.board.set_cell(21, col, 7);
    }
    let mut i = Piece::create_piece("I");
    i.set_position(6, 0);
    g.current_piece = Some(i);
    g.handle_action(GameAction::HardDrop);
    assert_eq!(g.get_lines_cleared(), 1);
    assert_eq!(g.combo, 1);
    // 20 rows of hard drop, then a single that also empties the board.
    assert_eq!(g.get_score(), 40 + 100 + 800);
    assert!(g.board.is_empty());
    assert_eq!(g.current_game_stats.singles, 1);
    assert_eq!(g.current_game_stats.max_combo, 1);
}

#[test]
fn tenth_line_raises_level_and_speed() {
    let mut g = started();
    g.lines_cleared = 9;
    for col in 0..6 {
        g.board.set_cell(21, col, 7);
    }
    g.board.set_cell(20, 0, 7);
    let mut i = Piece::create_piece("I");
    i.set_position(6, 0);
    g.current_piece = Some(i);
    g.handle_action(GameAction::HardDrop);
    assert_eq!(g.get_lines_cleared(), 10);
    assert_eq!(g.level, 2);
    assert_eq!(g.drop_interval, 900_000);
    assert_eq!(g.lock_delay_duration, 460_000);
    assert_eq!(g.get_score(), 40 + 100);
}

#[test]
fn non_clearing_lock_resets_combo() {
    let mut g = started();
    g.combo = 3;
    g.handle_action(GameAction::HardDrop);
    assert_eq!(g.combo, 0);
}

#[test]
fn pause_toggles_and_freezes_play() {
    let mut g = started();
    g.handle_action(GameAction::PauseGame);
    assert_eq!(g.get_state(), GameState::Paused);
    let y = g.current_piece.unwrap().get_ypos();
    g.handle_action(GameAction::SoftDrop);
    g.update(&[], 5_000_000);
    assert_eq!(g.current_piece.unwrap().get_ypos(), y);
    g.handle_action(GameAction::ResumeGame);
    assert_eq!(g.get_state(), GameState::Playing);
    g.handle_action(GameAction::PauseGame);
    g.handle_action(GameAction::PauseGame);
    assert_eq!(g.get_state(), GameState::Playing);
}

#[test]
fn gravity_moves_once_per_interval() {
    let mut g = started();
    g.update(&[], 400_000);
    assert_eq!(g.current_piece.unwrap().get_ypos(), 0);
    g.update(&[], 600_000);
    assert_eq!(g.current_piece.unwrap().get_ypos(), 1);
    g.update(&[GameAction::MoveLeft], 0);
    assert_eq!(g.current_piece.unwrap().get_ypos(), 1);
}

#[test]
fn resting_piece_locks_after_lock_delay() {
    let mut g = started();
    let mut o = Piece::create_piece("O");
    o.set_position(0, 20);
    g.current_piece = Some(o);
    g.update(&[], 999_999);
    assert!(!g.piece_on_ground);
    g.update(&[], 1);
    assert!(g.piece_on_ground);
    assert_eq!(g.lock_delay_timer, 1);
    g.update(&[], 200_000);
    assert_eq!(g.board.get_cell(21, 0), 0);
    g.update(&[GameAction::MoveRight], 0);
    assert_eq!(g.lock_delay_timer, 0);
    assert!(g.piece_on_ground);
    g.update(&[], 499_999);
    assert_eq!(g.board.get_cell(21, 1), 0);
    g.update(&[], 1);
    assert_eq!(g.board.get_cell(21, 1), 2);
    assert_eq!(g.board.get_cell(20, 2), 2);
    assert!(!g.piece_on_ground);
    assert_eq!(g.current_piece.unwrap().get_ypos(), 0);
}

#[test]
fn hold_action_swaps_once_per_lock() {
    let mut g = started();
    let first = g.current_piece.unwrap().get_id();
    g.handle_action(GameAction::HoldPiece);
    assert_eq!(g.hold_queue.held_piece.unwrap().get_id(), first);
    let second = g.current_piece.unwrap().get_id();
    g.handle_action(GameAction::HoldPiece);
    assert_eq!(g.current_piece.unwrap().get_id(), second);
    g.handle_action(GameAction::HardDrop);
    g.handle_action(GameAction::HoldPiece);
    assert_eq!(g.current_piece.unwrap().get_id(), first);
}

#[test]
fn reset_game_starts_over() {
    let mut g = started();
    g.handle_action(GameAction::HardDrop);
    g.reset_game(1_700_000_100);
    assert_eq!(g.get_state(), GameState::Playing);
    assert!(g.board.is_empty());
    assert_eq!(g.get_score(), 0);
    assert_eq!(g.current_game_stats.timestamp, 1_700_000_100);
}

#[test]
fn game_stats_snapshot() {
    let mut g = started();
    g.handle_action(GameAction::HardDrop);
    let stats = g.get_game_stats(1_700_000_090);
    assert_eq!(stats.score, 40);
    assert_eq!(stats.level_reached, 1);
    assert_eq!(stats.pieces_placed, 1);
    assert_eq!(stats.duration_seconds, 90);
    g.set_state(GameState::Menu);
    assert_eq!(g.get_state(), GameState::Menu);
}

#[test]
fn rotate_piece_reports_outcome() {
    let mut g = started();
    let mut o = Piece::create_piece("O");
    o.set_position(0, 20);
    g.current_piece = Some(o);
    assert!(g.rotate_piece(true));
    assert_eq!(g.current_piece.unwrap().rotation, RotationState::R);
    assert_eq!(g.current_piece.unwrap().get_position(), (0, 20));
    g.current_piece = None;
    assert!(!g.rotate_piece(false));
}

#[test]
fn ghost_piece_rests_on_stack() {
    let mut g = started();
    g.board.set_cell(15, 4, 1);
    let mut o = Piece::create_piece("O");
    o.set_position(4, 2);
    g.current_piece = Some(o);
    let ghost = g.ghost_piece().unwrap();
    assert_eq!(ghost.get_position(), (4, 13));
    assert_eq!(g.current_piece.unwrap().get_position(), (4, 2));
    g.current_piece = None;
    assert!(g.ghost_piece().is_none());
}

#[test]
fn blocked_soft_drop_scores_nothing() {
    let mut g = started();
    let mut o = Piece::create_piece("O");
    o.set_position(0, 20);
    g.current_piece = Some(o);
    g.handle_action(GameAction::SoftDrop);
    assert_eq!(g.get_score(), 0);
    assert!(g.piece_on_ground);
    assert_eq!(g.current_piece.unwrap().get_position(), (0, 20));
}

#[test]
fn spawning_over_locked_cells_is_game_over() {
    let mut g = started();
    for row in 0..2 {
        for col in 3..7 {
            g.board.set_cell(row, col, 4);
        }
    }
    g.spawn_next_piece();
    assert_eq!(g.get_state(), GameState::GameOver);
    assert!(g.current_piece.is_none());
    assert_eq!(g.board.get_cell(0, 3), 4);
    assert_eq!(g.board.get_cell(2, 3), 0);
}
