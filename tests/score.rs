use rusttris::score_manager::{ScoreManager, TSpinType};

#[test]
fn single_scores_100() {
    let mut sm = ScoreManager::new();
    sm.lines_cleared(1, 1, 1, TSpinType::NoSpin, false);
    assert_eq!(sm.get_score(), 100);
    assert_eq!(sm.back_to_back, 0);
}

#[test]
fn back_to_back_tetris_scores_1200() {
    let mut sm = ScoreManager::new();
    sm.lines_cleared(4, 1, 1, TSpinType::NoSpin, false);
    assert_eq!(sm.get_score(), 800);
    assert_eq!(sm.back_to_back, 1);
    sm.lines_cleared(4, 1, 1, TSpinType::NoSpin, false);
    assert_eq!(sm.get_score(), 800 + 1200);
    assert_eq!(sm.back_to_back, 2);
}

#[test]
fn hard_drop_of_five_scores_10() {
    let mut sm = ScoreManager::new();
    sm.drop(2, 5);
    assert_eq!(sm.get_score(), 10);
    sm.drop(1, 1);
    assert_eq!(sm.get_score(), 11);
}

#[test]
fn t_spin_scores() {
    let mut sm = ScoreManager::new();
    sm.lines_cleared(0, 1, 0, TSpinType::Full, false);
    assert_eq!(sm.get_score(), 400);
    assert_eq!(sm.back_to_back, 1);
    // A T-spin double continuing the streak: 1200 * 2 * 1.5.
    sm.lines_cleared(2, 2, 1, TSpinType::Full, false);
    assert_eq!(sm.get_score(), 400 + 3600);
    let mut mini = ScoreManager::new();
    mini.lines_cleared(1, 3, 1, TSpinType::Mini, false);
    assert_eq!(mini.get_score(), 600);
}

#[test]
fn plain_clear_breaks_streak() {
    let mut sm = ScoreManager::new();
    sm.lines_cleared(4, 1, 1, TSpinType::NoSpin, false);
    sm.lines_cleared(2, 1, 1, TSpinType::NoSpin, false);
    assert_eq!(sm.back_to_back, 0);
    assert_eq!(sm.get_score(), 1100);
    sm.lines_cleared(4, 1, 1, TSpinType::NoSpin, false);
    assert_eq!(sm.get_score(), 1900);
}

#[test]
fn combo_bonus_scales_with_level() {
    let mut sm = ScoreManager::new();
    sm.lines_cleared(1, 2, 3, TSpinType::NoSpin, false);
    assert_eq!(sm.get_score(), 200 + 2 * 50 * 2);
}

#[test]
fn all_clear_bonus() {
    let mut sm = ScoreManager::new();
    sm.lines_cleared(1, 1, 1, TSpinType::NoSpin, true);
    assert_eq!(sm.get_score(), 100 + 800);
    let mut sm4 = ScoreManager::new();
    sm4.lines_cleared(4, 2, 1, TSpinType::NoSpin, true);
    assert_eq!(sm4.get_score(), 1600 + 4000);
}

#[test]
fn unknown_clear_scores_nothing() {
    let mut sm = ScoreManager::new();
    sm.lines_cleared(5, 1, 1, TSpinType::NoSpin, false);
    assert_eq!(sm.get_score(), 0);
}

#[test]
fn score_is_held_at_maximum() {
    let mut sm = ScoreManager::new();
    sm.score = u32::MAX - 5;
    sm.drop(2, 10);
    assert_eq!(sm.get_score(), u32::MAX);
    sm.lines_cleared(4, u32::MAX, u32::MAX, TSpinType::NoSpin, true);
    assert_eq!(sm.get_score(), u32::MAX);
}
