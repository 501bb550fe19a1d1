use rusttris::board::{Board, BOARD_HEIGHT, BOARD_WIDTH};

fn fill_row(board: &mut Board, row: usize, id: u8) {
    for col in 0..BOARD_WIDTH {
        board.set_cell(row, col, id);
    }
}

#[test]
fn new_board_is_empty() {
    let board = Board::new();
    assert_eq!(Board::get_width(), 10);
    assert_eq!(Board::get_height(), 22);
    for row in 0..BOARD_HEIGHT {
        for col in 0..BOARD_WIDTH {
            assert_eq!(board.get_cell(row, col), 0);
        }
    }
    assert!(board.is_empty());
}

#[test]
fn set_cell_and_get_cell() {
    let mut board = Board::new();
    board.set_cell(5, 7, 3);
    assert_eq!(board.get_cell(5, 7), 3);
    assert_eq!(board.get_cell(7, 5), 0);
    assert!(!board.is_empty());
}

#[test]
fn out_of_bounds_access_is_absorbed() {
    let mut board = Board::new();
    board.set_cell(22, 0, 4);
    board.set_cell(0, 10, 4);
    assert!(board.is_empty());
    assert_eq!(board.get_cell(22, 0), 0);
    assert_eq!(board.get_cell(0, 10), 0);
    assert_eq!(board.get_cell(100, 100), 0);
}

#[test]
fn valid_position_on_empty_board() {
    let board = Board::new();
    assert!(board.is_valid_position(&[]));
    assert!(board.is_valid_position(&[(0, 0), (21, 9), (10, 5)]));
}

#[test]
fn position_off_the_board_is_invalid() {
    let board = Board::new();
    assert!(!board.is_valid_position(&[(-1, 0)]));
    assert!(!board.is_valid_position(&[(0, -1)]));
    assert!(!board.is_valid_position(&[(22, 0)]));
    assert!(!board.is_valid_position(&[(0, 10)]));
    assert!(!board.is_valid_position(&[(5, 5), (5, 10)]));
}

#[test]
fn position_over_locked_cell_is_invalid() {
    let mut board = Board::new();
    board.set_cell(10, 4, 2);
    assert!(!board.is_valid_position(&[(10, 3), (10, 4)]));
    assert!(board.is_valid_position(&[(10, 3), (10, 5), (9, 4)]));
}

#[test]
fn clear_lines_on_empty_board_returns_zero() {
    let mut board = Board::new();
    assert_eq!(board.clear_lines(), 0);
    assert!(board.is_empty());
}

#[test]
fn clear_lines_removes_rows_18_and_20() {
    let mut board = Board::new();
    fill_row(&mut board, 18, 1);
    fill_row(&mut board, 20, 2);
    board.set_cell(17, 3, 5);
    board.set_cell(19, 0, 6);
    board.set_cell(19, 1, 6);
    board.set_cell(21, 9, 7);
    board.set_cell(21, 0, 4);
    assert_eq!(board.clear_lines(), 2);
    // Row 21 stays, old row 19 lands on 20, old row 17 on 19.
    assert_eq!(board.get_cell(21, 9), 7);
    assert_eq!(board.get_cell(21, 0), 4);
    assert_eq!(board.get_cell(20, 0), 6);
    assert_eq!(board.get_cell(20, 1), 6);
    assert_eq!(board.get_cell(20, 2), 0);
    assert_eq!(board.get_cell(19, 3), 5);
    assert_eq!(board.get_cell(18, 3), 0);
    let mut occupied = 0;
    for row in 0..BOARD_HEIGHT {
        for col in 0..BOARD_WIDTH {
            if board.get_cell(row, col) != 0 {
                occupied += 1;
            }
        }
    }
    assert_eq!(occupied, 5);
}

#[test]
fn clear_lines_on_full_board_empties_it() {
    let mut board = Board::new();
    for row in 0..BOARD_HEIGHT {
        fill_row(&mut board, row, (row % 7 + 1) as u8);
    }
    assert_eq!(board.clear_lines(), 22);
    assert!(board.is_empty());
}

#[test]
fn clear_lines_keeps_order_of_partial_rows() {
    let mut board = Board::new();
    board.set_cell(0, 0, 1);
    board.set_cell(1, 1, 2);
    fill_row(&mut board, 2, 3);
    board.set_cell(3, 2, 4);
    assert_eq!(board.clear_lines(), 1);
    assert_eq!(board.get_cell(1, 0), 1);
    assert_eq!(board.get_cell(2, 1), 2);
    assert_eq!(board.get_cell(3, 2), 4);
    assert_eq!(board.get_cell(0, 0), 0);
}
