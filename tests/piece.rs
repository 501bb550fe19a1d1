use rusttris::piece::{Piece, RotationState};

#[test]
fn rotation_states_form_a_cycle() {
    let s = RotationState::Zero;
    assert_eq!(s.next_cw(), RotationState::R);
    assert_eq!(s.next_cw().next_cw(), RotationState::Two);
    assert_eq!(s.next_cw().next_cw().next_cw(), RotationState::L);
    assert_eq!(s.next_cw().next_cw().next_cw().next_cw(), RotationState::Zero);
    assert_eq!(s.next_ccw(), RotationState::L);
    assert_eq!(RotationState::R.next_ccw(), RotationState::Zero);
    assert_eq!(RotationState::Two.to_index(), 2);
    assert_eq!(RotationState::L.to_index(), 3);
}

#[test]
fn create_piece_by_name() {
    let names = ["I", "O", "T", "S", "Z", "J", "L"];
    for (k, name) in names.iter().enumerate() {
        let p = Piece::create_piece(name);
        assert_eq!(p.get_id(), (k + 1) as u8);
        assert_eq!(p.get_name(), *name);
        assert_eq!(p.rotation, RotationState::Zero);
        assert_eq!(p.get_ypos(), 0);
    }
    assert_eq!(Piece::create_piece("O").get_position(), (4, 0));
    assert_eq!(Piece::create_piece("I").get_position(), (3, 0));
}

#[test]
fn unknown_name_gives_t_piece() {
    let p = Piece::create_piece("Q");
    assert_eq!(p.get_id(), 3);
    assert_eq!(p.get_name(), "T");
    assert_eq!(Piece::create_piece("").get_id(), 3);
    assert_eq!(Piece::create_piece("II").get_id(), 3);
}

#[test]
fn spawn_blocks_of_each_shape() {
    assert_eq!(Piece::create_piece("T").get_blocks(), vec![(0, 4), (1, 3), (1, 4), (1, 5)]);
    assert_eq!(Piece::create_piece("I").get_blocks(), vec![(1, 3), (1, 4), (1, 5), (1, 6)]);
    assert_eq!(Piece::create_piece("O").get_blocks(), vec![(0, 4), (0, 5), (1, 4), (1, 5)]);
    assert_eq!(Piece::create_piece("S").get_blocks(), vec![(0, 4), (0, 5), (1, 3), (1, 4)]);
    assert_eq!(Piece::create_piece("Z").get_blocks(), vec![(0, 3), (0, 4), (1, 4), (1, 5)]);
    assert_eq!(Piece::create_piece("J").get_blocks(), vec![(0, 3), (1, 3), (1, 4), (1, 5)]);
    assert_eq!(Piece::create_piece("L").get_blocks(), vec![(0, 5), (1, 3), (1, 4), (1, 5)]);
}

#[test]
fn rotated_blocks_follow_tables() {
    let mut p = Piece::create_piece("I");
    p.rotate_clockwise();
    assert_eq!(p.get_blocks(), vec![(0, 5), (1, 5), (2, 5), (3, 5)]);
    let mut t = Piece::create_piece("T");
    t.rotate_180();
    assert_eq!(t.rotation, RotationState::Two);
    assert_eq!(t.get_blocks(), vec![(1, 3), (1, 4), (1, 5), (2, 4)]);
    let mut o = Piece::create_piece("O");
    o.rotate_counterclockwise();
    assert_eq!(o.get_blocks(), vec![(0, 4), (0, 5), (1, 4), (1, 5)]);
}

#[test]
fn moves_translate_the_anchor() {
    let mut p = Piece::create_piece("J");
    p.move_left();
    p.move_down();
    p.move_down();
    assert_eq!(p.get_position(), (2, 2));
    p.move_right();
    p.move_up();
    assert_eq!(p.get_position(), (3, 1));
    p.set_position(-2, 17);
    assert_eq!(p.get_xpos(), -2);
    assert_eq!(p.get_ypos(), 17);
    p.rotate_clockwise();
    p.back_to_start_position();
    assert_eq!(p.get_position(), (3, 0));
    assert_eq!(p.rotation, RotationState::Zero);
}

#[test]
fn kick_offsets_by_category() {
    let t = Piece::create_piece("T");
    assert_eq!(t.get_cw_kick_offsets(), vec![(0, 0), (-1, 0), (-1, 1), (0, -2), (-1, -2)]);
    assert_eq!(t.get_ccw_kick_offsets(), vec![(0, 0), (1, 0), (1, 1), (0, -2), (1, -2)]);
    let i = Piece::create_piece("I");
    assert_eq!(i.get_cw_kick_offsets(), vec![(0, 0), (-2, 0), (1, 0), (-2, -1), (1, 2)]);
    assert_eq!(i.get_ccw_kick_offsets(), vec![(0, 0), (-1, 0), (2, 0), (-1, 2), (2, -1)]);
    let o = Piece::create_piece("O");
    assert_eq!(o.get_cw_kick_offsets(), vec![(0, 0)]);
    let mut l = Piece::create_piece("L");
    l.rotate_clockwise();
    assert_eq!(l.get_cw_kick_offsets(), vec![(0, 0), (1, 0), (1, -1), (0, 2), (1, 2)]);
    let mut i2 = Piece::create_piece("I");
    i2.rotate_180();
    assert_eq!(i2.get_cw_kick_offsets(), vec![(0, 0), (2, 0), (-1, 0), (2, 1), (-1, -2)]);
}

#[test]
fn blocks_far_from_the_board() {
    let mut p = Piece::create_piece("L");
    p.set_position(-2_000_000, 1_000_000);
    assert_eq!(p.get_blocks(), vec![(1_000_000, -1_999_998), (1_000_001, -2_000_000), (1_000_001, -1_999_999), (1_000_001, -1_999_998)]);
    p.set_position(i32::MAX - 3, i32::MAX - 3);
    assert_eq!(p.get_blocks().len(), 4);
}
