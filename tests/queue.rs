use rusttris::hold::HoldQueue;
use rusttris::piece::{Piece, RotationState};
use rusttris::queue::Queue;

fn draw_ids(q: &mut Queue, n: usize) -> Vec<u8> {
    let mut ids = Vec::new();
    for _ in 0..n {
        ids.push(q.get_next_piece().unwrap().get_id());
    }
    ids
}

#[test]
fn every_bag_of_seven_holds_each_type_once() {
    let mut q = Queue::new();
    let ids = draw_ids(&mut q, 70);
    for bag in ids.chunks(7) {
        let mut sorted = bag.to_vec();
        sorted.sort();
        assert_eq!(sorted, vec![1, 2, 3, 4, 5, 6, 7]);
    }
}

#[test]
fn bags_are_shuffled() {
    let mut q = Queue::new();
    let ids = draw_ids(&mut q, 140);
    let in_order = ids.chunks(7).filter(|bag| bag.to_vec() == vec![1, 2, 3, 4, 5, 6, 7]).count();
    assert!(in_order < 20);
}

#[test]
fn queue_keeps_seven_pieces_buffered() {
    let mut q = Queue::new();
    q.generate_seven_bag();
    let (current, next) = q.get_piece_names();
    assert_eq!(current.len(), 7);
    assert_eq!(next.len(), 7);
    let first = current[0].clone();
    let drawn = q.get_next_piece().unwrap();
    assert_eq!(drawn.get_name(), first);
    assert_eq!(drawn.rotation, RotationState::Zero);
    assert_eq!(drawn.get_ypos(), 0);
    let (current, next) = q.get_piece_names();
    assert_eq!(current.len(), 7);
    assert_eq!(next.len(), 6);
}

#[test]
fn generating_again_keeps_the_buffer() {
    let mut q = Queue::new();
    q.generate_seven_bag();
    let before = q.get_piece_names();
    q.generate_seven_bag();
    assert_eq!(q.get_piece_names(), before);
}

#[test]
fn second_hold_before_lock_is_ignored() {
    let mut q = Queue::new();
    let mut hold = HoldQueue::new();
    let mut current = Some(Piece::create_piece("T"));
    hold.hold_piece(&mut current, &mut q);
    assert_eq!(hold.held_piece.unwrap().get_id(), 3);
    let active = current.unwrap();
    assert!(!hold.can_hold);
    hold.hold_piece(&mut current, &mut q);
    assert_eq!(current.unwrap().get_id(), active.get_id());
    assert_eq!(current.unwrap().get_position(), active.get_position());
    assert_eq!(hold.held_piece.unwrap().get_id(), 3);
}

#[test]
fn hold_after_reset_swaps_and_recenters() {
    let mut q = Queue::new();
    let mut hold = HoldQueue::new();
    let mut current = Some(Piece::create_piece("T"));
    hold.hold_piece(&mut current, &mut q);
    let mut active = current.unwrap();
    active.move_down();
    active.move_left();
    active.rotate_clockwise();
    current = Some(active);
    hold.reset_hold();
    assert!(hold.can_hold);
    hold.hold_piece(&mut current, &mut q);
    assert_eq!(current.unwrap().get_id(), 3);
    let held = hold.held_piece.unwrap();
    assert_eq!(held.get_id(), active.get_id());
    assert_eq!(held.rotation, RotationState::Zero);
    assert_eq!(held.get_ypos(), 0);
    assert!(!hold.can_hold);
}

#[test]
fn hold_with_empty_slot_draws_queue_front() {
    let mut q = Queue::new();
    q.generate_seven_bag();
    let (names, next) = q.get_piece_names();
    let mut hold = HoldQueue::new();
    let mut current = Some(Piece::create_piece("T"));
    hold.hold_piece(&mut current, &mut q);
    assert_eq!(current.unwrap().get_name(), names[0]);
    let (after, _) = q.get_piece_names();
    assert_eq!(after[..6], names[1..]);
    assert_eq!(after[6], next[0]);
}
