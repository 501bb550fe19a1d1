use vstd::prelude::*;
use crate::piece::{Piece, spawned};
use crate::queue::{Queue, next_step};

verus! {

/// The hold slot: at most one piece, kept at its spawn place, and whether a hold is allowed
/// before the next lock.
pub struct HoldQueue {
    pub held_piece: Option<Piece>,
    pub can_hold: bool,
}

/// How a piece is kept in the slot: turned back to spawn orientation at its spawn anchor.
pub open spec fn stored(p: Option<Piece>) -> Option<Piece> {
    match p {
        Some(p) => Some(spawned(p.id)),
        None => None,
    }
}

/// One call of `hold_piece`, from slot `h0`, active piece `c0` and queue `q0` to `h1`, `c1`
/// and `q1`.
pub open spec fn hold_step(
    h0: HoldQueue,
    c0: Option<Piece>,
    q0: Queue,
    h1: HoldQueue,
    c1: Option<Piece>,
    q1: Queue,
) -> bool {
    if !h0.can_hold {
        h1 == h0 && c1 == c0 && q1 == q0
    } else {
        &&& !h1.can_hold
        &&& h1.held_piece == stored(c0)
        &&& match h0.held_piece {
            Some(h) => c1 == Some(h) && q1 == q0,
            None => c1 is Some && next_step(q0, q1, c1->0),
        }
    }
}

impl HoldQueue {
    pub open spec fn wf(&self) -> bool {
        self.held_piece is Some ==> {
            let h = self.held_piece->0;
            h == spawned(h.id) && 1 <= h.id <= 7
        }
    }

    pub fn new() -> (r: Self)
        ensures
            r.wf(),
            r.held_piece is None,
            r.can_hold,
    {
        Self { held_piece: None, can_hold: true }
    }

    /// Swaps the active piece with the held one, or, with the slot empty, puts it there and
    /// draws the next piece; then no hold is allowed until `reset_hold`. Does nothing while
    /// holding is not allowed.
    pub fn hold_piece(&mut self, current_piece: &mut Option<Piece>, queue: &mut Queue)
        requires
            old(self).wf(),
            old(queue).wf(),
            *old(current_piece) is Some ==> old(current_piece)->0.wf(),
        ensures
            final(self).wf(),
            final(queue).wf(),
            hold_step(
                *old(self),
                *old(current_piece),
                *old(queue),
                *final(self),
                *final(current_piece),
                *final(queue),
            ),
    {
        if !self.can_hold {
            return;
        }
        let taken = *current_piece;
        match self.held_piece {
            Some(held) => {
                *current_piece = Some(held);
            },
            None => {
                *current_piece = queue.get_next_piece();
            },
        }
        self.held_piece = match taken {
            Some(p) => {
                let mut p = p;
                p.back_to_start_position();
                Some(p)
            },
            None => None,
        };
        self.can_hold = false;
    }

    /// Allows one hold again; called once per lock.
    pub fn reset_hold(&mut self)
        ensures
            *final(self) == (HoldQueue { can_hold: true, ..*old(self) }),
    {
        self.can_hold = true;
    }
}

/// Two holds between locks: the first one stores the active piece, the second changes
/// nothing.
pub proof fn lemma_second_hold_is_noop(
    h0: HoldQueue,
    c0: Option<Piece>,
    q0: Queue,
    h1: HoldQueue,
    c1: Option<Piece>,
    q1: Queue,
    h2: HoldQueue,
    c2: Option<Piece>,
    q2: Queue,
)
    requires
        h0.can_hold,
        hold_step(h0, c0, q0, h1, c1, q1),
        hold_step(h1, c1, q1, h2, c2, q2),
    ensures
        h1.held_piece == stored(c0),
        h2 == h1,
        c2 == c1,
        q2 == q1,
{
}

/// After `reset_hold`, whatever came before, the next hold goes through: the active piece
/// moves to the slot.
pub proof fn lemma_hold_after_reset(
    h: HoldQueue,
    c0: Option<Piece>,
    q0: Queue,
    h1: HoldQueue,
    c1: Option<Piece>,
    q1: Queue,
)
    requires
        hold_step((HoldQueue { can_hold: true, ..h }), c0, q0, h1, c1, q1),
    ensures
        h1.held_piece == stored(c0),
        !h1.can_hold,
{
}

} // verus!
