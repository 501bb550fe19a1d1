use vstd::prelude::*;
use vstd::string::*;

verus! {

/// The four canonical orientations of a piece.
#[derive(Clone, Copy, Debug, PartialEq, Eq, Structural)]
pub enum RotationState {
    /// Spawn orientation.
    Zero,
    /// One clockwise turn from spawn.
    R,
    /// Half a turn from spawn.
    Two,
    /// One counter-clockwise turn from spawn.
    L,
}

pub open spec fn rotation_index(s: RotationState) -> int {
    match s {
        RotationState::Zero => 0,
        RotationState::R => 1,
        RotationState::Two => 2,
        RotationState::L => 3,
    }
}

pub open spec fn cw_of(s: RotationState) -> RotationState {
    match s {
        RotationState::Zero => RotationState::R,
        RotationState::R => RotationState::Two,
        RotationState::Two => RotationState::L,
        RotationState::L => RotationState::Zero,
    }
}

pub open spec fn ccw_of(s: RotationState) -> RotationState {
    match s {
        RotationState::Zero => RotationState::L,
        RotationState::L => RotationState::Two,
        RotationState::Two => RotationState::R,
        RotationState::R => RotationState::Zero,
    }
}

impl RotationState {
    pub fn to_index(self) -> (r: usize)
        ensures
            r == rotation_index(self),
    {
        match self {
            RotationState::Zero => 0,
            RotationState::R => 1,
            RotationState::Two => 2,
            RotationState::L => 3,
        }
    }

    pub fn next_cw(self) -> (r: Self)
        ensures
            r == cw_of(self),
    {
        match self {
            RotationState::Zero => RotationState::R,
            RotationState::R => RotationState::Two,
            RotationState::Two => RotationState::L,
            RotationState::L => RotationState::Zero,
        }
    }

    pub fn next_ccw(self) -> (r: Self)
        ensures
            r == ccw_of(self),
    {
        match self {
            RotationState::Zero => RotationState::L,
            RotationState::L => RotationState::Two,
            RotationState::Two => RotationState::R,
            RotationState::R => RotationState::Zero,
        }
    }
}

/// Type ids: 1 I, 2 O, 3 T, 4 S, 5 Z, 6 J, 7 L.
pub const I_ID: u8 = 1;

pub const O_ID: u8 = 2;

pub const T_ID: u8 = 3;

/// The occupied cells of piece type `id` in orientation `rot`, as (row, col) offsets from
/// the anchor, listed row by row and left to right within a row.
pub open spec fn shape(id: u8, rot: RotationState) -> Seq<(i32, i32)> {
    match (id, rot) {
        (1, RotationState::Zero) => seq![(1, 0), (1, 1), (1, 2), (1, 3)],
        (1, RotationState::R) => seq![(0, 2), (1, 2), (2, 2), (3, 2)],
        (1, RotationState::Two) => seq![(2, 0), (2, 1), (2, 2), (2, 3)],
        (1, RotationState::L) => seq![(0, 1), (1, 1), (2, 1), (3, 1)],
        (2, _) => seq![(0, 0), (0, 1), (1, 0), (1, 1)],
        (3, RotationState::Zero) => seq![(0, 1), (1, 0), (1, 1), (1, 2)],
        (3, RotationState::R) => seq![(0, 1), (1, 1), (1, 2), (2, 1)],
        (3, RotationState::Two) => seq![(1, 0), (1, 1), (1, 2), (2, 1)],
        (3, RotationState::L) => seq![(0, 1), (1, 0), (1, 1), (2, 1)],
        (4, RotationState::Zero) => seq![(0, 1), (0, 2), (1, 0), (1, 1)],
        (4, RotationState::R) => seq![(0, 1), (1, 1), (1, 2), (2, 2)],
        (4, RotationState::Two) => seq![(1, 1), (1, 2), (2, 0), (2, 1)],
        (4, RotationState::L) => seq![(0, 0), (1, 0), (1, 1), (2, 1)],
        (5, RotationState::Zero) => seq![(0, 0), (0, 1), (1, 1), (1, 2)],
        (5, RotationState::R) => seq![(0, 2), (1, 1), (1, 2), (2, 1)],
        (5, RotationState::Two) => seq![(1, 0), (1, 1), (2, 1), (2, 2)],
        (5, RotationState::L) => seq![(0, 1), (1, 0), (1, 1), (2, 0)],
        (6, RotationState::Zero) => seq![(0, 0), (1, 0), (1, 1), (1, 2)],
        (6, RotationState::R) => seq![(0, 1), (0, 2), (1, 1), (2, 1)],
        (6, RotationState::Two) => seq![(1, 0), (1, 1), (1, 2), (2, 2)],
        (6, RotationState::L) => seq![(0, 1), (1, 1), (2, 0), (2, 1)],
        (7, RotationState::Zero) => seq![(0, 2), (1, 0), (1, 1), (1, 2)],
        (7, RotationState::R) => seq![(0, 1), (1, 1), (2, 1), (2, 2)],
        (7, RotationState::Two) => seq![(1, 0), (1, 1), (1, 2), (2, 0)],
        (7, RotationState::L) => seq![(0, 0), (0, 1), (1, 1), (2, 1)],
        _ => seq![],
    }
}

fn shape_offsets(id: u8, rot: RotationState) -> (r: Vec<(i32, i32)>)
    ensures
        r@ == shape(id, rot),
{
    match (id, rot) {
        (1, RotationState::Zero) => vec![(1, 0), (1, 1), (1, 2), (1, 3)],
        (1, RotationState::R) => vec![(0, 2), (1, 2), (2, 2), (3, 2)],
        (1, RotationState::Two) => vec![(2, 0), (2, 1), (2, 2), (2, 3)],
        (1, RotationState::L) => vec![(0, 1), (1, 1), (2, 1), (3, 1)],
        (2, _) => vec![(0, 0), (0, 1), (1, 0), (1, 1)],
        (3, RotationState::Zero) => vec![(0, 1), (1, 0), (1, 1), (1, 2)],
        (3, RotationState::R) => vec![(0, 1), (1, 1), (1, 2), (2, 1)],
        (3, RotationState::Two) => vec![(1, 0), (1, 1), (1, 2), (2, 1)],
        (3, RotationState::L) => vec![(0, 1), (1, 0), (1, 1), (2, 1)],
        (4, RotationState::Zero) => vec![(0, 1), (0, 2), (1, 0), (1, 1)],
        (4, RotationState::R) => vec![(0, 1), (1, 1), (1, 2), (2, 2)],
        (4, RotationState::Two) => vec![(1, 1), (1, 2), (2, 0), (2, 1)],
        (4, RotationState::L) => vec![(0, 0), (1, 0), (1, 1), (2, 1)],
        (5, RotationState::Zero) => vec![(0, 0), (0, 1), (1, 1), (1, 2)],
        (5, RotationState::R) => vec![(0, 2), (1, 1), (1, 2), (2, 1)],
        (5, RotationState::Two) => vec![(1, 0), (1, 1), (2, 1), (2, 2)],
        (5, RotationState::L) => vec![(0, 1), (1, 0), (1, 1), (2, 0)],
        (6, RotationState::Zero) => vec![(0, 0), (1, 0), (1, 1), (1, 2)],
        (6, RotationState::R) => vec![(0, 1), (0, 2), (1, 1), (2, 1)],
        (6, RotationState::Two) => vec![(1, 0), (1, 1), (1, 2), (2, 2)],
        (6, RotationState::L) => vec![(0, 1), (1, 1), (2, 0), (2, 1)],
        (7, RotationState::Zero) => vec![(0, 2), (1, 0), (1, 1), (1, 2)],
        (7, RotationState::R) => vec![(0, 1), (1, 1), (2, 1), (2, 2)],
        (7, RotationState::Two) => vec![(1, 0), (1, 1), (1, 2), (2, 0)],
        (7, RotationState::L) => vec![(0, 0), (0, 1), (1, 1), (2, 1)],
        _ => vec![],
    }
}

/// Which of the two kick rows of the starting orientation a turn uses.
pub open spec fn kick_slot(from: RotationState, to: RotationState) -> u8 {
    match (from, to) {
        (RotationState::Zero, RotationState::L) => 1,
        (RotationState::R, RotationState::Two) => 1,
        (RotationState::Two, RotationState::R) => 1,
        (RotationState::L, RotationState::Two) => 1,
        _ => 0,
    }
}

/// Kick candidates, as (x, y) offsets, shared by the J, L, S, T and Z pieces.
pub open spec fn jlstz_kicks(from: RotationState, slot: u8) -> Seq<(i32, i32)> {
    match (from, slot) {
        (RotationState::Zero, 0) => seq![(0i32, 0i32), (-1i32, 0i32), (-1i32, 1i32), (0i32, -2i32), (-1i32, -2i32)],
        (RotationState::Zero, _) => seq![(0i32, 0i32), (1i32, 0i32), (1i32, 1i32), (0i32, -2i32), (1i32, -2i32)],
        (RotationState::R, _) => seq![(0i32, 0i32), (1i32, 0i32), (1i32, -1i32), (0i32, 2i32), (1i32, 2i32)],
        (RotationState::Two, 0) => seq![(0i32, 0i32), (1i32, 0i32), (1i32, 1i32), (0i32, -2i32), (1i32, -2i32)],
        (RotationState::Two, _) => seq![(0i32, 0i32), (-1i32, 0i32), (-1i32, 1i32), (0i32, -2i32), (-1i32, -2i32)],
        (RotationState::L, _) => seq![(0i32, 0i32), (-1i32, 0i32), (-1i32, -1i32), (0i32, 2i32), (-1i32, 2i32)],
    }
}

/// Kick candidates, as (x, y) offsets, of the long piece.
pub open spec fn i_kicks(from: RotationState, slot: u8) -> Seq<(i32, i32)> {
    match (from, slot) {
        (RotationState::Zero, 0) => seq![(0i32, 0i32), (-2i32, 0i32), (1i32, 0i32), (-2i32, -1i32), (1i32, 2i32)],
        (RotationState::Zero, _) => seq![(0i32, 0i32), (-1i32, 0i32), (2i32, 0i32), (-1i32, 2i32), (2i32, -1i32)],
        (RotationState::R, 0) => seq![(0i32, 0i32), (2i32, 0i32), (-1i32, 0i32), (2i32, 1i32), (-1i32, -2i32)],
        (RotationState::R, _) => seq![(0i32, 0i32), (-1i32, 0i32), (2i32, 0i32), (-1i32, 2i32), (2i32, -1i32)],
        (RotationState::Two, 0) => seq![(0i32, 0i32), (2i32, 0i32), (-1i32, 0i32), (2i32, 1i32), (-1i32, -2i32)],
        (RotationState::Two, _) => seq![(0i32, 0i32), (1i32, 0i32), (-2i32, 0i32), (1i32, -2i32), (-2i32, 1i32)],
        (RotationState::L, _) => seq![(0i32, 0i32), (1i32, 0i32), (-2i32, 0i32), (1i32, -2i32), (-2i32, 1i32)],
    }
}

/// The ordered kick candidates for turning a piece of type `id` from `from` to `to`: the
/// square piece has the single no-op offset, the long piece its own table.
pub open spec fn kick_offsets(id: u8, from: RotationState, to: RotationState) -> Seq<(i32, i32)> {
    if id == O_ID {
        seq![(0, 0)]
    } else if id == I_ID {
        i_kicks(from, kick_slot(from, to))
    } else {
        jlstz_kicks(from, kick_slot(from, to))
    }
}

/// A falling piece: its type id, orientation and anchor (column `xpos`, row `ypos`).
#[derive(Clone, Copy, Debug)]
pub struct Piece {
    pub id: u8,
    pub rotation: RotationState,
    pub xpos: i32,
    pub ypos: i32,
}

/// The anchor column at which pieces of type `id` enter the playfield.
pub open spec fn spawn_x(id: u8) -> i32 {
    if id == O_ID {
        4
    } else {
        3
    }
}

/// A piece of type `id` in spawn orientation at its spawn anchor.
pub open spec fn spawned(id: u8) -> Piece {
    Piece { id, rotation: RotationState::Zero, xpos: spawn_x(id), ypos: 0 }
}

/// The type id that a one-letter name stands for; an unknown name stands for the T piece.
pub open spec fn id_for_name(name: Seq<char>) -> u8 {
    if name == seq!['I'] {
        1
    } else if name == seq!['O'] {
        2
    } else if name == seq!['S'] {
        4
    } else if name == seq!['Z'] {
        5
    } else if name == seq!['J'] {
        6
    } else if name == seq!['L'] {
        7
    } else {
        3
    }
}

pub open spec fn name_of(id: u8) -> Seq<char> {
    if id == 1 {
        seq!['I']
    } else if id == 2 {
        seq!['O']
    } else if id == 3 {
        seq!['T']
    } else if id == 4 {
        seq!['S']
    } else if id == 5 {
        seq!['Z']
    } else if id == 6 {
        seq!['J']
    } else {
        seq!['L']
    }
}

/// The playfield cells, as (row, col), that piece `p` covers.
pub open spec fn blocks_of(p: Piece) -> Seq<(i32, i32)> {
    shape(p.id, p.rotation).map_values(
        |o: (i32, i32)| ((p.ypos + o.0) as i32, (p.xpos + o.1) as i32),
    )
}

/// The piece turned to `to` with its anchor moved by the (x, y) offset `off`.
pub open spec fn kicked(p: Piece, to: RotationState, off: (i32, i32)) -> Piece {
    Piece { rotation: to, xpos: (p.xpos + off.0) as i32, ypos: (p.ypos + off.1) as i32, ..p }
}

impl Piece {
    pub open spec fn wf(&self) -> bool {
        1 <= self.id <= 7
    }

    /// The anchor is far enough from the ends of `i32` for any offset of the tables.
    pub open spec fn anchor_fits(&self) -> bool {
        -1000 <= self.xpos <= 1000 && -1000 <= self.ypos <= 1000
    }

    /// A fresh piece of type `id` (1 to 7) at its spawn place.
    pub fn with_id(id: u8) -> (p: Self)
        requires
            1 <= id <= 7,
        ensures
            p == spawned(id),
    {
        let xpos: i32 = if id == O_ID {
            4
        } else {
            3
        };
        Piece { id, rotation: RotationState::Zero, xpos, ypos: 0 }
    }

    /// A fresh piece from its one-letter name ("I", "O", "T", "S", "Z", "J", "L"); any other
    /// name gives a T piece.
    pub fn create_piece(name: &str) -> (p: Self)
        ensures
            p == spawned(id_for_name(name@)),
            p.wf(),
    {
        let id: u8 = if name.unicode_len() != 1 {
            T_ID
        } else {
            let c = name.get_char(0);
            proof {
                if name@.len() == 1 {
                    assert(name@ == seq![c]);
                }
            }
            if c == 'I' {
                1
            } else if c == 'O' {
                2
            } else if c == 'S' {
                4
            } else if c == 'Z' {
                5
            } else if c == 'J' {
                6
            } else if c == 'L' {
                7
            } else {
                3
            }
        };
        Self::with_id(id)
    }

    pub fn get_blocks(&self) -> (r: Vec<(i32, i32)>)
        requires
            self.xpos <= i32::MAX - 3,
            self.ypos <= i32::MAX - 3,
        ensures
            r@ == blocks_of(*self),
    {
        let offsets = shape_offsets(self.id, self.rotation);
        let mut blocks: Vec<(i32, i32)> = Vec::new();
        let mut i: usize = 0;
        while i < offsets.len()
            invariant
                self.xpos <= i32::MAX - 3,
                self.ypos <= i32::MAX - 3,
                offsets@ == shape(self.id, self.rotation),
                i <= offsets@.len(),
                blocks@ == blocks_of(*self).subrange(0, i as int),
            decreases offsets@.len() - i,
        {
            let (dr, dc) = offsets[i];
            blocks.push((self.ypos + dr, self.xpos + dc));
            assert(blocks@ =~= blocks_of(*self).subrange(0, i + 1));
            i += 1;
        }
        assert(blocks@ =~= blocks_of(*self));
        blocks
    }

    pub fn get_id(&self) -> (r: u8)
        ensures
            r == self.id,
    {
        self.id
    }

    pub fn get_name(&self) -> (r: &'static str)
        ensures
            r@ == name_of(self.id),
    {
        if self.id == 1 {
            proof { reveal_strlit("I"); }
            assert("I"@ =~= seq!['I']);
            "I"
        } else if self.id == 2 {
            proof { reveal_strlit("O"); }
            assert("O"@ =~= seq!['O']);
            "O"
        } else if self.id == 3 {
            proof { reveal_strlit("T"); }
            assert("T"@ =~= seq!['T']);
            "T"
        } else if self.id == 4 {
            proof { reveal_strlit("S"); }
            assert("S"@ =~= seq!['S']);
            "S"
        } else if self.id == 5 {
            proof { reveal_strlit("Z"); }
            assert("Z"@ =~= seq!['Z']);
            "Z"
        } else if self.id == 6 {
            proof { reveal_strlit("J"); }
            assert("J"@ =~= seq!['J']);
            "J"
        } else {
            proof { reveal_strlit("L"); }
            assert("L"@ =~= seq!['L']);
            "L"
        }
    }

    pub fn move_left(&mut self)
        requires
            old(self).xpos > i32::MIN,
        ensures
            *final(self) == (Piece { xpos: (old(self).xpos - 1) as i32, ..*old(self) }),
    {
        self.xpos -= 1;
    }

    pub fn move_right(&mut self)
        requires
            old(self).xpos < i32::MAX,
        ensures
            *final(self) == (Piece { xpos: (old(self).xpos + 1) as i32, ..*old(self) }),
    {
        self.xpos += 1;
    }

    pub fn move_down(&mut self)
        requires
            old(self).ypos < i32::MAX,
        ensures
            *final(self) == (Piece { ypos: (old(self).ypos + 1) as i32, ..*old(self) }),
    {
        self.ypos += 1;
    }

    pub fn move_up(&mut self)
        requires
            old(self).ypos > i32::MIN,
        ensures
            *final(self) == (Piece { ypos: (old(self).ypos - 1) as i32, ..*old(self) }),
    {
        self.ypos -= 1;
    }

    pub fn rotate_clockwise(&mut self)
        ensures
            *final(self) == (Piece { rotation: cw_of(old(self).rotation), ..*old(self) }),
    {
        self.rotation = self.rotation.next_cw();
    }

    pub fn rotate_counterclockwise(&mut self)
        ensures
            *final(self) == (Piece { rotation: ccw_of(old(self).rotation), ..*old(self) }),
    {
        self.rotation = self.rotation.next_ccw();
    }

    pub fn rotate_180(&mut self)
        ensures
            *final(self) == (Piece { rotation: cw_of(cw_of(old(self).rotation)), ..*old(self) }),
    {
        self.rotation = self.rotation.next_cw().next_cw();
    }

    /// Puts the piece back in spawn orientation at its spawn anchor.
    pub fn back_to_start_position(&mut self)
        ensures
            *final(self) == spawned(old(self).id),
    {
        self.rotation = RotationState::Zero;
        self.xpos = if self.id == O_ID {
            4
        } else {
            3
        };
        self.ypos = 0;
    }

    /// The ordered kick candidates for a clockwise turn from the current orientation.
    pub fn get_cw_kick_offsets(&self) -> (r: Vec<(i32, i32)>)
        ensures
            r@ == kick_offsets(self.id, self.rotation, cw_of(self.rotation)),
    {
        let from_state = self.rotation;
        let to_state = from_state.next_cw();
        self.get_kick_offsets(from_state, to_state)
    }

    /// The ordered kick candidates for a counter-clockwise turn from the current orientation.
    pub fn get_ccw_kick_offsets(&self) -> (r: Vec<(i32, i32)>)
        ensures
            r@ == kick_offsets(self.id, self.rotation, ccw_of(self.rotation)),
    {
        let from_state = self.rotation;
        let to_state = from_state.next_ccw();
        self.get_kick_offsets(from_state, to_state)
    }

    fn get_kick_offsets(&self, from: RotationState, to: RotationState) -> (r: Vec<(i32, i32)>)
        ensures
            r@ == kick_offsets(self.id, from, to),
    {
        if self.id == O_ID {
            return vec![(0, 0)];
        }
        let slot: u8 = match (from, to) {
            (RotationState::Zero, RotationState::L) => 1,
            (RotationState::R, RotationState::Two) => 1,
            (RotationState::Two, RotationState::R) => 1,
            (RotationState::L, RotationState::Two) => 1,
            _ => 0,
        };
        if self.id == I_ID {
            match (from, slot) {
                (RotationState::Zero, 0) => vec![(0, 0), (-2, 0), (1, 0), (-2, -1), (1, 2)],
                (RotationState::Zero, _) => vec![(0, 0), (-1, 0), (2, 0), (-1, 2), (2, -1)],
                (RotationState::R, 0) => vec![(0, 0), (2, 0), (-1, 0), (2, 1), (-1, -2)],
                (RotationState::R, _) => vec![(0, 0), (-1, 0), (2, 0), (-1, 2), (2, -1)],
                (RotationState::Two, 0) => vec![(0, 0), (2, 0), (-1, 0), (2, 1), (-1, -2)],
                (RotationState::Two, _) => vec![(0, 0), (1, 0), (-2, 0), (1, -2), (-2, 1)],
                (RotationState::L, _) => vec![(0, 0), (1, 0), (-2, 0), (1, -2), (-2, 1)],
            }
        } else {
            match (from, slot) {
                (RotationState::Zero, 0) => vec![(0, 0), (-1, 0), (-1, 1), (0, -2), (-1, -2)],
                (RotationState::Zero, _) => vec![(0, 0), (1, 0), (1, 1), (0, -2), (1, -2)],
                (RotationState::R, _) => vec![(0, 0), (1, 0), (1, -1), (0, 2), (1, 2)],
                (RotationState::Two, 0) => vec![(0, 0), (1, 0), (1, 1), (0, -2), (1, -2)],
                (RotationState::Two, _) => vec![(0, 0), (-1, 0), (-1, 1), (0, -2), (-1, -2)],
                (RotationState::L, _) => vec![(0, 0), (-1, 0), (-1, -1), (0, 2), (-1, 2)],
            }
        }
    }

    pub fn get_xpos(&self) -> (r: i32)
        ensures
            r == self.xpos,
    {
        self.xpos
    }

    pub fn get_ypos(&self) -> (r: i32)
        ensures
            r == self.ypos,
    {
        self.ypos
    }

    pub fn get_position(&self) -> (r: (i32, i32))
        ensures
            r == (self.xpos, self.ypos),
    {
        (self.xpos, self.ypos)
    }

    pub fn set_position(&mut self, x: i32, y: i32)
        ensures
            *final(self) == (Piece { xpos: x, ypos: y, ..*old(self) }),
    {
        self.xpos = x;
        self.ypos = y;
    }
}

} // verus!
