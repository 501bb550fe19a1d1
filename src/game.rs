use vstd::prelude::*;
use crate::board::{Board, cells_free, in_bounds, cleared, empty_rows, full_row_count, BOARD_HEIGHT};
use crate::piece::{Piece, RotationState, blocks_of, shape, spawned, kicked, kick_offsets, cw_of, ccw_of};
use crate::queue::Queue;
use crate::hold::{HoldQueue, hold_step};
use crate::score_manager::{ScoreManager, TSpinType, after_clear, after_drop};
use crate::player::{GameStats, fresh_stats};
use crate::states::{GameState, GameAction};

verus! {

/// Gravity interval at level 1, in microseconds.
pub const BASE_DROP_INTERVAL_US: u64 = 1_000_000;

/// Shortest gravity interval, in microseconds.
pub const MIN_DROP_INTERVAL_US: u64 = 100_000;

/// Lock delay at level 1, in microseconds.
pub const BASE_LOCK_DELAY_US: u64 = 500_000;

/// Shortest lock delay, in microseconds.
pub const MIN_LOCK_DELAY_US: u64 = 100_000;

/// Lines per level.
pub const LINES_PER_LEVEL: u32 = 10;

/// Gravity interval at `level`: 1 s, times 0.9 per level above the first (each step rounded
/// down to the microsecond), never under 0.1 s.
pub open spec fn drop_interval_for(level: nat) -> nat
    decreases level,
{
    if level <= 1 {
        BASE_DROP_INTERVAL_US as nat
    } else {
        let v = drop_interval_for((level - 1) as nat) * 9 / 10;
        if v < MIN_DROP_INTERVAL_US {
            MIN_DROP_INTERVAL_US as nat
        } else {
            v
        }
    }
}

/// Lock delay at `level`: 0.5 s, times 0.92 per level above the first (each step rounded
/// down to the microsecond), never under 0.1 s.
pub open spec fn lock_delay_for(level: nat) -> nat
    decreases level,
{
    if level <= 1 {
        BASE_LOCK_DELAY_US as nat
    } else {
        let v = lock_delay_for((level - 1) as nat) * 92 / 100;
        if v < MIN_LOCK_DELAY_US {
            MIN_LOCK_DELAY_US as nat
        } else {
            v
        }
    }
}

proof fn lemma_drop_interval_bounds(level: nat)
    ensures
        MIN_DROP_INTERVAL_US <= drop_interval_for(level) <= BASE_DROP_INTERVAL_US,
    decreases level,
{
    if level > 1 {
        lemma_drop_interval_bounds((level - 1) as nat);
    }
}

proof fn lemma_drop_interval_floor(from: nat, level: nat)
    requires
        from <= level,
        drop_interval_for(from) == MIN_DROP_INTERVAL_US,
    ensures
        drop_interval_for(level) == MIN_DROP_INTERVAL_US,
    decreases level - from,
{
    if from < level {
        lemma_drop_interval_floor(from, (level - 1) as nat);
    }
}

proof fn lemma_lock_delay_bounds(level: nat)
    ensures
        MIN_LOCK_DELAY_US <= lock_delay_for(level) <= BASE_LOCK_DELAY_US,
    decreases level,
{
    if level > 1 {
        lemma_lock_delay_bounds((level - 1) as nat);
    }
}

proof fn lemma_lock_delay_floor(from: nat, level: nat)
    requires
        from <= level,
        lock_delay_for(from) == MIN_LOCK_DELAY_US,
    ensures
        lock_delay_for(level) == MIN_LOCK_DELAY_US,
    decreases level - from,
{
    if from < level {
        lemma_lock_delay_floor(from, (level - 1) as nat);
    }
}

fn drop_interval_at(level: u32) -> (r: u64)
    ensures
        r == drop_interval_for(level as nat),
{
    let mut v: u64 = BASE_DROP_INTERVAL_US;
    let mut l: u32 = 1;
    while l < level && v > MIN_DROP_INTERVAL_US
        invariant
            1 <= l,
            l <= level || l == 1,
            v == drop_interval_for(l as nat),
        decreases level - l,
    {
        proof {
            lemma_drop_interval_bounds(l as nat);
        }
        l += 1;
        v = v * 9 / 10;
        if v < MIN_DROP_INTERVAL_US {
            v = MIN_DROP_INTERVAL_US;
        }
    }
    proof {
        if l < level {
            lemma_drop_interval_bounds(l as nat);
            lemma_drop_interval_floor(l as nat, level as nat);
        }
    }
    v
}

fn lock_delay_at(level: u32) -> (r: u64)
    ensures
        r == lock_delay_for(level as nat),
{
    let mut v: u64 = BASE_LOCK_DELAY_US;
    let mut l: u32 = 1;
    while l < level && v > MIN_LOCK_DELAY_US
        invariant
            1 <= l,
            l <= level || l == 1,
            v == lock_delay_for(l as nat),
        decreases level - l,
    {
        proof {
            lemma_lock_delay_bounds(l as nat);
        }
        l += 1;
        v = v * 92 / 100;
        if v < MIN_LOCK_DELAY_US {
            v = MIN_LOCK_DELAY_US;
        }
    }
    proof {
        if l < level {
            lemma_lock_delay_bounds(l as nat);
            lemma_lock_delay_floor(l as nat, level as nat);
        }
    }
    v
}

/// Whether piece `p` lies on the playfield over empty cells only.
pub open spec fn fits(grid: Seq<Seq<u8>>, p: Piece) -> bool {
    cells_free(grid, blocks_of(p))
}

/// `p` with its anchor moved by `dx` columns and `dy` rows.
pub open spec fn shifted(p: Piece, dx: int, dy: int) -> Piece {
    Piece { xpos: (p.xpos + dx) as i32, ypos: (p.ypos + dy) as i32, ..p }
}

/// A piece of one of the seven types whose anchor stays near the playfield.
pub open spec fn piece_ok(p: Piece) -> bool {
    &&& p.wf()
    &&& -16 <= p.xpos <= 40
    &&& -16 <= p.ypos <= 40
}

/// The grid with `id` written at every cell of `blocks` that lies on the playfield.
pub open spec fn stamp(grid: Seq<Seq<u8>>, blocks: Seq<(i32, i32)>, id: u8) -> Seq<Seq<u8>>
    decreases blocks.len(),
{
    if blocks.len() == 0 {
        grid
    } else {
        let g = stamp(grid, blocks.drop_last(), id);
        let (r, c) = blocks.last();
        if in_bounds(r as int, c as int) {
            g.update(r as int, g[r as int].update(c as int, id))
        } else {
            g
        }
    }
}

/// How many rows a hard drop moves `p` down: it falls while the cell below fits.
pub open spec fn drop_steps(grid: Seq<Seq<u8>>, p: Piece) -> nat
    decreases 41 - p.ypos,
{
    if p.ypos < 40 && fits(grid, shifted(p, 0, 1)) {
        1 + drop_steps(grid, shifted(p, 0, 1))
    } else {
        0
    }
}

/// `n + 1`, held at `u32::MAX`.
pub open spec fn inc_capped(n: u32) -> u32 {
    if n == u32::MAX {
        u32::MAX
    } else {
        (n + 1) as u32
    }
}

/// `a + b`, held at `u32::MAX`.
pub open spec fn add_capped32(a: u32, b: nat) -> u32 {
    if a + b > u32::MAX {
        u32::MAX
    } else {
        (a + b) as u32
    }
}

/// The session statistics after a lock that placed a piece (or not) and cleared `n` rows,
/// `combo` being the combo count after it.
pub open spec fn stats_after_lock(s: GameStats, placed: bool, n: nat, combo: u32) -> GameStats {
    GameStats {
        pieces_placed: if placed {
            inc_capped(s.pieces_placed)
        } else {
            s.pieces_placed
        },
        singles: if n == 1 {
            inc_capped(s.singles)
        } else {
            s.singles
        },
        doubles: if n == 2 {
            inc_capped(s.doubles)
        } else {
            s.doubles
        },
        triples: if n == 3 {
            inc_capped(s.triples)
        } else {
            s.triples
        },
        quadruples: if n == 4 {
            inc_capped(s.quadruples)
        } else {
            s.quadruples
        },
        max_combo: if n > 0 && combo > s.max_combo {
            combo
        } else {
            s.max_combo
        },
        ..s
    }
}

/// The game: playfield, queue, hold slot, active piece, scoring, level and the gravity and
/// lock-delay timers (in microseconds).
pub struct Game {
    pub board: Board,
    pub queue: Queue,
    pub hold_queue: HoldQueue,
    pub current_piece: Option<Piece>,
    pub level: u32,
    pub combo: u32,
    pub score_manager: ScoreManager,
    pub lines_cleared: u32,
    pub game_state: GameState,
    pub drop_timer: u64,
    pub drop_interval: u64,
    pub current_game_stats: GameStats,
    pub game_start_time: u64,
    pub lock_delay_timer: u64,
    pub lock_delay_duration: u64,
    pub piece_on_ground: bool,
}

/// The grid once the active piece, if any, is written into it.
pub open spec fn placed_grid(g: Game) -> Seq<Seq<u8>> {
    match g.current_piece {
        Some(p) => stamp(g.board@, blocks_of(p), p.id),
        None => g.board@,
    }
}

/// The piece that `q` served last.
pub open spec fn last_drawn(q: Queue) -> Piece {
    spawned(q.drawn@.last())
}

/// Drawing the next piece from the queue of `g0`: it becomes active if it fits, else the
/// game is over with no active piece.
pub open spec fn spawn_step(g0: Game, g1: Game) -> bool {
    let next = last_drawn(g1.queue);
    let ok = fits(g1.board@, next);
    &&& g1.queue.drawn@ == g0.queue.drawn@.push(next.id)
    &&& 1 <= next.id <= 7
    &&& g1 == Game {
        queue: g1.queue,
        current_piece: if ok {
            Some(next)
        } else {
            None
        },
        game_state: if ok {
            g0.game_state
        } else {
            GameState::GameOver
        },
        ..g0
    }
}

/// One lock from `g0`: the active piece is written into the playfield, full rows are
/// cleared and scored, the combo, line count and level move on, holding is allowed again,
/// and the next piece is drawn (`spawn_step`).
pub open spec fn lock_step(g0: Game, g1: Game) -> bool {
    let placed = placed_grid(g0);
    let n = full_row_count(placed);
    let after = cleared(placed);
    let combo = if n > 0 {
        inc_capped(g0.combo)
    } else {
        0
    };
    let lines = if n > 0 {
        add_capped32(g0.lines_cleared, n)
    } else {
        g0.lines_cleared
    };
    let level = (lines / LINES_PER_LEVEL + 1) as u32;
    let mid = Game {
        board: g1.board,
        hold_queue: HoldQueue { can_hold: true, ..g0.hold_queue },
        combo,
        lines_cleared: lines,
        level,
        drop_interval: drop_interval_for(level as nat) as u64,
        lock_delay_duration: lock_delay_for(level as nat) as u64,
        score_manager: if n > 0 {
            after_clear(
                g0.score_manager,
                n as u32,
                g0.level,
                combo,
                TSpinType::NoSpin,
                after == empty_rows(BOARD_HEIGHT as nat),
            )
        } else {
            g0.score_manager
        },
        current_game_stats: stats_after_lock(g0.current_game_stats, g0.current_piece is Some, n, combo),
        ..g0
    };
    &&& g1.board@ == after
    &&& spawn_step(mid, g1)
}

/// The game once the active piece is set to `cand`, if `cand` fits; a placement that
/// stands restarts the lock delay.
pub open spec fn after_place(g: Game, cand: Piece) -> Game {
    if fits(g.board@, cand) {
        Game { current_piece: Some(cand), lock_delay_timer: 0, ..g }
    } else {
        g
    }
}

/// Trying to move the active piece by (dx, dy).
pub open spec fn after_move(g: Game, dx: int, dy: int) -> Game {
    match g.current_piece {
        Some(p) => after_place(g, shifted(p, dx, dy)),
        None => g,
    }
}

/// One soft-drop step: one row down and a point if the piece fits there, else the piece
/// is marked as resting on the stack and nothing is scored.
pub open spec fn after_soft_drop(g: Game) -> Game {
    match g.current_piece {
        Some(p) => {
            if fits(g.board@, shifted(p, 0, 1)) {
                after_place(
                    Game { score_manager: after_drop(g.score_manager, 1, 1), ..g },
                    shifted(p, 0, 1),
                )
            } else {
                Game { piece_on_ground: true, ..g }
            }
        },
        None => g,
    }
}

/// One gravity step: one row down if the piece fits there (it then no longer rests), else
/// the piece rests on the stack.
pub open spec fn after_gravity(g: Game) -> Game {
    match g.current_piece {
        Some(p) => if fits(g.board@, shifted(p, 0, 1)) {
            Game {
                current_piece: Some(shifted(p, 0, 1)),
                piece_on_ground: false,
                lock_delay_timer: 0,
                ..g
            }
        } else {
            Game { piece_on_ground: true, ..g }
        },
        None => g,
    }
}

/// The orientation a quarter turn of `p` aims at.
pub open spec fn rotation_target(p: Piece, clockwise: bool) -> RotationState {
    if clockwise {
        cw_of(p.rotation)
    } else {
        ccw_of(p.rotation)
    }
}

/// Rotation with wall kicks: the candidates of the kick table are tried in order and the
/// first at which the turned piece fits is taken; when none fits, nothing changes.
pub open spec fn rotate_step(g0: Game, g1: Game, clockwise: bool) -> bool {
    match g0.current_piece {
        Some(p) => {
            let to = rotation_target(p, clockwise);
            let kicks = kick_offsets(p.id, p.rotation, to);
            if exists|i: int| 0 <= i < kicks.len() && fits(g0.board@, #[trigger] kicked(p, to, kicks[i])) {
                exists|i: int|
                    0 <= i < kicks.len() && fits(g0.board@, #[trigger] kicked(p, to, kicks[i])) && (forall|j: int|
                        0 <= j < i ==> !fits(g0.board@, #[trigger] kicked(p, to, kicks[j]))) && g1 == after_place(
                        g0,
                        kicked(p, to, kicks[i]),
                    )
            } else {
                g1 == g0
            }
        },
        None => g1 == g0,
    }
}

/// The game right before a hard drop locks: the piece has fallen as far as it fits, two
/// points per row fallen are scored, and the lock-delay state is cleared.
pub open spec fn dropped(g: Game) -> Game {
    match g.current_piece {
        Some(p) => {
            let k = drop_steps(g.board@, p);
            Game {
                current_piece: Some(shifted(p, 0, k as int)),
                score_manager: if k > 0 {
                    after_drop(g.score_manager, 2, k as u32)
                } else {
                    g.score_manager
                },
                piece_on_ground: false,
                lock_delay_timer: 0,
                ..g
            }
        },
        None => Game { piece_on_ground: false, lock_delay_timer: 0, ..g },
    }
}

/// `a + b`, held at `u64::MAX`.
pub open spec fn add_capped64(a: u64, b: u64) -> u64 {
    if a + b > u64::MAX {
        u64::MAX
    } else {
        (a + b) as u64
    }
}

/// One frame's worth of time `delta` (microseconds) while playing: gravity when its timer
/// reaches the interval, then, while the piece rests, the lock delay, locking when it runs
/// out.
pub open spec fn time_step(g0: Game, g1: Game, delta: u64) -> bool {
    let t = add_capped64(g0.drop_timer, delta);
    let ga = if t >= g0.drop_interval {
        after_gravity(Game { drop_timer: 0, ..g0 })
    } else {
        Game { drop_timer: t, ..g0 }
    };
    if ga.piece_on_ground {
        let lt = add_capped64(ga.lock_delay_timer, delta);
        if lt >= ga.lock_delay_duration {
            &&& lock_step(
                Game { lock_delay_timer: lt, ..ga },
                Game { piece_on_ground: true, lock_delay_timer: lt, ..g1 },
            )
            &&& !g1.piece_on_ground
            &&& g1.lock_delay_timer == 0
        } else {
            g1 == Game { lock_delay_timer: lt, ..ga }
        }
    } else {
        g1 == ga
    }
}

/// One input command. Pausing toggles between playing and paused, resuming leaves the
/// pause; the others act only while playing. Restarting is left to the caller.
pub open spec fn action_step(g0: Game, g1: Game, action: GameAction) -> bool {
    match action {
        GameAction::PauseGame => g1 == Game {
            game_state: match g0.game_state {
                GameState::Playing => GameState::Paused,
                GameState::Paused => GameState::Playing,
                other => other,
            },
            ..g0
        },
        GameAction::ResumeGame => g1 == Game {
            game_state: if g0.game_state == GameState::Paused {
                GameState::Playing
            } else {
                g0.game_state
            },
            ..g0
        },
        GameAction::RestartGame => g1 == g0,
        _ => if g0.game_state != GameState::Playing {
            g1 == g0
        } else {
            match action {
                GameAction::MoveLeft => g1 == after_move(g0, -1, 0),
                GameAction::MoveRight => g1 == after_move(g0, 1, 0),
                GameAction::SoftDrop => g1 == after_soft_drop(g0),
                GameAction::RotateCW => rotate_step(g0, g1, true),
                GameAction::RotateCCW => rotate_step(g0, g1, false),
                GameAction::HoldPiece => {
                    &&& hold_step(
                        g0.hold_queue,
                        g0.current_piece,
                        g0.queue,
                        g1.hold_queue,
                        g1.current_piece,
                        g1.queue,
                    )
                    &&& g1 == Game {
                        hold_queue: g1.hold_queue,
                        current_piece: g1.current_piece,
                        queue: g1.queue,
                        ..g0
                    }
                },
                _ => lock_step(dropped(g0), g1),
            }
        },
    }
}

/// One frame from `g0` to `g1`: `states` are the games between the commands, each command
/// taking one to the next, and then the time step if the game is being played.
pub open spec fn frame_step(
    g0: Game,
    g1: Game,
    actions: Seq<GameAction>,
    delta: u64,
    states: Seq<Game>,
) -> bool {
    &&& states.len() == actions.len() + 1
    &&& states[0] == g0
    &&& forall|k: int| 0 <= k < actions.len() ==> #[trigger] action_step(states[k], states[k + 1], actions[k])
    &&& if states.last().game_state == GameState::Playing {
        time_step(states.last(), g1, delta)
    } else {
        g1 == states.last()
    }
}

/// Kick order: when the `j`-th kick candidate is the first at which the turned piece fits,
/// the turn lands there (and restarts the lock delay), whatever the later candidates are.
pub proof fn lemma_kick_order(g0: Game, g1: Game, clockwise: bool, j: int)
    requires
        rotate_step(g0, g1, clockwise),
        g0.current_piece is Some,
        0 <= j < kick_offsets(
            g0.current_piece->0.id,
            g0.current_piece->0.rotation,
            rotation_target(g0.current_piece->0, clockwise),
        ).len(),
        fits(
            g0.board@,
            kicked(
                g0.current_piece->0,
                rotation_target(g0.current_piece->0, clockwise),
                kick_offsets(
                    g0.current_piece->0.id,
                    g0.current_piece->0.rotation,
                    rotation_target(g0.current_piece->0, clockwise),
                )[j],
            ),
        ),
        forall|i: int|
            0 <= i < j ==> !fits(
                g0.board@,
                #[trigger] kicked(
                    g0.current_piece->0,
                    rotation_target(g0.current_piece->0, clockwise),
                    kick_offsets(
                        g0.current_piece->0.id,
                        g0.current_piece->0.rotation,
                        rotation_target(g0.current_piece->0, clockwise),
                    )[i],
                ),
            ),
    ensures
        g1 == after_place(
            g0,
            kicked(
                g0.current_piece->0,
                rotation_target(g0.current_piece->0, clockwise),
                kick_offsets(
                    g0.current_piece->0.id,
                    g0.current_piece->0.rotation,
                    rotation_target(g0.current_piece->0, clockwise),
                )[j],
            ),
        ),
        g1.current_piece == Some(
            kicked(
                g0.current_piece->0,
                rotation_target(g0.current_piece->0, clockwise),
                kick_offsets(
                    g0.current_piece->0.id,
                    g0.current_piece->0.rotation,
                    rotation_target(g0.current_piece->0, clockwise),
                )[j],
            ),
        ),
{
    let p = g0.current_piece->0;
    let to = rotation_target(p, clockwise);
    let kicks = kick_offsets(p.id, p.rotation, to);
    assert(fits(g0.board@, kicked(p, to, kicks[j])));
    let i = choose|i: int|
        0 <= i < kicks.len() && fits(g0.board@, #[trigger] kicked(p, to, kicks[i])) && (forall|k: int|
            0 <= k < i ==> !fits(g0.board@, #[trigger] kicked(p, to, kicks[k]))) && g1 == after_place(
            g0,
            kicked(p, to, kicks[i]),
        );
    if i < j {
        assert(!fits(g0.board@, kicked(p, to, kicks[i])));
    } else if i > j {
        assert(!fits(g0.board@, kicked(p, to, kicks[j])));
    }
}

/// A quarter turn at which no kick candidate fits changes nothing: orientation, anchor and
/// the rest of the game stay as they were.
pub proof fn lemma_blocked_turn_changes_nothing(g0: Game, g1: Game, clockwise: bool)
    requires
        rotate_step(g0, g1, clockwise),
        g0.current_piece is Some,
        forall|i: int|
            0 <= i < kick_offsets(
                g0.current_piece->0.id,
                g0.current_piece->0.rotation,
                rotation_target(g0.current_piece->0, clockwise),
            ).len() ==> !fits(
                g0.board@,
                #[trigger] kicked(
                    g0.current_piece->0,
                    rotation_target(g0.current_piece->0, clockwise),
                    kick_offsets(
                        g0.current_piece->0.id,
                        g0.current_piece->0.rotation,
                        rotation_target(g0.current_piece->0, clockwise),
                    )[i],
                ),
            ),
    ensures
        g1 == g0,
{
}

/// A lock from a game that is not over ends with an active piece exactly when the game
/// goes on.
pub proof fn lemma_lock_keeps_piece_or_game_over(g0: Game, g1: Game)
    requires
        lock_step(g0, g1),
        g0.game_state != GameState::GameOver,
    ensures
        (g1.current_piece is None) == (g1.game_state == GameState::GameOver),
{
}

/// Game over: when the piece drawn after a lock does not fit where it enters the
/// playfield, the game is over and no piece is active.
pub proof fn lemma_blocked_spawn_ends_game(g0: Game, g1: Game)
    requires
        lock_step(g0, g1),
        !fits(g1.board@, last_drawn(g1.queue)),
    ensures
        g1.game_state == GameState::GameOver,
        g1.current_piece is None,
{
}

proof fn lemma_shape_facts(id: u8, rot: RotationState)
    requires
        1 <= id <= 7,
    ensures
        shape(id, rot).len() == 4,
        forall|i: int|
            0 <= i < 4 ==> 0 <= #[trigger] shape(id, rot)[i].0 <= 3 && 0 <= shape(id, rot)[i].1 <= 3,
{
}

/// A piece that fits has its anchor within a few cells of the playfield.
proof fn lemma_fit_anchor(grid: Seq<Seq<u8>>, p: Piece)
    requires
        p.wf(),
        p.anchor_fits(),
        fits(grid, p),
    ensures
        -3 <= p.xpos <= 9,
        -3 <= p.ypos <= 21,
{
    lemma_shape_facts(p.id, p.rotation);
    let b = blocks_of(p);
    assert(b.len() == 4);
    let (r, c) = b[0];
    assert(in_bounds(r as int, c as int));
}

proof fn lemma_kick_bounds(id: u8, from: RotationState, to: RotationState)
    ensures
        forall|i: int|
            0 <= i < kick_offsets(id, from, to).len() ==> -2 <= #[trigger] kick_offsets(id, from, to)[i].0 <= 2
                && -2 <= kick_offsets(id, from, to)[i].1 <= 2,
{
}

/// Whether `p` fits on `board`.
fn fits_on(board: &Board, p: &Piece) -> (r: bool)
    requires
        board.wf(),
        p.anchor_fits(),
    ensures
        r == fits(board@, *p),
{
    let blocks = p.get_blocks();
    board.is_valid_position(blocks.as_slice())
}

/// Writes the id of `p` into every cell of it that lies on the playfield.
fn stamp_piece(board: &mut Board, p: &Piece)
    requires
        old(board).wf(),
        p.wf(),
        p.anchor_fits(),
    ensures
        final(board).wf(),
        final(board)@ == stamp(old(board)@, blocks_of(*p), p.id),
{
    let blocks = p.get_blocks();
    let id = p.get_id();
    let mut i: usize = 0;
    while i < blocks.len()
        invariant
            board.wf(),
            1 <= id <= 7,
            id == p.id,
            blocks@ == blocks_of(*p),
            i <= blocks@.len(),
            board@ == stamp(old(board)@, blocks@.subrange(0, i as int), id),
        decreases blocks@.len() - i,
    {
        let (row, col) = blocks[i];
        if row >= 0 && col >= 0 {
            board.set_cell(row as usize, col as usize, id);
        }
        assert(blocks@.subrange(0, i + 1).drop_last() =~= blocks@.subrange(0, i as int));
        i += 1;
    }
    assert(blocks@.subrange(0, i as int) =~= blocks@);
}

/// Moves `piece` down while the row below fits; says how far it went.
fn fall(board: &Board, piece: Piece) -> (r: (Piece, u32))
    requires
        board.wf(),
        piece_ok(piece),
    ensures
        r.0 == shifted(piece, 0, r.1 as int),
        r.1 == drop_steps(board@, piece),
        piece_ok(r.0),
{
    let mut p = piece;
    let mut cells: u32 = 0;
    loop
        invariant
            board.wf(),
            piece_ok(piece),
            p == shifted(piece, 0, cells as int),
            cells <= 60,
            cells == 0 ==> p == piece,
            cells > 0 ==> fits(board@, p),
            piece_ok(p),
            drop_steps(board@, piece) == cells + drop_steps(board@, p),
        ensures
            p == shifted(piece, 0, cells as int),
            drop_steps(board@, piece) == cells,
            piece_ok(p),
        decreases 41 - p.ypos,
    {
        let mut below = p;
        below.move_down();
        if !fits_on(board, &below) {
            assert(drop_steps(board@, p) == 0);
            break;
        }
        proof {
            lemma_fit_anchor(board@, below);
            assert(below == shifted(p, 0, 1));
            assert(drop_steps(board@, p) == 1 + drop_steps(board@, below));
        }
        p = below;
        cells += 1;
    }
    (p, cells)
}

impl Game {
    pub open spec fn wf(&self) -> bool {
        &&& self.board.wf()
        &&& self.queue.wf()
        &&& self.hold_queue.wf()
        &&& self.current_piece is Some ==> piece_ok(self.current_piece->0)
        &&& self.level == self.lines_cleared / LINES_PER_LEVEL + 1
        &&& self.drop_interval == drop_interval_for(self.level as nat)
        &&& self.lock_delay_duration == lock_delay_for(self.level as nat)
        &&& !self.piece_on_ground ==> self.lock_delay_timer == 0
    }

    fn calculate_drop_interval(&self) -> (r: u64)
        ensures
            r == drop_interval_for(self.level as nat),
    {
        drop_interval_at(self.level)
    }

    fn calculate_lock_delay(&self) -> (r: u64)
        ensures
            r == lock_delay_for(self.level as nat),
    {
        lock_delay_at(self.level)
    }

    /// One level per ten lines; the timings follow a change of level.
    fn update_level(&mut self)
        requires
            old(self).drop_interval == drop_interval_for(old(self).level as nat),
            old(self).lock_delay_duration == lock_delay_for(old(self).level as nat),
        ensures
            *final(self) == (Game {
                level: (old(self).lines_cleared / LINES_PER_LEVEL + 1) as u32,
                drop_interval: drop_interval_for((old(self).lines_cleared / LINES_PER_LEVEL + 1) as nat) as u64,
                lock_delay_duration: lock_delay_for((old(self).lines_cleared / LINES_PER_LEVEL + 1) as nat) as u64,
                ..*old(self)
            }),
    {
        let new_level = self.lines_cleared / LINES_PER_LEVEL + 1;
        if new_level != self.level {
            self.level = new_level;
            self.drop_interval = self.calculate_drop_interval();
            self.lock_delay_duration = self.calculate_lock_delay();
        }
    }

    /// Draws the next piece; one that does not fit where it enters ends the game.
    pub fn spawn_next_piece(&mut self)
        requires
            old(self).board.wf(),
            old(self).queue.wf(),
        ensures
            final(self).queue.wf(),
            spawn_step(*old(self), *final(self)),
    {
        self.current_piece = self.queue.get_next_piece();
        if let Some(piece) = self.current_piece {
            if !fits_on(&self.board, &piece) {
                self.current_piece = None;
                self.game_state = GameState::GameOver;
            }
        }
    }

    /// Restarts the lock delay after a move or rotation that stood.
    fn reset_lock_delay(&mut self)
        requires
            !old(self).piece_on_ground ==> old(self).lock_delay_timer == 0,
        ensures
            *final(self) == (Game { lock_delay_timer: 0, ..*old(self) }),
    {
        if self.piece_on_ground {
            self.lock_delay_timer = 0;
        }
    }

    /// Makes `cand` the active piece if it fits.
    fn try_place(&mut self, cand: Piece) -> (placed: bool)
        requires
            old(self).wf(),
            cand.wf(),
            cand.anchor_fits(),
        ensures
            final(self).wf(),
            *final(self) == after_place(*old(self), cand),
            placed == fits(old(self).board@, cand),
    {
        if fits_on(&self.board, &cand) {
            proof {
                lemma_fit_anchor(self.board@, cand);
            }
            self.current_piece = Some(cand);
            self.reset_lock_delay();
            true
        } else {
            false
        }
    }

    /// Turns the active piece a quarter, trying the kick candidates in table order.
    pub fn rotate_piece(&mut self, clockwise: bool) -> (turned: bool)
        requires
            old(self).wf(),
        ensures
            final(self).wf(),
            rotate_step(*old(self), *final(self), clockwise),
            turned == match old(self).current_piece {
                Some(p) => exists|i: int|
                    0 <= i < kick_offsets(p.id, p.rotation, rotation_target(p, clockwise)).len() && fits(
                        old(self).board@,
                        #[trigger] kicked(
                            p,
                            rotation_target(p, clockwise),
                            kick_offsets(p.id, p.rotation, rotation_target(p, clockwise))[i],
                        ),
                    ),
                None => false,
            },
    {
        match self.current_piece {
            None => false,
            Some(piece) => {
                let kicks = if clockwise {
                    piece.get_cw_kick_offsets()
                } else {
                    piece.get_ccw_kick_offsets()
                };
                let mut rotated = piece;
                if clockwise {
                    rotated.rotate_clockwise();
                } else {
                    rotated.rotate_counterclockwise();
                }
                let ghost to = rotation_target(piece, clockwise);
                proof {
                    lemma_kick_bounds(piece.id, piece.rotation, to);
                }
                let mut i: usize = 0;
                while i < kicks.len()
                    invariant
                        *self == *old(self),
                        self.wf(),
                        self.current_piece == Some(piece),
                        to == rotation_target(piece, clockwise),
                        rotated == (Piece { rotation: to, ..piece }),
                        kicks@ == kick_offsets(piece.id, piece.rotation, to),
                        forall|k: int| 0 <= k < kicks@.len() ==> -2 <= #[trigger] kicks@[k].0 <= 2 && -2 <= kicks@[k].1 <= 2,
                        i <= kicks@.len(),
                        forall|j: int| 0 <= j < i ==> !fits(self.board@, #[trigger] kicked(piece, to, kicks@[j])),
                    decreases kicks@.len() - i,
                {
                    let (kx, ky) = kicks[i];
                    let mut cand = rotated;
                    cand.set_position(piece.xpos + kx, piece.ypos + ky);
                    assert(cand == kicked(piece, to, kicks@[i as int]));
                    let ghost before = *self;
                    if self.try_place(cand) {
                        proof {
                            let ii = i as int;
                            assert(before == *old(self));
                            assert(0 <= ii < kicks@.len() && fits(old(self).board@, kicked(piece, to, kicks@[ii])));
                            assert(forall|j: int| 0 <= j < ii ==> !fits(old(self).board@, #[trigger] kicked(piece, to, kicks@[j])));
                            assert(*self == after_place(*old(self), kicked(piece, to, kicks@[ii])));
                        }
                        return true;
                    }
                    i += 1;
                }
                false
            },
        }
    }

    /// Drops the active piece as far as it fits, scores two points per row, and locks it.
    fn hard_drop(&mut self)
        requires
            old(self).wf(),
        ensures
            final(self).wf(),
            lock_step(dropped(*old(self)), *final(self)),
    {
        if let Some(piece) = self.current_piece {
            let (p, cells) = fall(&self.board, piece);
            self.current_piece = Some(p);
            if cells > 0 {
                self.score_manager.drop(2, cells);
            }
        }
        self.piece_on_ground = false;
        self.lock_delay_timer = 0;
        proof {
            assert(*self == dropped(*old(self)));
        }
        self.lock_piece();
    }

    fn apply_gravity(&mut self)
        requires
            old(self).wf(),
        ensures
            final(self).wf(),
            *final(self) == after_gravity(*old(self)),
    {
        if let Some(piece) = self.current_piece {
            let mut below = piece;
            below.move_down();
            if fits_on(&self.board, &below) {
                proof {
                    lemma_fit_anchor(self.board@, below);
                }
                self.current_piece = Some(below);
                self.piece_on_ground = false;
                self.lock_delay_timer = 0;
            } else {
                self.piece_on_ground = true;
            }
        }
    }

    /// Gravity and lock delay for `delta_us` microseconds of play.
    fn advance_time(&mut self, delta_us: u64)
        requires
            old(self).wf(),
        ensures
            final(self).wf(),
            time_step(*old(self), *final(self), delta_us),
    {
        self.drop_timer = self.drop_timer.saturating_add(delta_us);
        if self.drop_timer >= self.drop_interval {
            self.drop_timer = 0;
            self.apply_gravity();
        }
        let ghost ga = *self;
        if self.piece_on_ground {
            self.lock_delay_timer = self.lock_delay_timer.saturating_add(delta_us);
            if self.lock_delay_timer >= self.lock_delay_duration {
                let ghost before = *self;
                self.lock_piece();
                let ghost locked = *self;
                self.piece_on_ground = false;
                self.lock_delay_timer = 0;
                assert(before == Game { lock_delay_timer: add_capped64(ga.lock_delay_timer, delta_us), ..ga });
                assert(locked == Game { piece_on_ground: true, lock_delay_timer: before.lock_delay_timer, ..*self });
            }
        }
    }

    /// Applies one input command (see `action_step`). Restarting needs the clock and is
    /// done with `reset_game`.
    pub fn handle_action(&mut self, action: GameAction)
        requires
            old(self).wf(),
        ensures
            final(self).wf(),
            action_step(*old(self), *final(self), action),
    {
        match action {
            GameAction::PauseGame => {
                if self.game_state == GameState::Playing {
                    self.game_state = GameState::Paused;
                } else if self.game_state == GameState::Paused {
                    self.game_state = GameState::Playing;
                }
                return;
            },
            GameAction::ResumeGame => {
                if self.game_state == GameState::Paused {
                    self.game_state = GameState::Playing;
                }
                return;
            },
            GameAction::RestartGame => {
                return;
            },
            _ => {},
        }
        if self.game_state != GameState::Playing {
            return;
        }
        match action {
            GameAction::MoveLeft => {
                if let Some(piece) = self.current_piece {
                    let mut cand = piece;
                    cand.move_left();
                    self.try_place(cand);
                }
            },
            GameAction::MoveRight => {
                if let Some(piece) = self.current_piece {
                    let mut cand = piece;
                    cand.move_right();
                    self.try_place(cand);
                }
            },
            GameAction::SoftDrop => {
                if let Some(piece) = self.current_piece {
                    let mut cand = piece;
                    cand.move_down();
                    if self.try_place(cand) {
                        self.score_manager.drop(1, 1);
                    } else {
                        self.piece_on_ground = true;
                    }
                }
            },
            GameAction::RotateCW => {
                self.rotate_piece(true);
            },
            GameAction::RotateCCW => {
                self.rotate_piece(false);
            },
            GameAction::HoldPiece => {
                self.hold_queue.hold_piece(&mut self.current_piece, &mut self.queue);
            },
            _ => {
                self.hard_drop();
            },
        }
    }

    /// One frame: the commands in order, then `delta_us` microseconds of gravity and lock
    /// delay if the game is being played.
    pub fn update(&mut self, actions: &[GameAction], delta_us: u64)
        requires
            old(self).wf(),
        ensures
            final(self).wf(),
            exists|states: Seq<Game>| #[trigger] frame_step(*old(self), *final(self), actions@, delta_us, states),
    {
        let ghost mut states: Seq<Game> = seq![*self];
        let mut i: usize = 0;
        while i < actions.len()
            invariant
                self.wf(),
                i <= actions@.len(),
                states.len() == i + 1,
                states[0] == *old(self),
                states.last() == *self,
                forall|k: int| 0 <= k < i ==> #[trigger] action_step(states[k], states[k + 1], actions@[k]),
            decreases actions@.len() - i,
        {
            self.handle_action(actions[i]);
            proof {
                states = states.push(*self);
            }
            i += 1;
        }
        if self.game_state == GameState::Playing {
            self.advance_time(delta_us);
        }
        assert(frame_step(*old(self), *self, actions@, delta_us, states));
    }

    pub fn new() -> (g: Self)
        ensures
            g.wf(),
            g.game_state == GameState::Menu,
            g.board@ == empty_rows(BOARD_HEIGHT as nat),
            g.score_manager.score == 0,
            g.score_manager.back_to_back == 0,
            g.level == 1,
            g.lines_cleared == 0,
            g.combo == 0,
            g.hold_queue.held_piece is None,
            g.hold_queue.can_hold,
            g.queue.drawn@.len() == 1,
            g.current_piece == Some(last_drawn(g.queue)),
            !g.piece_on_ground,
    {
        let mut game = Game {
            board: Board::new(),
            queue: Queue::new(),
            hold_queue: HoldQueue::new(),
            current_piece: None,
            level: 1,
            combo: 0,
            score_manager: ScoreManager::new(),
            lines_cleared: 0,
            game_state: GameState::Menu,
            drop_timer: 0,
            drop_interval: BASE_DROP_INTERVAL_US,
            current_game_stats: GameStats::new(0),
            game_start_time: 0,
            lock_delay_timer: 0,
            lock_delay_duration: BASE_LOCK_DELAY_US,
            piece_on_ground: false,
        };
        game.queue.generate_seven_bag();
        game.current_piece = game.queue.get_next_piece();
        game
    }

    /// Starts play: the next piece becomes active and the session statistics start afresh at
    /// `now_secs` (seconds since the Unix epoch).
    pub fn start_game(&mut self, now_secs: u64)
        requires
            old(self).wf(),
        ensures
            final(self).wf(),
            final(self).queue.drawn@ == old(self).queue.drawn@.push(last_drawn(final(self).queue).id),
            *final(self) == (Game {
                game_state: GameState::Playing,
                queue: final(self).queue,
                current_piece: Some(last_drawn(final(self).queue)),
                current_game_stats: fresh_stats(now_secs),
                game_start_time: now_secs,
                ..*old(self)
            }),
    {
        self.game_state = GameState::Playing;
        self.queue.generate_seven_bag();
        self.current_piece = self.queue.get_next_piece();
        self.drop_interval = self.calculate_drop_interval();
        self.lock_delay_duration = self.calculate_lock_delay();
        self.current_game_stats = GameStats::new(now_secs);
        self.game_start_time = now_secs;
        proof {
            lemma_drop_interval_bounds(self.level as nat);
            lemma_lock_delay_bounds(self.level as nat);
        }
    }

    /// A new game, started at `now_secs`.
    pub fn reset_game(&mut self, now_secs: u64)
        ensures
            final(self).wf(),
            final(self).game_state == GameState::Playing,
            final(self).board@ == empty_rows(BOARD_HEIGHT as nat),
            final(self).score_manager.score == 0,
            final(self).level == 1,
            final(self).lines_cleared == 0,
            final(self).combo == 0,
            final(self).hold_queue.held_piece is None,
            final(self).hold_queue.can_hold,
            final(self).queue.drawn@.len() == 2,
            final(self).current_piece == Some(last_drawn(final(self).queue)),
            final(self).current_game_stats == fresh_stats(now_secs),
            final(self).game_start_time == now_secs,
    {
        *self = Self::new();
        self.start_game(now_secs);
    }

    /// Where the active piece would come to rest on a hard drop (drawn as its ghost).
    pub fn ghost_piece(&self) -> (r: Option<Piece>)
        requires
            self.wf(),
        ensures
            r == match self.current_piece {
                Some(p) => Some(shifted(p, 0, drop_steps(self.board@, p) as int)),
                None => None,
            },
    {
        match self.current_piece {
            None => None,
            Some(piece) => {
                let (p, _cells) = fall(&self.board, piece);
                Some(p)
            },
        }
    }

    pub fn get_state(&self) -> (r: GameState)
        ensures
            r == self.game_state,
    {
        self.game_state
    }

    pub fn set_state(&mut self, state: GameState)
        ensures
            *final(self) == (Game { game_state: state, ..*old(self) }),
    {
        self.game_state = state;
    }

    pub fn get_score(&self) -> (r: u32)
        ensures
            r == self.score_manager.score,
    {
        self.score_manager.get_score()
    }

    pub fn get_lines_cleared(&self) -> (r: u32)
        ensures
            r == self.lines_cleared,
    {
        self.lines_cleared
    }

    /// The session statistics brought up to date: score, lines and level, and the time
    /// played up to `now_secs` once the game has been started.
    pub fn get_game_stats(&mut self, now_secs: u64) -> (r: GameStats)
        ensures
            r == (GameStats {
                score: old(self).score_manager.score,
                lines_cleared: old(self).lines_cleared,
                level_reached: old(self).level,
                duration_seconds: if old(self).game_start_time > 0 {
                    if now_secs >= old(self).game_start_time {
                        (now_secs - old(self).game_start_time) as u64
                    } else {
                        0
                    }
                } else {
                    old(self).current_game_stats.duration_seconds
                },
                ..old(self).current_game_stats
            }),
            *final(self) == (Game { current_game_stats: r, ..*old(self) }),
    {
        self.current_game_stats.score = self.score_manager.get_score();
        self.current_game_stats.lines_cleared = self.lines_cleared;
        self.current_game_stats.level_reached = self.level;
        if self.game_start_time > 0 {
            self.current_game_stats.duration_seconds = now_secs.saturating_sub(self.game_start_time);
        }
        self.current_game_stats
    }

    /// Locks the active piece into the playfield, then clears, scores and spawns.
    fn lock_piece(&mut self)
        requires
            old(self).wf(),
        ensures
            final(self).wf(),
            lock_step(*old(self), *final(self)),
    {
        if let Some(piece) = self.current_piece {
            stamp_piece(&mut self.board, &piece);
            self.current_game_stats.pieces_placed = self.current_game_stats.pieces_placed.saturating_add(1);
        }
        let cleared = self.board.clear_lines();
        if cleared > 0 {
            if cleared == 1 {
                self.current_game_stats.singles = self.current_game_stats.singles.saturating_add(1);
            } else if cleared == 2 {
                self.current_game_stats.doubles = self.current_game_stats.doubles.saturating_add(1);
            } else if cleared == 3 {
                self.current_game_stats.triples = self.current_game_stats.triples.saturating_add(1);
            } else if cleared == 4 {
                self.current_game_stats.quadruples = self.current_game_stats.quadruples.saturating_add(1);
            }
            self.combo = self.combo.saturating_add(1);
            if self.combo > self.current_game_stats.max_combo {
                self.current_game_stats.max_combo = self.combo;
            }
            let all_clear = self.board.is_empty();
            self.score_manager.lines_cleared(cleared, self.level, self.combo, TSpinType::NoSpin, all_clear);
            self.lines_cleared = self.lines_cleared.saturating_add(cleared);
            self.update_level();
        } else {
            self.combo = 0;
        }
        self.hold_queue.reset_hold();
        self.spawn_next_piece();
        proof {
            lemma_drop_interval_bounds(self.level as nat);
            lemma_lock_delay_bounds(self.level as nat);
        }
    }
}

} // verus!
