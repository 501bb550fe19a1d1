use vstd::prelude::*;

verus! {

/// How many finished games a player's history keeps.
pub const HISTORY_LIMIT: usize = 100;

/// The statistics of one game session.
#[derive(Clone, Copy, Debug)]
pub struct GameStats {
    pub score: u32,
    pub lines_cleared: u32,
    pub level_reached: u32,
    pub pieces_placed: u32,
    pub singles: u32,
    pub doubles: u32,
    pub triples: u32,
    pub quadruples: u32,
    pub max_combo: u32,
    pub back_to_backs: u32,
    pub t_spins_singles: u32,
    pub t_spins_doubles: u32,
    pub t_spins_triples: u32,
    pub all_clears: u32,
    pub duration_seconds: u64,
    pub timestamp: u64,
}

/// Fresh statistics: every counter 0, level 1, stamped with `timestamp`.
pub open spec fn fresh_stats(timestamp: u64) -> GameStats {
    GameStats {
        score: 0,
        lines_cleared: 0,
        level_reached: 1,
        pieces_placed: 0,
        singles: 0,
        doubles: 0,
        triples: 0,
        quadruples: 0,
        max_combo: 0,
        back_to_backs: 0,
        t_spins_singles: 0,
        t_spins_doubles: 0,
        t_spins_triples: 0,
        all_clears: 0,
        duration_seconds: 0,
        timestamp,
    }
}

impl GameStats {
    /// Fresh statistics of a game started at `timestamp` (seconds since the Unix epoch).
    pub fn new(timestamp: u64) -> (r: Self)
        ensures
            r == fresh_stats(timestamp),
    {
        Self {
            score: 0,
            lines_cleared: 0,
            level_reached: 1,
            pieces_placed: 0,
            singles: 0,
            doubles: 0,
            triples: 0,
            quadruples: 0,
            max_combo: 0,
            back_to_backs: 0,
            t_spins_singles: 0,
            t_spins_doubles: 0,
            t_spins_triples: 0,
            all_clears: 0,
            duration_seconds: 0,
            timestamp,
        }
    }
}

/// `a + b`, held at `u64::MAX`.
pub open spec fn sum_capped(a: u64, b: int) -> u64 {
    if a + b > u64::MAX {
        u64::MAX
    } else {
        (a + b) as u64
    }
}

/// The larger of two counters.
pub open spec fn max_u32(a: u32, b: u32) -> u32 {
    if a > b {
        a
    } else {
        b
    }
}

/// `s1` is `s0` with the finished game `g` folded in: totals held at their type's maximum,
/// bests, and a history that keeps the last `HISTORY_LIMIT` games.
pub open spec fn game_added(s0: PlayerStats, s1: PlayerStats, g: GameStats) -> bool {
    &&& s1.total_games == if s0.total_games == u32::MAX {
        u32::MAX
    } else {
        (s0.total_games + 1) as u32
    }
    &&& s1.total_score == sum_capped(s0.total_score, g.score as int)
    &&& s1.total_lines == sum_capped(s0.total_lines, g.lines_cleared as int)
    &&& s1.total_pieces == sum_capped(s0.total_pieces, g.pieces_placed as int)
    &&& s1.total_singles == sum_capped(s0.total_singles, g.singles as int)
    &&& s1.total_doubles == sum_capped(s0.total_doubles, g.doubles as int)
    &&& s1.total_triples == sum_capped(s0.total_triples, g.triples as int)
    &&& s1.total_quadruples == sum_capped(s0.total_quadruples, g.quadruples as int)
    &&& s1.total_back_to_backs == sum_capped(s0.total_back_to_backs, g.back_to_backs as int)
    &&& s1.total_t_spin_singles == sum_capped(s0.total_t_spin_singles, g.t_spins_singles as int)
    &&& s1.total_t_spin_doubles == sum_capped(s0.total_t_spin_doubles, g.t_spins_doubles as int)
    &&& s1.total_t_spin_triples == sum_capped(s0.total_t_spin_triples, g.t_spins_triples as int)
    &&& s1.total_t_spins == sum_capped(s0.total_t_spins, g.t_spins_singles + g.t_spins_doubles + g.t_spins_triples)
    &&& s1.total_all_clears == sum_capped(s0.total_all_clears, g.all_clears as int)
    &&& s1.total_playtime_seconds == sum_capped(s0.total_playtime_seconds, g.duration_seconds as int)
    &&& s1.highest_score == max_u32(s0.highest_score, g.score)
    &&& s1.highest_level == max_u32(s0.highest_level, g.level_reached)
    &&& s1.longest_combo == max_u32(s0.longest_combo, g.max_combo)
    &&& s0.game_history@.len() < HISTORY_LIMIT ==> s1.game_history@ == s0.game_history@.push(g)
    &&& s0.game_history@.len() >= HISTORY_LIMIT ==> s1.game_history@ == s0.game_history@.push(g).drop_first()
}

/// Statistics with no game in them.
pub open spec fn no_games(s: PlayerStats) -> bool {
    &&& s.total_games == 0
    &&& s.total_score == 0
    &&& s.total_lines == 0
    &&& s.total_pieces == 0
    &&& s.total_singles == 0
    &&& s.total_doubles == 0
    &&& s.total_triples == 0
    &&& s.total_quadruples == 0
    &&& s.total_back_to_backs == 0
    &&& s.total_t_spins == 0
    &&& s.total_t_spin_singles == 0
    &&& s.total_t_spin_doubles == 0
    &&& s.total_t_spin_triples == 0
    &&& s.total_all_clears == 0
    &&& s.highest_score == 0
    &&& s.highest_level == 0
    &&& s.longest_combo == 0
    &&& s.total_playtime_seconds == 0
    &&& s.game_history@.len() == 0
}

/// A player's totals over all finished games, bests, and the most recent games.
pub struct PlayerStats {
    pub total_games: u32,
    pub total_score: u64,
    pub total_lines: u64,
    pub total_pieces: u64,
    pub total_singles: u64,
    pub total_doubles: u64,
    pub total_triples: u64,
    pub total_quadruples: u64,
    pub total_back_to_backs: u64,
    pub total_t_spins: u64,
    pub total_t_spin_singles: u64,
    pub total_t_spin_doubles: u64,
    pub total_t_spin_triples: u64,
    pub total_all_clears: u64,
    pub highest_score: u32,
    pub highest_level: u32,
    pub longest_combo: u32,
    pub total_playtime_seconds: u64,
    pub game_history: Vec<GameStats>,
}

fn add_capped(a: u64, b: u64) -> (r: u64)
    ensures
        r == sum_capped(a, b as int),
{
    a.saturating_add(b)
}

impl PlayerStats {
    pub fn new() -> (r: Self)
        ensures
            no_games(r),
    {
        Self {
            total_games: 0,
            total_score: 0,
            total_lines: 0,
            total_pieces: 0,
            total_singles: 0,
            total_doubles: 0,
            total_triples: 0,
            total_quadruples: 0,
            total_back_to_backs: 0,
            total_t_spins: 0,
            total_t_spin_singles: 0,
            total_t_spin_doubles: 0,
            total_t_spin_triples: 0,
            total_all_clears: 0,
            highest_score: 0,
            highest_level: 0,
            longest_combo: 0,
            total_playtime_seconds: 0,
            game_history: Vec::new(),
        }
    }

    /// Folds a finished game into the totals (each held at its type's maximum), the bests
    /// and the history, which keeps the last `HISTORY_LIMIT` games.
    pub fn add_game(&mut self, game_stats: GameStats)
        ensures
            game_added(*old(self), *final(self), game_stats),
    {
        self.total_games = self.total_games.saturating_add(1);
        self.total_score = add_capped(self.total_score, game_stats.score as u64);
        self.total_lines = add_capped(self.total_lines, game_stats.lines_cleared as u64);
        self.total_pieces = add_capped(self.total_pieces, game_stats.pieces_placed as u64);
        self.total_singles = add_capped(self.total_singles, game_stats.singles as u64);
        self.total_doubles = add_capped(self.total_doubles, game_stats.doubles as u64);
        self.total_triples = add_capped(self.total_triples, game_stats.triples as u64);
        self.total_quadruples = add_capped(self.total_quadruples, game_stats.quadruples as u64);
        self.total_back_to_backs = add_capped(self.total_back_to_backs, game_stats.back_to_backs as u64);
        self.total_t_spin_singles = add_capped(self.total_t_spin_singles, game_stats.t_spins_singles as u64);
        self.total_t_spin_doubles = add_capped(self.total_t_spin_doubles, game_stats.t_spins_doubles as u64);
        self.total_t_spin_triples = add_capped(self.total_t_spin_triples, game_stats.t_spins_triples as u64);
        let spins: u64 = game_stats.t_spins_singles as u64 + game_stats.t_spins_doubles as u64
            + game_stats.t_spins_triples as u64;
        self.total_t_spins = add_capped(self.total_t_spins, spins);
        self.total_all_clears = add_capped(self.total_all_clears, game_stats.all_clears as u64);
        self.total_playtime_seconds = add_capped(self.total_playtime_seconds, game_stats.duration_seconds);
        if game_stats.score > self.highest_score {
            self.highest_score = game_stats.score;
        }
        if game_stats.level_reached > self.highest_level {
            self.highest_level = game_stats.level_reached;
        }
        if game_stats.max_combo > self.longest_combo {
            self.longest_combo = game_stats.max_combo;
        }
        self.game_history.push(game_stats);
        if self.game_history.len() > HISTORY_LIMIT {
            self.game_history.remove(0);
            assert(self.game_history@ =~= old(self).game_history@.push(game_stats).drop_first());
        }
    }

    /// The last `count` games of the history (all of it when it is shorter), oldest first.
    pub fn get_recent_games(&self, count: usize) -> (r: &[GameStats])
        ensures
            r@ == self.game_history@.subrange(
                if count >= self.game_history@.len() {
                    0
                } else {
                    self.game_history@.len() - count
                },
                self.game_history@.len() as int,
            ),
    {
        let start = self.game_history.len().saturating_sub(count);
        let (_older, recent) = self.game_history.as_slice().split_at(start);
        recent
    }
}

/// A player: the database id once stored, the name and the statistics.
pub struct Player {
    pub id: Option<i64>,
    pub name: String,
    pub stats: PlayerStats,
}

impl Player {
    pub fn new(name: String) -> (r: Self)
        ensures
            r.id is None,
            r.name == name,
            no_games(r.stats),
    {
        Self { id: None, name, stats: PlayerStats::new() }
    }

    /// Records a finished game in the player's statistics.
    pub fn finish_game(&mut self, game_stats: GameStats)
        ensures
            final(self).id == old(self).id,
            final(self).name == old(self).name,
            game_added(old(self).stats, final(self).stats, game_stats),
    {
        self.stats.add_game(game_stats);
    }
}

} // verus!
