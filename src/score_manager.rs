use vstd::prelude::*;

verus! {

/// How a clear was set up with the T piece.
#[derive(Clone, Copy, Debug, PartialEq, Eq, Structural)]
pub enum TSpinType {
    NoSpin,
    Mini,
    Full,
}

/// Points per level for a clear of `lines` rows of the given kind.
pub open spec fn base_score(t_spin: TSpinType, lines: u32) -> int {
    match (t_spin, lines) {
        (TSpinType::Full, 0) => 400,
        (TSpinType::Full, 1) => 800,
        (TSpinType::Full, 2) => 1200,
        (TSpinType::Full, 3) => 1600,
        (TSpinType::Mini, 1) => 200,
        (TSpinType::Mini, 2) => 400,
        (TSpinType::NoSpin, 1) => 100,
        (TSpinType::NoSpin, 2) => 300,
        (TSpinType::NoSpin, 3) => 500,
        (TSpinType::NoSpin, 4) => 800,
        _ => 0,
    }
}

/// Points per level added when the clear empties the whole playfield.
pub open spec fn all_clear_bonus(t_spin: TSpinType, lines: u32) -> int {
    match (t_spin, lines) {
        (TSpinType::Full, _) => 2000,
        (_, 1) => 800,
        (_, 2) => 1200,
        (_, 3) => 1800,
        (_, 4) => 2000,
        _ => 0,
    }
}

/// A four-row clear or any T-spin clear.
pub open spec fn is_difficult(lines: u32, t_spin: TSpinType) -> bool {
    lines == 4 || t_spin != TSpinType::NoSpin
}

/// The points a clear earns, given the back-to-back streak before it.
pub open spec fn clear_award(
    lines: u32,
    level: u32,
    combo: u32,
    t_spin: TSpinType,
    is_all_clear: bool,
    streak: u32,
) -> int {
    let base = base_score(t_spin, lines) * level;
    let chained = if streak > 0 && is_difficult(lines, t_spin) {
        base + base / 2
    } else {
        base
    };
    let with_combo = if combo > 1 {
        chained + (combo - 1) * 50 * level
    } else {
        chained
    };
    if is_all_clear {
        with_combo + all_clear_bonus(t_spin, lines) * level
    } else {
        with_combo
    }
}

/// `score + gain`, held at `u32::MAX`.
pub open spec fn add_capped(score: u32, gain: int) -> u32 {
    if score + gain > u32::MAX {
        u32::MAX
    } else {
        (score + gain) as u32
    }
}

/// The streak after a clear: one longer after a difficult clear (held at `u32::MAX`), else 0.
pub open spec fn streak_after(lines: u32, t_spin: TSpinType, streak: u32) -> u32 {
    if is_difficult(lines, t_spin) {
        if streak == u32::MAX {
            u32::MAX
        } else {
            (streak + 1) as u32
        }
    } else {
        0
    }
}

/// The score keeper after `lines_cleared`.
pub open spec fn after_clear(
    sm: ScoreManager,
    lines: u32,
    level: u32,
    combo: u32,
    t_spin: TSpinType,
    is_all_clear: bool,
) -> ScoreManager {
    ScoreManager {
        score: add_capped(sm.score, clear_award(lines, level, combo, t_spin, is_all_clear, sm.back_to_back)),
        back_to_back: streak_after(lines, t_spin, sm.back_to_back),
    }
}

/// The score keeper after `drop`.
pub open spec fn after_drop(sm: ScoreManager, drop_type: u32, cells_dropped: u32) -> ScoreManager {
    ScoreManager { score: add_capped(sm.score, drop_type * cells_dropped), ..sm }
}

/// The running score and the back-to-back streak (consecutive difficult clears).
#[derive(Clone, Copy, Debug)]
pub struct ScoreManager {
    pub score: u32,
    pub back_to_back: u32,
}

impl ScoreManager {
    pub fn new() -> (r: Self)
        ensures
            r.score == 0,
            r.back_to_back == 0,
    {
        Self { score: 0, back_to_back: 0 }
    }

    /// Scores a clearing lock: a table lookup scaled by `level`, half as much again when it
    /// continues a back-to-back streak, a combo bonus and an all-clear bonus.
    pub fn lines_cleared(
        &mut self,
        lines_cleared: u32,
        level: u32,
        combo: u32,
        t_spin: TSpinType,
        is_all_clear: bool,
    )
        ensures
            *final(self) == after_clear(*old(self), lines_cleared, level, combo, t_spin, is_all_clear),
    {
        let base_score: u128 = match (t_spin, lines_cleared) {
            (TSpinType::Full, 0) => 400,
            (TSpinType::Full, 1) => 800,
            (TSpinType::Full, 2) => 1200,
            (TSpinType::Full, 3) => 1600,
            (TSpinType::Mini, 1) => 200,
            (TSpinType::Mini, 2) => 400,
            (TSpinType::NoSpin, 1) => 100,
            (TSpinType::NoSpin, 2) => 300,
            (TSpinType::NoSpin, 3) => 500,
            (TSpinType::NoSpin, 4) => 800,
            _ => 0,
        };
        let lv = level as u128;
        assert(base_score * lv <= 1600 * 0x1_0000_0000) by (nonlinear_arith)
            requires
                base_score <= 1600,
                lv < 0x1_0000_0000,
        ;
        let mut total_score: u128 = base_score * lv;
        let is_difficult = lines_cleared == 4 || !matches!(t_spin, TSpinType::NoSpin);
        if self.back_to_back > 0 && is_difficult {
            total_score = total_score + total_score / 2;
        }
        if is_difficult {
            self.back_to_back = self.back_to_back.saturating_add(1);
        } else {
            self.back_to_back = 0;
        }
        if combo > 1 {
            let c = (combo - 1) as u128;
            assert(c * 50 * lv <= 0x1_0000_0000 * 50 * 0x1_0000_0000) by (nonlinear_arith)
                requires
                    c < 0x1_0000_0000,
                    lv < 0x1_0000_0000,
            ;
            total_score = total_score + c * 50 * lv;
        }
        if is_all_clear {
            let bonus: u128 = match (t_spin, lines_cleared) {
                (TSpinType::Full, _) => 2000,
                (_, 1) => 800,
                (_, 2) => 1200,
                (_, 3) => 1800,
                (_, 4) => 2000,
                _ => 0,
            };
            assert(bonus * lv <= 2000 * 0x1_0000_0000) by (nonlinear_arith)
                requires
                    bonus <= 2000,
                    lv < 0x1_0000_0000,
            ;
            total_score = total_score + bonus * lv;
        }
        assert(total_score == clear_award(lines_cleared, level, combo, t_spin, is_all_clear, old(self).back_to_back));
        let sum: u128 = self.score as u128 + total_score;
        self.score = if sum > u32::MAX as u128 {
            u32::MAX
        } else {
            sum as u32
        };
    }

    pub fn get_score(&self) -> (r: u32)
        ensures
            r == self.score,
    {
        self.score
    }

    /// Adds `drop_type * cells_dropped` points: 1 per soft-drop step, 2 per hard-dropped row.
    pub fn drop(&mut self, drop_type: u32, cells_dropped: u32)
        ensures
            *final(self) == after_drop(*old(self), drop_type, cells_dropped),
    {
        assert(drop_type as u64 * cells_dropped as u64 <= 0xFFFF_FFFF * 0xFFFF_FFFF) by (nonlinear_arith)
            requires
                drop_type <= 0xFFFF_FFFF,
                cells_dropped <= 0xFFFF_FFFF,
        ;
        let gain: u64 = drop_type as u64 * cells_dropped as u64;
        let sum: u64 = match (self.score as u64).checked_add(gain) {
            Some(v) => v,
            None => u64::MAX,
        };
        self.score = if sum > u32::MAX as u64 {
            u32::MAX
        } else {
            sum as u32
        };
    }
}

} // verus!
