//! The session: score, level, the counters and the flags of one game.

use vstd::prelude::*;

verus! {

/// The highest level.
pub const MAX_LEVEL: u32 = 20;

/// The number of rows to clear at level 1 to reach level 2; at level `n` it
/// takes `n` times as many.
pub const LINES_PER_LEVEL: u32 = 10;

/// Where a session stands.
#[derive(Clone, Copy, Debug, PartialEq, Eq, Structural)]
pub enum Phase {
    /// The next piece is awaited.
    Spawning,
    /// A piece is falling.
    Playing,
    /// The game is paused.
    Paused,
    /// The game is lost.
    GameOver,
}

/// The state of one game besides the grid.
#[derive(Clone, Copy, Debug, PartialEq, Eq, Structural)]
pub struct Session {
    /// The score.
    pub score: u64,
    /// The level, from 1 to `MAX_LEVEL`.
    pub level: u32,
    /// The rows cleared towards the next level.
    pub lines_cleared: u32,
    /// The steps of the hard drop in progress, the one that ends it included.
    pub drop_rows: u32,
    /// Whether the next piece is awaited.
    pub awaiting_spawn: bool,
    /// Whether the game runs: it is neither paused nor lost.
    pub active: bool,
    /// Whether a hard drop is in progress.
    pub forced_fall: bool,
    /// Whether the game is lost.
    pub game_over: bool,
}

/// The factor by which the fall interval of level 1 is multiplied at a level:
/// `base_permille` thousandths, raised to the power `exponent`.
#[derive(Clone, Copy, Debug, PartialEq, Eq, Structural)]
pub struct FallSpeed {
    pub base_permille: u32,
    pub exponent: u32,
}

/// The fall speed at level `level`: 0.8 less 0.007 for each level above the
/// first, raised to the number of levels above the first.
pub open spec fn fall_speed_at(level: int) -> FallSpeed {
    FallSpeed { base_permille: (800 - 7 * (level - 1)) as u32, exponent: (level - 1) as u32 }
}

impl FallSpeed {
    /// The fall speed at level `level`; `None` for a level that there is not.
    pub fn at_level(level: u32) -> (r: Option<FallSpeed>)
        ensures
            1 <= level <= MAX_LEVEL ==> r == Some(fall_speed_at(level as int)),
            !(1 <= level <= MAX_LEVEL) ==> r is None,
    {
        if 1 <= level && level <= MAX_LEVEL {
            Some(FallSpeed { base_permille: 800 - 7 * (level - 1), exponent: level - 1 })
        } else {
            None
        }
    }
}

/// `n`, or the largest score where `n` is larger still.
pub open spec fn capped(n: int) -> u64 {
    if n > u64::MAX {
        u64::MAX
    } else {
        n as u64
    }
}

/// The points for `n` rows cleared in one cascade at level `level`.
pub open spec fn row_points(n: int, level: int) -> int {
    if n <= 0 {
        0
    } else if n == 1 {
        100 * level
    } else if n == 2 {
        300 * level
    } else if n == 3 {
        500 * level
    } else if n == 4 {
        800 * level
    } else {
        300 * n * level
    }
}

/// The level after `level`: one more, up to the highest.
pub open spec fn next_level(level: int) -> int {
    if level + 1 < MAX_LEVEL {
        level + 1
    } else {
        MAX_LEVEL as int
    }
}

impl Session {
    /// What holds of every session: the level is in range, the rows counted
    /// towards the next level are fewer than it takes, a lost game neither
    /// runs nor awaits a piece, and a hard drop in progress has counted a step.
    pub open spec fn wf(self) -> bool {
        &&& 1 <= self.level <= MAX_LEVEL
        &&& self.lines_cleared < self.level * LINES_PER_LEVEL
        &&& self.game_over ==> !self.active && !self.awaiting_spawn
        &&& self.forced_fall ==> self.drop_rows >= 1
    }

    /// The session at the start of a game: no score, level 1, running, and
    /// awaiting its first piece.
    pub open spec fn fresh() -> Session {
        Session {
            score: 0,
            level: 1,
            lines_cleared: 0,
            drop_rows: 0,
            awaiting_spawn: true,
            active: true,
            forced_fall: false,
            game_over: false,
        }
    }

    /// Where the session stands.
    pub open spec fn phase(self) -> Phase {
        if self.game_over {
            Phase::GameOver
        } else if !self.active {
            Phase::Paused
        } else if self.awaiting_spawn {
            Phase::Spawning
        } else {
            Phase::Playing
        }
    }

    /// Whether `n` rows cleared at once complete the level.
    pub open spec fn completes_level(self, n: int) -> bool {
        n > 0 && self.lines_cleared + n >= self.level * LINES_PER_LEVEL
    }

    /// The session after `n` rows were cleared in one cascade. The score grows
    /// by the points for them. Where the rows counted reach ten times the
    /// level, the level goes up by one, unless it is the highest, and the
    /// count starts again at zero: what went beyond the mark is dropped.
    pub open spec fn after_rows(self, n: int) -> Session {
        if n <= 0 {
            self
        } else if self.completes_level(n) {
            Session {
                score: capped(self.score + row_points(n, self.level as int)),
                level: next_level(self.level as int) as u32,
                lines_cleared: 0,
                ..self
            }
        } else {
            Session {
                score: capped(self.score + row_points(n, self.level as int)),
                lines_cleared: (self.lines_cleared + n) as u32,
                ..self
            }
        }
    }

    /// The session at the start of a game.
    pub fn new() -> (s: Session)
        ensures
            s == Session::fresh(),
            s.wf(),
    {
        Session {
            score: 0,
            level: 1,
            lines_cleared: 0,
            drop_rows: 0,
            awaiting_spawn: true,
            active: true,
            forced_fall: false,
            game_over: false,
        }
    }

    /// Whether the session is well formed.
    pub fn is_valid(&self) -> (ok: bool)
        ensures
            ok == self.wf(),
    {
        1 <= self.level && self.level <= MAX_LEVEL && self.lines_cleared < self.level
            * LINES_PER_LEVEL && (!self.game_over || (!self.active && !self.awaiting_spawn)) && (
        !self.forced_fall || self.drop_rows >= 1)
    }

    /// Where the session stands.
    pub fn current_phase(&self) -> (p: Phase)
        ensures
            p == self.phase(),
    {
        if self.game_over {
            Phase::GameOver
        } else if !self.active {
            Phase::Paused
        } else if self.awaiting_spawn {
            Phase::Spawning
        } else {
            Phase::Playing
        }
    }

    /// Adds `delta` to the score, which stops at the largest number it can
    /// hold.
    pub fn add_score(&mut self, delta: u64)
        ensures
            *final(self) == (Session { score: capped(old(self).score + delta), ..*old(self) }),
    {
        self.score = self.score.saturating_add(delta);
    }

    /// Counts `n` rows cleared in one cascade: adds the points for them, and
    /// raises the level where they complete it. Returns whether they did.
    pub fn score_rows(&mut self, n: u32) -> (completed: bool)
        requires
            old(self).wf(),
        ensures
            final(self).wf(),
            *final(self) == old(self).after_rows(n as int),
            completed == old(self).completes_level(n as int),
    {
        if n == 0 {
            return false;
        }
        let level: u64 = self.level as u64;
        let rows: u64 = n as u64;
        let points: u64 = if n == 1 {
            100 * level
        } else if n == 2 {
            300 * level
        } else if n == 3 {
            500 * level
        } else if n == 4 {
            800 * level
        } else {
            assert(300 * rows * level <= 300 * 0xffff_ffff * 20) by (nonlinear_arith)
                requires
                    rows <= 0xffff_ffff,
                    level <= 20,
            ;
            300 * rows * level
        };
        self.score = self.score.saturating_add(points);
        let counted: u64 = self.lines_cleared as u64 + rows;
        if counted >= level * (LINES_PER_LEVEL as u64) {
            if self.level + 1 < MAX_LEVEL {
                self.level = self.level + 1;
            } else {
                self.level = MAX_LEVEL;
            }
            self.lines_cleared = 0;
            true
        } else {
            self.lines_cleared = counted as u32;
            false
        }
    }
}

} // verus!
