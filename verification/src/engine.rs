//! The cycle of one tick: from the intents of the player and the drop timer to
//! the next state of the game.

use vstd::prelude::*;
use crate::catalog::TetrominoType;
use crate::fault::Fault;
use crate::game::{Game, GameView};
use crate::movement::{Motion, Sideways};
use crate::random::random_shape;
use crate::rotation::Rotation;
use crate::session::Session;
use crate::spawn::Spawned;
use crate::timer::DropTimer;

verus! {

/// What the player asks for in one tick. Each intent is set once for each
/// press, not for as long as a key is held.
#[derive(Clone, Copy, Debug, PartialEq, Eq, Structural)]
pub struct Intents {
    pub move_left: bool,
    pub move_right: bool,
    pub soft_down: bool,
    pub rotate_cw: bool,
    pub rotate_ccw: bool,
    pub hard_drop: bool,
    pub toggle_pause: bool,
    pub restart: bool,
    pub quit: bool,
}

/// What one tick did.
#[derive(Clone, Copy, Debug, PartialEq, Eq, Structural)]
pub struct TickReport {
    /// Whether the drop timer completed in this tick.
    pub timer_fired: bool,
    /// Whether the player asked to quit.
    pub quit: bool,
    /// Whether the game was started anew.
    pub restarted: bool,
    /// Whether the pause was switched on or off.
    pub pause_toggled: bool,
    /// Whether the piece was rotated.
    pub rotated: bool,
    /// The fault that the tick met, if it met one.
    pub fault: Option<Fault>,
    /// What the move of the tick did.
    pub motion: Motion,
    /// What the spawn cycle of the tick did, if there was one.
    pub spawned: Option<Spawned>,
}

impl TickReport {
    /// Whether the tick may have changed the grid: it started the game anew,
    /// rotated, shifted or settled the piece, or ran a spawn cycle.
    pub open spec fn touched_grid(self) -> bool {
        self.restarted || self.rotated || self.motion.dx != 0 || self.motion.dy != 0
            || self.motion.locked || self.spawned is Some
    }

    /// Whether the tick may have changed the grid: it started the game anew,
    /// rotated, shifted or settled the piece, or ran a spawn cycle. After a
    /// tick of which this is false, what is shown of the grid needs no
    /// redrawing.
    pub fn grid_changed(&self) -> (changed: bool)
        ensures
            changed == self.touched_grid(),
    {
        self.restarted || self.rotated || self.motion.dx != 0 || self.motion.dy != 0
            || self.motion.locked || self.spawned.is_some()
    }
}

impl Intents {
    /// No intent at all.
    pub open spec fn none() -> Intents {
        Intents {
            move_left: false,
            move_right: false,
            soft_down: false,
            rotate_cw: false,
            rotate_ccw: false,
            hard_drop: false,
            toggle_pause: false,
            restart: false,
            quit: false,
        }
    }

    /// The sideways move asked for; right where both are.
    pub open spec fn side(self) -> Sideways {
        if self.move_right {
            Sideways::Right
        } else if self.move_left {
            Sideways::Left
        } else {
            Sideways::Stay
        }
    }

    /// The rotation asked for, if any; counter-clockwise where both are.
    pub open spec fn turn(self) -> Option<Rotation> {
        if self.rotate_ccw {
            Some(Rotation::CounterClockwise)
        } else if self.rotate_cw {
            Some(Rotation::Clockwise)
        } else {
            None
        }
    }

    /// No intent at all.
    pub fn idle() -> (i: Intents)
        ensures
            i == Intents::none(),
    {
        Intents {
            move_left: false,
            move_right: false,
            soft_down: false,
            rotate_cw: false,
            rotate_ccw: false,
            hard_drop: false,
            toggle_pause: false,
            restart: false,
            quit: false,
        }
    }
}

impl Session {
    /// Whether the session takes a switch of the pause: a lost game does not.
    pub open spec fn toggles(self, intents: Intents) -> bool {
        intents.toggle_pause && !self.game_over
    }

    /// The session with the pause switched where that is asked for and taken.
    pub open spec fn toggled(self, intents: Intents) -> Session {
        if self.toggles(intents) {
            Session { active: !self.active, ..self }
        } else {
            self
        }
    }

    /// The session after the hard drop had its due: it begins where it is
    /// asked for while a piece falls, and while it is in progress each tick
    /// counts one step.
    pub open spec fn driven(self, intents: Intents, falling: bool) -> Session {
        if self.forced_fall || (intents.hard_drop && falling) {
            Session {
                forced_fall: true,
                drop_rows: if self.drop_rows < u32::MAX {
                    (self.drop_rows + 1) as u32
                } else {
                    self.drop_rows
                },
                ..self
            }
        } else {
            self
        }
    }
}

impl GameView {
    /// The game after `elapsed` more time passed on the drop timer.
    pub open spec fn clocked(self, elapsed: int) -> GameView {
        GameView { timer: self.timer.ticked(elapsed), ..self }
    }

    /// The game as the moves of a tick find it: the pause switched as asked,
    /// the drop timer at the start of its interval where the pause was
    /// switched, and the hard drop given its due.
    pub open spec fn prepared(self, intents: Intents) -> GameView {
        let session = self.session.toggled(intents);
        let timer = if self.session.toggles(intents) {
            DropTimer { interval: self.timer.interval, elapsed: 0 }
        } else {
            self.timer
        };
        if session.active {
            GameView { session: session.driven(intents, self.piece is Some), timer, ..self }
        } else {
            GameView { session, timer, ..self }
        }
    }

    /// Whether the tick moves anything: the game runs after the pause was
    /// switched as asked.
    pub open spec fn plays(self, intents: Intents) -> bool {
        !intents.restart && self.session.toggled(intents).active
    }

    /// The rotation that the tick tries: none during a hard drop.
    pub open spec fn tick_turn(self, intents: Intents) -> Option<Rotation> {
        if self.prepared(intents).session.forced_fall {
            None
        } else {
            intents.turn()
        }
    }

    /// The sideways move that the tick tries: none during a hard drop.
    pub open spec fn tick_side(self, intents: Intents) -> Sideways {
        if self.prepared(intents).session.forced_fall {
            Sideways::Stay
        } else {
            intents.side()
        }
    }

    /// Whether the tick tries a move down: during a hard drop, when the
    /// player asks for one, and when the drop timer completed.
    pub open spec fn tick_down(self, intents: Intents, timer_fired: bool) -> bool {
        self.prepared(intents).session.forced_fall || intents.soft_down || timer_fired
    }

    /// The game after the rotation of the tick, if it tries one.
    pub open spec fn turned(self, intents: Intents) -> GameView {
        match self.tick_turn(intents) {
            Some(dir) => self.prepared(intents).rotated(dir),
            None => self.prepared(intents),
        }
    }

    /// The game after the intents of one tick were consumed, before the spawn
    /// cycle. A restart takes precedence, and ends the tick. A switch of the
    /// pause comes next; while the game does not run, nothing else happens.
    /// Then the rotation is resolved, and after it the move.
    pub open spec fn advanced(self, intents: Intents, timer_fired: bool) -> GameView {
        if intents.restart {
            self.restarted()
        } else if !self.plays(intents) {
            self.prepared(intents)
        } else {
            self.turned(intents).translated(
                self.tick_side(intents),
                self.tick_down(intents, timer_fired),
            )
        }
    }

    /// The game after the intents of one tick were consumed and the spawn
    /// cycle was run, the piece to spawn, where one is spawned, having shape
    /// `next`. After a restart the spawn waits for the next tick.
    pub open spec fn played(self, intents: Intents, timer_fired: bool, next: TetrominoType) -> GameView {
        if intents.restart {
            self.restarted()
        } else {
            self.advanced(intents, timer_fired).spawned(next)
        }
    }

    /// The game after one tick in which `elapsed` time passed, and in which
    /// the piece to spawn, where one is spawned, has shape `next`. First the
    /// time passes on the drop timer; where that completes it, a move down is
    /// tried as if the player had asked for one.
    pub open spec fn ticked(self, intents: Intents, elapsed: int, next: TetrominoType) -> GameView {
        self.clocked(elapsed).played(intents, self.timer.fires(elapsed), next)
    }

    /// What the tick reports.
    pub open spec fn tick_report(
        self,
        intents: Intents,
        elapsed: int,
        next: TetrominoType,
    ) -> TickReport {
        self.clocked(elapsed).play_report(intents, self.timer.fires(elapsed), next)
    }

    /// What the tick reports once the time has passed on the drop timer.
    pub open spec fn play_report(
        self,
        intents: Intents,
        timer_fired: bool,
        next: TetrominoType,
    ) -> TickReport {
        if intents.restart {
            TickReport {
                timer_fired,
                quit: intents.quit,
                restarted: true,
                pause_toggled: false,
                rotated: false,
                fault: None,
                motion: Motion { dx: 0, dy: 0, locked: false },
                spawned: None,
            }
        } else if !self.plays(intents) {
            TickReport {
                timer_fired,
                quit: intents.quit,
                restarted: false,
                pause_toggled: self.session.toggles(intents),
                rotated: false,
                fault: None,
                motion: Motion { dx: 0, dy: 0, locked: false },
                spawned: self.prepared(intents).spawn_report(next),
            }
        } else {
            TickReport {
                timer_fired,
                quit: intents.quit,
                restarted: false,
                pause_toggled: self.session.toggles(intents),
                rotated: self.tick_turn(intents) matches Some(dir) && self.prepared(
                    intents,
                ).rotation_outcome(dir) == Ok::<bool, Fault>(true),
                fault: match self.tick_turn(intents) {
                    Some(dir) => match self.prepared(intents).rotation_outcome(dir) {
                        Err(fault) => Some(fault),
                        Ok(_) => None,
                    },
                    None => None,
                },
                motion: self.turned(intents).motion(
                    self.tick_side(intents),
                    self.tick_down(intents, timer_fired),
                ),
                spawned: self.advanced(intents, timer_fired).spawn_report(next),
            }
        }
    }
}

impl Game {
    /// Consumes the intents of one tick, up to the spawn cycle.
    fn advance(&mut self, intents: &Intents, timer_fired: bool) -> (report: TickReport)
        requires
            old(self).wf(),
            !intents.restart,
        ensures
            final(self).wf(),
            final(self)@ == old(self)@.advanced(*intents, timer_fired),
            report.spawned is None,
            forall|next: TetrominoType|
                (TickReport {
                    spawned: final(self)@.spawn_report(next),
                    ..report
                }) == #[trigger] old(self)@.play_report(*intents, timer_fired, next),
    {
        let mut report = TickReport {
            timer_fired,
            quit: intents.quit,
            restarted: false,
            pause_toggled: false,
            rotated: false,
            fault: None,
            motion: Motion { dx: 0, dy: 0, locked: false },
            spawned: None,
        };
        if intents.toggle_pause && !self.session.game_over {
            self.session.active = !self.session.active;
            self.timer.reset();
            report.pause_toggled = true;
        }
        if !self.session.active {
            return report;
        }
        if self.session.forced_fall || (intents.hard_drop && self.piece.is_some()) {
            self.session.forced_fall = true;
            if self.session.drop_rows < u32::MAX {
                self.session.drop_rows = self.session.drop_rows + 1;
            }
        }
        assert(self@ == old(self)@.prepared(*intents));
        let forced = self.session.forced_fall;
        let turn: Option<Rotation> = if forced {
            None
        } else if intents.rotate_ccw {
            Some(Rotation::CounterClockwise)
        } else if intents.rotate_cw {
            Some(Rotation::Clockwise)
        } else {
            None
        };
        let side = if forced {
            Sideways::Stay
        } else if intents.move_right {
            Sideways::Right
        } else if intents.move_left {
            Sideways::Left
        } else {
            Sideways::Stay
        };
        let down = forced || intents.soft_down || timer_fired;
        match turn {
            Some(dir) => {
                match self.rotate(dir) {
                    Ok(applied) => {
                        report.rotated = applied;
                    },
                    Err(fault) => {
                        report.fault = Some(fault);
                    },
                }
            },
            None => {},
        }
        assert(self@ == old(self)@.turned(*intents));
        report.motion = self.translate(side, down);
        report
    }

    /// Runs one tick in which `elapsed` time passed, and in which the piece to
    /// spawn, where one is spawned, has shape `next`: lets the time pass on
    /// the drop timer, consumes the intents, moves and settles the piece, and
    /// runs the spawn cycle where a piece is then awaited.
    pub fn tick_with(&mut self, intents: &Intents, elapsed: u64, next: TetrominoType) -> (report:
        TickReport)
        requires
            old(self).wf(),
        ensures
            final(self).wf(),
            final(self)@ == old(self)@.ticked(*intents, elapsed as int, next),
            report == old(self)@.tick_report(*intents, elapsed as int, next),
    {
        let timer_fired = self.timer.tick(elapsed);
        if intents.restart {
            self.restart();
            return TickReport {
                timer_fired,
                quit: intents.quit,
                restarted: true,
                pause_toggled: false,
                rotated: false,
                fault: None,
                motion: Motion { dx: 0, dy: 0, locked: false },
                spawned: None,
            };
        }
        let mut report = self.advance(intents, timer_fired);
        report.spawned = self.spawn_next(next);
        report
    }

    /// Runs one tick in which `elapsed` time passed, drawing the shape of the
    /// piece to spawn where one is spawned. The game ends up as `tick_with`
    /// leaves it for a shape of the seven.
    pub fn tick(&mut self, intents: &Intents, elapsed: u64) -> (report: TickReport)
        requires
            old(self).wf(),
        ensures
            final(self).wf(),
            exists|next: TetrominoType|
                final(self)@ == #[trigger] old(self)@.ticked(*intents, elapsed as int, next)
                    && report == old(self)@.tick_report(*intents, elapsed as int, next),
    {
        if intents.restart {
            let report = self.tick_with(intents, elapsed, TetrominoType::I);
            assert(self@ == old(self)@.ticked(*intents, elapsed as int, TetrominoType::I));
            return report;
        }
        let timer_fired = self.timer.tick(elapsed);
        let mut report = self.advance(intents, timer_fired);
        let ghost mid = self@;
        if self.session.awaiting_spawn {
            let next = random_shape();
            report.spawned = self.spawn_next(next);
            assert(report.spawned == mid.spawn_report(next));
            assert(self@ == old(self)@.ticked(*intents, elapsed as int, next));
            assert(report == old(self)@.tick_report(*intents, elapsed as int, next));
        } else {
            assert(report.spawned == mid.spawn_report(TetrominoType::I));
            assert(self@ == old(self)@.ticked(*intents, elapsed as int, TetrominoType::I));
            assert(report == old(self)@.tick_report(*intents, elapsed as int, TetrominoType::I));
        }
        report
    }
}

} // verus!
