//! The drop timer: a repeating interval that turns elapsed time into moves
//! down.

use vstd::prelude::*;
use crate::session::MAX_LEVEL;

verus! {

/// A repeating timer. Time is counted in whole units of the caller's
/// choosing, the same for the interval and for what elapses.
#[derive(Clone, Copy, Debug, PartialEq, Eq, Structural)]
pub struct DropTimer {
    pub interval: u64,
    pub elapsed: u64,
}

impl DropTimer {
    /// Whether the timer completes when `delta` more elapses.
    pub open spec fn fires(self, delta: int) -> bool {
        self.elapsed + delta >= self.interval
    }

    /// The timer after `delta` more elapsed. Where it completes, it starts
    /// again, and keeps what elapsed beyond the last full interval.
    pub open spec fn ticked(self, delta: int) -> DropTimer {
        if self.interval == 0 {
            DropTimer { interval: 0, elapsed: 0 }
        } else if self.fires(delta) {
            DropTimer {
                interval: self.interval,
                elapsed: ((self.elapsed + delta) % (self.interval as int)) as u64,
            }
        } else {
            DropTimer { interval: self.interval, elapsed: (self.elapsed + delta) as u64 }
        }
    }

    /// A timer of the given interval that has elapsed already: the next tick
    /// completes it whatever time it brings.
    pub open spec fn armed(interval: u64) -> DropTimer {
        DropTimer { interval, elapsed: interval }
    }

    /// A timer of the given interval, of which nothing has elapsed.
    pub fn new(interval: u64) -> (t: DropTimer)
        ensures
            t == (DropTimer { interval, elapsed: 0 }),
    {
        DropTimer { interval, elapsed: 0 }
    }

    /// Advances the timer by `delta`, and returns whether it completed.
    pub fn tick(&mut self, delta: u64) -> (fired: bool)
        ensures
            fired == old(self).fires(delta as int),
            *final(self) == old(self).ticked(delta as int),
    {
        if self.interval == 0 {
            self.elapsed = 0;
            return true;
        }
        let total: u128 = self.elapsed as u128 + delta as u128;
        if total >= self.interval as u128 {
            let rest: u128 = total % (self.interval as u128);
            self.elapsed = rest as u64;
            true
        } else {
            self.elapsed = total as u64;
            false
        }
    }

    /// Starts the interval again.
    pub fn reset(&mut self)
        ensures
            *final(self) == (DropTimer { interval: old(self).interval, elapsed: 0 }),
    {
        self.elapsed = 0;
    }

    /// Sets a new interval and lets it have elapsed already, so that the
    /// next tick completes the timer whatever time it brings.
    pub fn arm(&mut self, interval: u64)
        ensures
            *final(self) == DropTimer::armed(interval),
            forall|delta: int| 0 <= delta ==> #[trigger] final(self).fires(delta),
    {
        self.interval = interval;
        self.elapsed = interval;
    }
}

/// The fall interval of each level, in the units of the drop timer.
pub struct FallSchedule {
    intervals: Vec<u64>,
}

impl View for FallSchedule {
    type V = Seq<u64>;

    closed spec fn view(&self) -> Seq<u64> {
        self.intervals@
    }
}

impl FallSchedule {
    /// A schedule has one interval for each level.
    pub open spec fn wf(&self) -> bool {
        self@.len() == MAX_LEVEL
    }

    /// Whether the schedule has one interval for each level.
    pub fn is_whole(&self) -> (ok: bool)
        ensures
            ok == self.wf(),
    {
        self.intervals.len() == MAX_LEVEL as usize
    }

    /// The schedule of the given intervals, the first for level 1. `None`
    /// unless there is one interval for each level.
    pub fn new(intervals: Vec<u64>) -> (r: Option<FallSchedule>)
        ensures
            intervals@.len() == MAX_LEVEL ==> (r matches Some(schedule) && schedule.wf()
                && schedule@ == intervals@),
            intervals@.len() != MAX_LEVEL ==> r is None,
    {
        if intervals.len() == MAX_LEVEL as usize {
            Some(FallSchedule { intervals })
        } else {
            None
        }
    }

    /// The schedule with the same interval at every level.
    pub fn uniform(interval: u64) -> (schedule: FallSchedule)
        ensures
            schedule.wf(),
            schedule@ == Seq::new(MAX_LEVEL as nat, |i: int| interval),
    {
        let mut intervals: Vec<u64> = Vec::new();
        let mut level: u32 = 0;
        while level < MAX_LEVEL
            invariant
                level <= MAX_LEVEL,
                intervals@.len() == level,
                forall|i: int| 0 <= i < level ==> intervals@[i] == interval,
            decreases MAX_LEVEL - level,
        {
            intervals.push(interval);
            level += 1;
        }
        assert(intervals@ =~= Seq::new(MAX_LEVEL as nat, |i: int| interval));
        FallSchedule { intervals }
    }

    /// The fall interval of level `level`; `None` for a level that there is
    /// not.
    pub fn interval(&self, level: u32) -> (r: Option<u64>)
        requires
            self.wf(),
        ensures
            1 <= level <= MAX_LEVEL ==> r == Some(self@[level - 1]),
            !(1 <= level <= MAX_LEVEL) ==> r is None,
    {
        if 1 <= level && level <= MAX_LEVEL {
            Some(self.intervals[(level - 1) as usize])
        } else {
            None
        }
    }
}

} // verus!
