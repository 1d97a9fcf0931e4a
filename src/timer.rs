use vstd::prelude::*;

use crate::field::MICROS_PER_SECOND;

verus! {

/// A countdown that runs once: finished once `duration` microseconds have
/// elapsed, after which it stays finished.
#[derive(Clone, Copy, Debug, PartialEq, Eq, Structural)]
pub struct OnceTimer {
    pub elapsed: u64,
    pub duration: u64,
}

/// A timer that fires every `period` microseconds; `elapsed` is the time
/// since it last fired.
#[derive(Clone, Copy, Debug, PartialEq, Eq, Structural)]
pub struct RepeatingTimer {
    pub elapsed: u64,
    pub period: u64,
}

impl OnceTimer {
    pub open spec fn wf(self) -> bool {
        self.elapsed <= self.duration
    }

    pub open spec fn is_finished(self) -> bool {
        self.elapsed >= self.duration
    }

    /// The timer after `dt` more microseconds: elapsed time stops at the duration.
    pub open spec fn ticked(self, dt: int) -> OnceTimer {
        OnceTimer {
            elapsed: if self.elapsed + dt >= self.duration {
                self.duration
            } else {
                (self.elapsed + dt) as u64
            },
            duration: self.duration,
        }
    }

    pub fn new(duration: u64) -> (r: OnceTimer)
        ensures
            r == (OnceTimer { elapsed: 0, duration }),
            r.wf(),
    {
        OnceTimer { elapsed: 0, duration }
    }

    pub fn tick(&mut self, dt: u64)
        requires
            old(self).wf(),
        ensures
            *final(self) == old(self).ticked(dt as int),
            final(self).wf(),
    {
        if dt >= self.duration - self.elapsed {
            self.elapsed = self.duration;
        } else {
            self.elapsed = self.elapsed + dt;
        }
    }

    pub fn finished(&self) -> (r: bool)
        ensures
            r == self.is_finished(),
    {
        self.elapsed >= self.duration
    }

    /// Whole seconds left, rounded up.
    pub fn seconds_left(&self) -> (r: u64)
        requires
            self.wf(),
        ensures
            r == (self.duration - self.elapsed + MICROS_PER_SECOND - 1) / MICROS_PER_SECOND as int,
    {
        let left: u64 = self.duration - self.elapsed;
        left / MICROS_PER_SECOND + if left % MICROS_PER_SECOND == 0 {
            0
        } else {
            1
        }
    }
}

impl RepeatingTimer {
    pub open spec fn wf(self) -> bool {
        self.elapsed < self.period
    }

    /// Whether `dt` more microseconds make the timer fire.
    pub open spec fn fires(self, dt: int) -> bool {
        self.elapsed + dt >= self.period
    }

    /// The timer after `dt` more microseconds: the time since it last fired.
    pub open spec fn ticked(self, dt: int) -> RepeatingTimer {
        RepeatingTimer { elapsed: ((self.elapsed + dt) % (self.period as int)) as u64, period: self.period }
    }

    pub fn new(period: u64) -> (r: RepeatingTimer)
        requires
            period > 0,
        ensures
            r == (RepeatingTimer { elapsed: 0, period }),
            r.wf(),
    {
        RepeatingTimer { elapsed: 0, period }
    }

    /// Advances the timer by `dt` microseconds; returns whether it fired.
    pub fn tick(&mut self, dt: u64) -> (fired: bool)
        requires
            old(self).wf(),
        ensures
            fired == old(self).fires(dt as int),
            *final(self) == old(self).ticked(dt as int),
            final(self).wf(),
    {
        let total: u128 = self.elapsed as u128 + dt as u128;
        let period: u128 = self.period as u128;
        let rest: u128 = total % period;
        assert(rest < period);
        self.elapsed = rest as u64;
        total >= period
    }
}

} // verus!
