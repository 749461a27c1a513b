use vstd::prelude::*;

verus! {

/// Gates animation steps to a fixed cadence measured in wall-clock milliseconds.
///
/// This is a polling scheduler: it only fires when `poll` is called.
#[derive(Clone, Copy, Debug, PartialEq, Eq)]
pub struct TickScheduler {
    pub last_tick: u64,
    pub interval: u64,
}

/// Whether a step is owed at `now`, given the time of the last step.
pub open spec fn tick_due(last_tick: u64, interval: u64, now: u64) -> bool {
    now >= last_tick && now - last_tick >= interval
}

impl TickScheduler {
    pub open spec fn is_due(self, now: u64) -> bool {
        tick_due(self.last_tick, self.interval, now)
    }

    /// A scheduler whose last step happened at `now`.
    pub fn new(interval: u64, now: u64) -> (r: TickScheduler)
        ensures
            r.interval == interval,
            r.last_tick == now,
    {
        TickScheduler { last_tick: now, interval }
    }

    /// Reports whether a step is owed at `now`; if so, the step is taken to
    /// happen now and the clock restarts from `now`.
    pub fn poll(&mut self, now: u64) -> (fired: bool)
        ensures
            fired == old(self).is_due(now),
            final(self).interval == old(self).interval,
            final(self).last_tick == (if fired { now } else { old(self).last_tick }),
        no_unwind
    {
        if now >= self.last_tick && now - self.last_tick >= self.interval {
            self.last_tick = now;
            true
        } else {
            false
        }
    }
}

} // verus!
