use vstd::prelude::*;

use crate::errors::InvalidConfiguration;

verus! {

/// Drives the engine at a fixed wall-clock period, independent of how often
/// the driver samples time. Elapsed milliseconds accumulate; when a period
/// has passed, one tick fires and the surplus is discarded, so a starved
/// scheduler never queues more than one pending advance and missed ticks are
/// never double-applied.
#[derive(Clone, Copy, PartialEq, Eq, Structural, Debug)]
pub struct TickScheduler {
    pub period_ms: u32,
    pub accumulated_ms: u32,
}

impl TickScheduler {
    /// The period is positive and the accumulator never reaches it.
    pub open spec fn inv(self) -> bool {
        &&& self.period_ms > 0
        &&& self.accumulated_ms < self.period_ms
    }

    /// Builds a scheduler, rejecting a zero period.
    pub fn new(period_ms: u32) -> (r: Result<TickScheduler, InvalidConfiguration>)
        ensures
            match r {
                Ok(s) => {
                    &&& s.inv()
                    &&& s.period_ms == period_ms
                    &&& s.accumulated_ms == 0
                },
                Err(_) => period_ms == 0,
            },
    {
        if period_ms == 0 {
            Err(InvalidConfiguration)
        } else {
            Ok(TickScheduler { period_ms, accumulated_ms: 0 })
        }
    }

    /// Notes that `elapsed_ms` of wall-clock time have passed and says
    /// whether one tick fires now. At most one tick fires per call, however
    /// large `elapsed_ms` is: the time beyond one period is dropped, not
    /// queued.
    pub fn advance_time(&mut self, elapsed_ms: u32) -> (fires: bool)
        requires
            old(self).inv(),
        ensures
            final(self).inv(),
            final(self).period_ms == old(self).period_ms,
            fires == (old(self).accumulated_ms + elapsed_ms >= old(self).period_ms),
            fires ==> final(self).accumulated_ms == 0,
            !fires ==> final(self).accumulated_ms == old(self).accumulated_ms + elapsed_ms,
    {
        let total: u64 = self.accumulated_ms as u64 + elapsed_ms as u64;
        if total >= self.period_ms as u64 {
            self.accumulated_ms = 0;
            true
        } else {
            self.accumulated_ms = total as u32;
            false
        }
    }
}

} // verus!
