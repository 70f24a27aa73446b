use vstd::prelude::*;

verus! {

/// Counts the ticks of the scheduling loop over measurement periods of a
/// fixed length; the tick rate of a period is its tick count divided by its
/// duration.
pub struct TickCounter {
    ticks: u32,
    period_ns: u128,
}

impl TickCounter {
    /// Ticks counted in the current period.
    pub closed spec fn tick_count(&self) -> u32 {
        self.ticks
    }

    /// Length of a measurement period, in nanoseconds.
    pub closed spec fn period(&self) -> u128 {
        self.period_ns
    }

    pub fn new(tickrate_calculation_period_ms: u64) -> (counter: Self)
        ensures
            counter.tick_count() == 0,
            counter.period() == tickrate_calculation_period_ms * 1_000_000,
    {
        TickCounter { ticks: 0, period_ns: tickrate_calculation_period_ms as u128 * 1_000_000 }
    }

    pub fn ticks(&self) -> (ticks: u32)
        ensures
            ticks == self.tick_count(),
    {
        self.ticks
    }

    pub fn period_ns(&self) -> (period: u128)
        ensures
            period == self.period(),
    {
        self.period_ns
    }

    /// Records one tick, `elapsed_ns` nanoseconds after the current period
    /// began. Once a whole period has elapsed the period closes first: its
    /// tick count is returned and this tick is the first of the next period.
    pub fn tickrate_step(&mut self, elapsed_ns: u128) -> (closed: Option<u32>)
        requires
            elapsed_ns < old(self).period() ==> old(self).tick_count() < u32::MAX,
        ensures
            final(self).period() == old(self).period(),
            elapsed_ns >= old(self).period() ==> closed == Some(old(self).tick_count())
                && final(self).tick_count() == 1,
            elapsed_ns < old(self).period() ==> closed is None && final(self).tick_count()
                == old(self).tick_count() + 1,
    {
        let mut closed = None;
        if elapsed_ns >= self.period_ns {
            closed = Some(self.ticks);
            self.ticks = 0;
        }
        self.ticks = self.ticks + 1;
        closed
    }
}

} // verus!
