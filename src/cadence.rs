//! Repeating timers: grass sprouts and the population is counted at a fixed
//! period. Time is counted in nanoseconds.

use vstd::prelude::*;

verus! {

/// Period at which a blade of grass sprouts, in nanoseconds.
pub const SPROUT_PERIOD: u64 = 50_000_000;

/// Period at which the hoppers are counted, in nanoseconds.
pub const CENSUS_PERIOD: u64 = 1_000_000_000;

/// A timer that fires each time a whole period has gone by, and then starts
/// over with what was left beyond the period.
pub struct Cadence {
    period: u64,
    elapsed: u64,
}

impl Cadence {
    /// The length of a period.
    pub closed spec fn period_spec(&self) -> nat {
        self.period as nat
    }

    /// Time gone by since the timer last fired.
    pub closed spec fn elapsed_spec(&self) -> nat {
        self.elapsed as nat
    }

    /// The period is not empty and has not gone by yet.
    pub open spec fn wf(&self) -> bool {
        self.elapsed_spec() < self.period_spec()
    }

    /// A timer with the given period that has just started.
    pub fn new(period: u64) -> (r: Cadence)
        requires
            period > 0,
        ensures
            r.wf(),
            r.period_spec() == period,
            r.elapsed_spec() == 0,
    {
        Cadence { period, elapsed: 0 }
    }

    pub fn period(&self) -> (r: u64)
        ensures
            r == self.period_spec(),
    {
        self.period
    }

    pub fn elapsed(&self) -> (r: u64)
        ensures
            r == self.elapsed_spec(),
    {
        self.elapsed
    }

    /// Lets `delta` nanoseconds go by. Returns whether a period was
    /// completed; what went beyond the last whole period is kept.
    pub fn tick(&mut self, delta: u64) -> (fired: bool)
        requires
            old(self).wf(),
        ensures
            final(self).wf(),
            final(self).period_spec() == old(self).period_spec(),
            fired == (old(self).elapsed_spec() + delta >= old(self).period_spec()),
            final(self).elapsed_spec() == (old(self).elapsed_spec() + delta) % (
            old(self).period_spec() as int),
    {
        let room = self.period - self.elapsed;
        if delta < room {
            self.elapsed = self.elapsed + delta;
            assert((old(self).elapsed + delta) % (self.period as int) == self.elapsed) by {
                vstd::arithmetic::div_mod::lemma_small_mod(
                    (old(self).elapsed + delta) as nat,
                    self.period as nat,
                );
            }
            false
        } else {
            let rest = (delta - room) % self.period;
            proof {
                let p = self.period as int;
                let total = old(self).elapsed + delta;
                assert(total == p + (delta - room));
                vstd::arithmetic::div_mod::lemma_mod_add_multiples_vanish((delta - room) as int, p);
            }
            self.elapsed = rest;
            true
        }
    }
}

} // verus!
