//! Extends the wrapping 32-bit hardware tick register into a monotonically
//! increasing 64-bit cycle count.
//!
//! The hardware register itself is read by the surrounding program; each
//! loop tick hands the raw value to [`Counter::update`]. As long as
//! `update` is called at least once per register period, a single rollover
//! between two calls is detected and counted; a double rollover between
//! calls is undetectable and is an accepted limitation.

use vstd::prelude::*;

verus! {

/// Number of distinct values of the 32-bit hardware tick register.
pub const RAW_PERIOD: u64 = 0x1_0000_0000;

#[derive(Debug)]
pub struct Counter {
    /// Total extended cycle count.
    pub cycles: u64,
    /// Number of times the hardware tick register has rolled over.
    pub cycle_resets: u32,
    /// Last observed hardware tick value.
    pub last_cycle_count: u32,
}

impl Counter {
    /// The extended count always equals `cycle_resets * 2^32` plus the last
    /// observed raw value.
    pub open spec fn wf(self) -> bool {
        self.cycles == self.cycle_resets * RAW_PERIOD + self.last_cycle_count
    }

    /// The state after observing the raw tick value `raw`.
    pub open spec fn step(self, raw: u32) -> Counter {
        let resets: u32 = if raw < self.last_cycle_count {
            (self.cycle_resets + 1) as u32
        } else {
            self.cycle_resets
        };
        Counter {
            cycles: (resets * RAW_PERIOD + raw) as u64,
            cycle_resets: resets,
            last_cycle_count: raw,
        }
    }

    pub fn new() -> (r: Counter)
        ensures
            r.cycles == 0,
            r.cycle_resets == 0,
            r.last_cycle_count == 0,
            r.wf(),
    {
        Counter { cycles: 0, cycle_resets: 0, last_cycle_count: 0 }
    }

    /// Observes the current raw hardware tick value. A raw value below the
    /// previously observed one means the register rolled over once; the
    /// extended count never decreases.
    pub fn update(&mut self, raw: u32)
        requires
            old(self).wf(),
            old(self).cycle_resets < u32::MAX,
        ensures
            *final(self) == old(self).step(raw),
            final(self).wf(),
            final(self).cycles >= old(self).cycles,
            final(self).last_cycle_count == raw,
    {
        if raw < self.last_cycle_count {
            self.cycle_resets = self.cycle_resets + 1;
        }
        self.last_cycle_count = raw;
        self.cycles = (self.cycle_resets as u64) * RAW_PERIOD + (raw as u64);
    }
}

/// The counter state after a whole run of raw observations.
pub open spec fn counter_run(c0: Counter, raws: Seq<u32>) -> Counter
    decreases raws.len(),
{
    if raws.len() == 0 {
        c0
    } else {
        counter_run(c0, raws.drop_last()).step(raws.last())
    }
}

/// Over any sequence of raw hardware tick observations (each with at most
/// one rollover since the one before, which is what `step` models), the
/// extended cycle count never decreases and always equals
/// `cycle_resets * 2^32 + raw`.
pub proof fn lemma_counter_monotonic(c0: Counter, raws: Seq<u32>)
    requires
        c0.wf(),
        c0.cycle_resets + raws.len() <= u32::MAX,
    ensures
        counter_run(c0, raws).wf(),
        counter_run(c0, raws).cycles >= c0.cycles,
        counter_run(c0, raws).cycle_resets <= c0.cycle_resets + raws.len(),
        raws.len() > 0 ==> counter_run(c0, raws).last_cycle_count == raws.last(),
    decreases raws.len(),
{
    if raws.len() > 0 {
        lemma_counter_monotonic(c0, raws.drop_last());
    }
}

} // verus!
