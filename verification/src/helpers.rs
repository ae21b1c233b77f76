//! Small arithmetic helpers shared by the clock components.

use vstd::prelude::*;

verus! {

/// Converts a duration in milliseconds into a count of processor cycles,
/// for a core clock given in MHz.
pub fn ms_to_cycles(millis: u64, clock_mhz: u64) -> (r: u64)
    requires
        millis * clock_mhz * 1000 <= u64::MAX,
    ensures
        r == millis * clock_mhz * 1000,
{
    proof {
        assert(millis * clock_mhz <= millis * clock_mhz * 1000) by (nonlinear_arith)
            requires
                millis >= 0,
                clock_mhz >= 0,
        ;
    }
    millis * clock_mhz * 1000
}

/// The value of an addition in the inclusive range `min..=max`: a single
/// increment from `max` wraps to `min`, so stepping by one walks the whole
/// range, `min` included; any other sum past `max` re-enters the range at
/// `min` plus the overshoot.
pub open spec fn rollover_spec(init: u32, add: u32, min: u32, max: u32) -> int {
    if add == 1 && init == max {
        min as int
    } else if init + add > max {
        min + init + add - max
    } else {
        init + add
    }
}

/// Adds `add` to `init` inside the inclusive range `min..=max`:
/// incrementing `max` by one yields `min`; a larger sum past `max`
/// re-enters the range at `min` plus the overshoot.
pub fn add_with_rollover(init: u32, add: u32, min: u32, max: u32) -> (r: u32)
    requires
        init + add <= u32::MAX,
        min <= max,
    ensures
        r == rollover_spec(init, add, min, max),
{
    if add == 1 && init == max {
        return min;
    }
    let sum = init + add;
    if sum > max {
        return min + (sum - max);
    }
    sum
}

} // verus!
