//! State machine gating time adjustment behind a triple-long-press
//! gesture.
//!
//! Adjust mode is entered only on a clean rising edge of "all three
//! buttons long-pressed at once", gated by the `can_exit` latch: the latch
//! must first have been cleared by releasing at least one button, so one
//! continuous hold can never toggle the mode twice. While adjusting, the
//! candidate hour, minute and second are incremented by single-button
//! presses, each guarded against cross-talk from the other two buttons.

use crate::button::Button;
use crate::helpers::{add_with_rollover, rollover_spec};
use vstd::prelude::*;

verus! {

/// The three adjustment buttons' outputs for one tick: raw levels,
/// long-press flags and debounced press events.
pub struct ButtonsTick {
    pub raw0: bool,
    pub raw1: bool,
    pub raw2: bool,
    pub long0: bool,
    pub long1: bool,
    pub long2: bool,
    pub press0: bool,
    pub press1: bool,
    pub press2: bool,
}

impl ButtonsTick {
    /// All three buttons are currently held down.
    pub open spec fn all_held(self) -> bool {
        self.raw0 && self.raw1 && self.raw2
    }

    /// All three buttons register a long press at once.
    pub open spec fn all_long(self) -> bool {
        self.long0 && self.long1 && self.long2
    }
}

/// Time-adjust state: whether adjust mode is active, the release latch,
/// and the candidate time while adjusting.
pub struct TimeAdjust {
    /// True while button presses mutate the candidate time.
    pub active: bool,
    /// Hysteresis latch: set once a button has been released during
    /// adjust mode, cleared once one is released during normal mode. The
    /// triple-long-press gesture only enters adjust mode while the latch
    /// is clear, and only exits while it is set.
    pub can_exit: bool,
    pub hour: u32,
    pub minute: u32,
    pub second: u32,
}

/// The state after one normal-mode tick: releasing a button clears the
/// latch, and adjust mode activates exactly on a triple long press with
/// the latch clear.
pub open spec fn normal_step_spec(t: TimeAdjust, k: ButtonsTick) -> TimeAdjust {
    let can_exit = t.can_exit && k.all_held();
    TimeAdjust { active: k.all_long() && !can_exit, can_exit, ..t }
}

/// The state after one adjust-mode tick: releasing a button sets the
/// latch, a triple long press with the latch set deactivates adjust mode,
/// and a press on button 0, 1 or 2 increments the hour, minute or second
/// with rollover — but only while the other two buttons are not held.
pub open spec fn adjust_step_spec(t: TimeAdjust, k: ButtonsTick) -> TimeAdjust {
    let can_exit = t.can_exit || !k.all_held();
    let active = t.active && !(k.all_long() && can_exit);
    let hour = if k.press0 && !k.raw1 && !k.raw2 {
        rollover_spec(t.hour, 1, 0, 23) as u32
    } else {
        t.hour
    };
    let minute = if k.press1 && !k.raw2 && !k.raw0 {
        rollover_spec(t.minute, 1, 0, 59) as u32
    } else {
        t.minute
    };
    let second = if k.press2 && !k.raw0 && !k.raw1 {
        rollover_spec(t.second, 1, 0, 59) as u32
    } else {
        t.second
    };
    TimeAdjust { active, can_exit, hour, minute, second }
}

impl TimeAdjust {
    /// The candidate time is a valid time of day.
    pub open spec fn wf(self) -> bool {
        self.hour < 24 && self.minute < 60 && self.second < 60
    }

    /// The tick observed from the three adjustment buttons, after each
    /// reported its press event for this tick.
    pub open spec fn tick_of(
        b0: Button,
        b1: Button,
        b2: Button,
        p0: bool,
        p1: bool,
        p2: bool,
    ) -> ButtonsTick {
        ButtonsTick {
            raw0: b0.press_raw,
            raw1: b1.press_raw,
            raw2: b2.press_raw,
            long0: b0.long_press,
            long1: b1.long_press,
            long2: b2.long_press,
            press0: p0,
            press1: p1,
            press2: p2,
        }
    }

    pub fn new() -> (r: TimeAdjust)
        ensures
            r.active == false,
            r.can_exit == false,
            r.hour == 0 && r.minute == 0 && r.second == 0,
            r.wf(),
    {
        TimeAdjust { active: false, can_exit: false, hour: 0, minute: 0, second: 0 }
    }

    /// Loads the candidate time, as read from the clock chip on entering
    /// adjust mode.
    pub fn set_time(&mut self, hour: u32, minute: u32, second: u32)
        requires
            hour < 24,
            minute < 60,
            second < 60,
        ensures
            final(self).hour == hour,
            final(self).minute == minute,
            final(self).second == second,
            final(self).active == old(self).active,
            final(self).can_exit == old(self).can_exit,
            final(self).wf(),
    {
        self.hour = hour;
        self.minute = minute;
        self.second = second;
    }

    /// One normal-mode tick, driven by the three updated buttons.
    pub fn normal_step(&mut self, b0: &Button, b1: &Button, b2: &Button)
        ensures
            *final(self) == normal_step_spec(
                *old(self),
                (TimeAdjust::tick_of(*b0, *b1, *b2, false, false, false)),
            ),
            old(self).wf() ==> final(self).wf(),
    {
        if (!b0.press_raw || !b1.press_raw || !b2.press_raw) && self.can_exit {
            self.can_exit = false;
        }
        self.active = b0.long_press && b1.long_press && b2.long_press && !self.can_exit;
    }

    /// One adjust-mode tick, driven by the three updated buttons and
    /// their press events for this tick. Returns true when a press
    /// mutated the candidate time, so the caller must write the full new
    /// time out to the clock chip.
    pub fn adjust_step(&mut self, b0: &Button, b1: &Button, b2: &Button, p0: bool, p1: bool, p2: bool) -> (write_rtc: bool)
        requires
            old(self).wf(),
        ensures
            *final(self) == adjust_step_spec(
                *old(self),
                (TimeAdjust::tick_of(*b0, *b1, *b2, p0, p1, p2)),
            ),
            write_rtc == (p0 || p1 || p2),
            final(self).wf(),
    {
        if (!b0.press_raw || !b1.press_raw || !b2.press_raw) && !self.can_exit {
            self.can_exit = true;
        }

        if b0.long_press && b1.long_press && b2.long_press && self.can_exit {
            self.active = false;
        }

        if p0 && !b1.press_raw && !b2.press_raw {
            self.hour = add_with_rollover(self.hour, 1, 0, 23);
        }

        if p1 && !b2.press_raw && !b0.press_raw {
            self.minute = add_with_rollover(self.minute, 1, 0, 59);
        }

        if p2 && !b0.press_raw && !b1.press_raw {
            self.second = add_with_rollover(self.second, 1, 0, 59);
        }

        p0 || p1 || p2
    }
}

/// The state after a whole run of normal-mode ticks.
pub open spec fn normal_run(t0: TimeAdjust, ticks: Seq<ButtonsTick>) -> TimeAdjust
    decreases ticks.len(),
{
    if ticks.len() == 0 {
        t0
    } else {
        normal_step_spec(normal_run(t0, ticks.drop_last()), ticks.last())
    }
}

/// The state after a whole run of adjust-mode ticks.
pub open spec fn adjust_run(t0: TimeAdjust, ticks: Seq<ButtonsTick>) -> TimeAdjust
    decreases ticks.len(),
{
    if ticks.len() == 0 {
        t0
    } else {
        adjust_step_spec(adjust_run(t0, ticks.drop_last()), ticks.last())
    }
}

/// True when every tick of the run has all three buttons held down.
pub open spec fn held_throughout(ticks: Seq<ButtonsTick>) -> bool {
    forall|j: int| 0 <= j < ticks.len() ==> (#[trigger] ticks[j]).all_held()
}

/// Once the exit latch is set — as it is right after leaving adjust mode —
/// a hold maintained without any release never re-enters adjust mode,
/// however long it lasts and whatever the long-press flags do.
pub proof fn lemma_hold_never_reenters(t0: TimeAdjust, ticks: Seq<ButtonsTick>)
    requires
        t0.can_exit,
        held_throughout(ticks),
    ensures
        normal_run(t0, ticks).can_exit,
        ticks.len() > 0 ==> !normal_run(t0, ticks).active,
    decreases ticks.len(),
{
    if ticks.len() > 0 {
        assert(held_throughout(ticks.drop_last())) by {
            assert(forall|j: int|
                0 <= j < ticks.len() - 1 ==> ticks.drop_last()[j] == #[trigger] ticks[j]);
        }
        lemma_hold_never_reenters(t0, ticks.drop_last());
        assert(ticks[ticks.len() - 1].all_held());
    }
}

/// In adjust mode entered on a clean rising edge — the latch clear — the
/// same continuous hold never toggles the mode back off: adjust mode
/// stays active until some button is released first.
pub proof fn lemma_hold_stays_adjusting(t0: TimeAdjust, ticks: Seq<ButtonsTick>)
    requires
        t0.active,
        !t0.can_exit,
        held_throughout(ticks),
    ensures
        adjust_run(t0, ticks).active,
        !adjust_run(t0, ticks).can_exit,
    decreases ticks.len(),
{
    if ticks.len() > 0 {
        assert(held_throughout(ticks.drop_last())) by {
            assert(forall|j: int|
                0 <= j < ticks.len() - 1 ==> ticks.drop_last()[j] == #[trigger] ticks[j]);
        }
        lemma_hold_stays_adjusting(t0, ticks.drop_last());
        assert(ticks[ticks.len() - 1].all_held());
    }
}

} // verus!
