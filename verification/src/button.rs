//! Per-button debounce, long-press and consecutive-press detection, driven
//! by the extended cycle count.
//!
//! The pin itself is read by the surrounding program; each loop tick hands
//! the raw pin level and the current cycle count to [`Button::pressed`].

use crate::helpers::ms_to_cycles;
use crate::CLOCK_MHZ;
use vstd::prelude::*;

verus! {

pub struct Button {
    /// True if the pin was high at the last evaluation.
    pub press_raw: bool,
    /// Cycle count at which the current uninterrupted high interval began.
    pub press_start_cycle: Option<u64>,
    /// Cycles the pin must stay high for a press to count as a long press.
    pub long_press_cycles: u64,
    /// True if the current high interval has lasted `long_press_cycles`.
    pub long_press: bool,
    /// Cycle count of the last evaluation that saw the pin high.
    pub last_press_cycle: u64,
    /// Minimum number of cycles between reported press events.
    pub debounce_cycles: u64,
    /// Presses spaced closer than this many cycles count as consecutive.
    pub consecutive_cycles: u64,
    /// Number of press events made in quick succession.
    pub consecutive_presses: u32,
}

impl Button {
    /// The button's bookkeeping never runs ahead of the clock it is driven
    /// by: both recorded cycle values are at most `clock`.
    pub open spec fn wf_at(self, clock: u64) -> bool {
        &&& self.last_press_cycle <= clock
        &&& match self.press_start_cycle {
            Some(s) => s <= clock,
            None => true,
        }
    }

    /// True when an evaluation at `clock` with pin level `pin_high` reports
    /// a press event: the pin is high and the last high evaluation is more
    /// than a debounce window in the past.
    pub open spec fn press_event(self, pin_high: bool, clock: u64) -> bool {
        pin_high && clock > self.last_press_cycle + self.debounce_cycles
    }

    /// True when an evaluation at `clock` with pin level `pin_high` finds a
    /// long press: the pin is high and has been so, uninterrupted, for at
    /// least `long_press_cycles`.
    pub open spec fn long_press_now(self, pin_high: bool, clock: u64) -> bool {
        pin_high && match self.press_start_cycle {
            Some(s) => clock - s >= self.long_press_cycles,
            None => false,
        }
    }

    /// The button state after one evaluation.
    pub open spec fn step(self, pin_high: bool, clock: u64) -> Button {
        let start = if pin_high {
            if self.press_start_cycle is Some {
                self.press_start_cycle
            } else {
                Some(clock)
            }
        } else {
            None
        };
        let last = if pin_high {
            clock
        } else {
            self.last_press_cycle
        };
        let event = self.press_event(pin_high, clock);
        let consecutive = if clock - last < self.consecutive_cycles {
            if event {
                (self.consecutive_presses + 1) as u32
            } else {
                self.consecutive_presses
            }
        } else {
            0
        };
        Button {
            press_raw: pin_high,
            press_start_cycle: start,
            long_press: self.long_press_now(pin_high, clock),
            last_press_cycle: last,
            consecutive_presses: consecutive,
            ..self
        }
    }

    /// A fresh button with the fixed cycle windows: 650 ms hold for a long
    /// press, 50 ms debounce, 150 ms between consecutive presses.
    pub fn new() -> (r: Button)
        ensures
            r.press_raw == false,
            r.press_start_cycle is None,
            r.long_press == false,
            r.last_press_cycle == 0,
            r.consecutive_presses == 0,
            r.long_press_cycles == 650 * CLOCK_MHZ * 1000,
            r.debounce_cycles == 50 * CLOCK_MHZ * 1000,
            r.consecutive_cycles == 150 * CLOCK_MHZ * 1000,
    {
        Button {
            press_raw: false,
            press_start_cycle: None,
            long_press_cycles: ms_to_cycles(650, CLOCK_MHZ),
            long_press: false,
            last_press_cycle: 0,
            debounce_cycles: ms_to_cycles(50, CLOCK_MHZ),
            consecutive_cycles: ms_to_cycles(150, CLOCK_MHZ),
            consecutive_presses: 0,
        }
    }

    /// One evaluation of the button at cycle count `clock` with the raw pin
    /// level `pin_high`. Returns true only for a debounced press event:
    /// neither a held-down nor a bouncing pin is reported again within the
    /// debounce window.
    pub fn pressed(&mut self, pin_high: bool, clock: u64) -> (r: bool)
        requires
            old(self).wf_at(clock),
            old(self).debounce_cycles + clock <= u64::MAX,
            old(self).consecutive_presses < u32::MAX,
        ensures
            r == old(self).press_event(pin_high, clock),
            *final(self) == old(self).step(pin_high, clock),
            final(self).wf_at(clock),
    {
        self.long_press = false;

        let mut pressed = false;
        self.press_raw = pin_high;

        if pin_high {
            match self.press_start_cycle {
                Some(start_cycle) => {
                    self.long_press = clock - start_cycle >= self.long_press_cycles;
                },
                None => {
                    self.press_start_cycle = Some(clock);
                },
            }

            if clock > self.last_press_cycle + self.debounce_cycles {
                pressed = true;
            }
            self.last_press_cycle = clock;
        } else {
            self.press_start_cycle = None;
        }

        if clock - self.last_press_cycle < self.consecutive_cycles {
            if pressed {
                self.consecutive_presses = self.consecutive_presses + 1;
            }
        } else {
            self.consecutive_presses = 0;
        }

        pressed
    }
}

/// The button state after a whole run of evaluations, each a pin level and
/// the cycle count it was sampled at.
pub open spec fn button_run(b0: Button, evals: Seq<(bool, u64)>) -> Button
    decreases evals.len(),
{
    if evals.len() == 0 {
        b0
    } else {
        button_run(b0, evals.drop_last()).step(evals.last().0, evals.last().1)
    }
}

/// True when every evaluation of the run saw the pin high.
pub open spec fn all_high(evals: Seq<(bool, u64)>) -> bool {
    forall|j: int| 0 <= j < evals.len() ==> (#[trigger] evals[j]).0
}

proof fn lemma_run_start(b: Button, evals: Seq<(bool, u64)>)
    requires
        all_high(evals),
        evals.len() > 0,
        b.press_start_cycle is None,
    ensures
        button_run(b, evals).press_start_cycle == Some(evals[0].1),
        button_run(b, evals).long_press_cycles == b.long_press_cycles,
    decreases evals.len(),
{
    if evals.len() == 1 {
        assert(button_run(b, evals.drop_last()) == b);
        assert(evals.last() == evals[0]);
        assert(evals[0].0);
    } else {
        assert(all_high(evals.drop_last())) by {
            assert(forall|j: int|
                0 <= j < evals.len() - 1 ==> evals.drop_last()[j] == #[trigger] evals[j]);
        }
        lemma_run_start(b, evals.drop_last());
        assert(evals.drop_last()[0] == evals[0]);
        assert((evals[evals.len() - 1]).0);
    }
}

/// A button held continuously high sets `long_press` at the evaluation
/// whose cycle count first lies `long_press_cycles` past the start of the
/// hold — exactly then, and never before.
pub proof fn lemma_long_press_threshold(b: Button, evals: Seq<(bool, u64)>)
    requires
        b.press_start_cycle is None,
        all_high(evals),
        evals.len() > 0,
    ensures
        button_run(b, evals).long_press == (evals.len() > 1
            && evals.last().1 - evals[0].1 >= b.long_press_cycles),
    decreases evals.len(),
{
    if evals.len() == 1 {
        assert(button_run(b, evals.drop_last()) == b);
        assert(evals[0].0);
    } else {
        assert(all_high(evals.drop_last())) by {
            assert(forall|j: int|
                0 <= j < evals.len() - 1 ==> evals.drop_last()[j] == #[trigger] evals[j]);
        }
        lemma_run_start(b, evals.drop_last());
        assert(evals.drop_last()[0] == evals[0]);
        assert((evals[evals.len() - 1]).0);
    }
}

proof fn lemma_run_fields(b: Button, evals: Seq<(bool, u64)>, lb: u64)
    requires
        b.last_press_cycle >= lb,
        forall|j: int| 0 <= j < evals.len() ==> lb <= (#[trigger] evals[j]).1,
    ensures
        button_run(b, evals).last_press_cycle >= lb,
        button_run(b, evals).debounce_cycles == b.debounce_cycles,
    decreases evals.len(),
{
    if evals.len() > 0 {
        assert(forall|j: int|
            0 <= j < evals.len() - 1 ==> evals.drop_last()[j] == #[trigger] evals[j]);
        lemma_run_fields(b, evals.drop_last(), lb);
    }
}

/// After a reported press event, no evaluation whose cycle count lies
/// within the debounce window of that event reports another press event,
/// whatever the pin does in between: of two presses separated by less than
/// the debounce window, only the first is reported.
pub proof fn lemma_debounce_window(b: Button, c: u64, evals: Seq<(bool, u64)>)
    requires
        b.press_event(true, c),
        evals.len() > 0,
        forall|j: int| 0 <= j < evals.len() ==> c <= (#[trigger] evals[j]).1,
        evals.last().1 - c < b.debounce_cycles,
    ensures
        !button_run(b.step(true, c), evals.drop_last()).press_event(
            evals.last().0,
            evals.last().1,
        ),
{
    assert(forall|j: int|
        0 <= j < evals.len() - 1 ==> evals.drop_last()[j] == #[trigger] evals[j]);
    lemma_run_fields(b.step(true, c), evals.drop_last(), c);
}

} // verus!
