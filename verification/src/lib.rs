//! Core engine of a nixie-tube clock: a monotonic cycle counter extended
//! from a wrapping hardware tick register, a button debounce / long-press
//! detector, the shift-register bit encoding for the tubes, an
//! anti-cathode-poisoning sweep generator, and the state machine that gates
//! time adjustment behind a triple-long-press gesture.
//!
//! Hardware transport (SPI, GPIO, the RTC chip, delays) is left to the
//! surrounding program; this crate computes what is to be sent and decides
//! state transitions from plain input values.

use vstd::prelude::*;

pub mod anti_poison;
pub mod button;
pub mod cycle_counter;
pub mod helpers;
pub mod nixies;
pub mod time_adjust;

pub use helpers::{add_with_rollover, ms_to_cycles};

verus! {

/// Core clock frequency in MHz; all cycle windows are derived from it.
pub const CLOCK_MHZ: u64 = 72;

} // verus!
