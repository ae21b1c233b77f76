use urd::add_with_rollover;
use urd::button::Button;
use urd::cycle_counter::Counter;
use urd::ms_to_cycles;

#[test]
fn ms_to_cycles_at_72_mhz() {
    assert_eq!(ms_to_cycles(650, 72), 46_800_000);
    assert_eq!(ms_to_cycles(50, 72), 3_600_000);
    assert_eq!(ms_to_cycles(150, 72), 10_800_000);
    assert_eq!(ms_to_cycles(0, 72), 0);
}

#[test]
fn rollover_inside_range() {
    assert_eq!(add_with_rollover(58, 1, 0, 59), 59);
    assert_eq!(add_with_rollover(0, 0, 0, 23), 0);
    assert_eq!(add_with_rollover(10, 13, 0, 23), 23);
}

#[test]
fn rollover_past_max() {
    // A single increment from the top of the range lands on the bottom.
    assert_eq!(add_with_rollover(23, 1, 0, 23), 0);
    assert_eq!(add_with_rollover(59, 1, 0, 59), 0);
    // Any other sum past the top re-enters at the bottom plus the
    // overshoot.
    assert_eq!(add_with_rollover(5, 7, 0, 10), 2);
    assert_eq!(add_with_rollover(59, 2, 0, 59), 2);
    assert_eq!(add_with_rollover(22, 5, 3, 23), 7);
}

#[test]
fn counter_extends_raw_ticks() {
    let mut c = Counter::new();
    assert_eq!(c.cycles, 0);

    c.update(100);
    assert_eq!(c.cycles, 100);
    assert_eq!(c.cycle_resets, 0);

    c.update(4_000_000_000);
    assert_eq!(c.cycles, 4_000_000_000);
    assert_eq!(c.cycle_resets, 0);
}

#[test]
fn counter_counts_a_rollover_once() {
    let mut c = Counter::new();
    c.update(4_000_000_000);

    let before = c.cycles;
    c.update(50);
    assert_eq!(c.cycle_resets, 1);
    assert_eq!(c.cycles, (1u64 << 32) + 50);
    assert!(c.cycles >= before);

    c.update(51);
    assert_eq!(c.cycle_resets, 1);
    assert_eq!(c.cycles, (1u64 << 32) + 51);
}

#[test]
fn counter_never_decreases() {
    let mut c = Counter::new();
    let raws = [7u32, 9, 4_294_967_295, 3, 3, 2_000_000_000, 1_999_999_999];
    let mut prev = 0u64;
    for raw in raws {
        c.update(raw);
        assert!(c.cycles >= prev);
        assert_eq!(c.cycles, (c.cycle_resets as u64) * 0x1_0000_0000 + raw as u64);
        prev = c.cycles;
    }
}

#[test]
fn button_new_windows() {
    let b = Button::new();
    assert_eq!(b.long_press_cycles, 46_800_000);
    assert_eq!(b.debounce_cycles, 3_600_000);
    assert_eq!(b.consecutive_cycles, 10_800_000);
    assert!(!b.press_raw);
    assert!(!b.long_press);
    assert_eq!(b.press_start_cycle, None);
}

#[test]
fn press_reported_once_within_debounce_window() {
    let mut b = Button::new();

    // First high sample past the debounce window of cycle 0: an event.
    assert!(b.pressed(true, 4_000_000));
    // Held (or bouncing) again within the window: no second event.
    assert!(!b.pressed(true, 4_100_000));
    assert!(!b.pressed(true, 7_500_000));
    // A sample more than a debounce window after the last high sample.
    assert!(b.pressed(true, 11_200_000));
}

#[test]
fn bounce_after_release_not_reported() {
    let mut b = Button::new();
    assert!(b.pressed(true, 4_000_000));
    assert!(!b.pressed(false, 4_050_000));
    // The low sample left last_press_cycle at 4_000_000: a bounce back
    // high inside the window is still swallowed.
    assert!(!b.pressed(true, 4_100_000));
}

#[test]
fn long_press_exactly_at_threshold() {
    let mut b = Button::new();
    // First high sample records the start of the hold.
    b.pressed(true, 10);
    assert!(!b.long_press);
    assert_eq!(b.press_start_cycle, Some(10));

    // One cycle short of the threshold.
    b.pressed(true, 10 + 46_799_999);
    assert!(!b.long_press);

    // Exactly at the threshold.
    b.pressed(true, 10 + 46_800_000);
    assert!(b.long_press);
    assert_eq!(b.press_start_cycle, Some(10));
}

#[test]
fn release_resets_long_press_hold() {
    let mut b = Button::new();
    b.pressed(true, 10);
    b.pressed(false, 20_000_000);
    assert_eq!(b.press_start_cycle, None);
    assert!(!b.long_press);

    // A new hold starts counting from its own first sample.
    b.pressed(true, 30_000_000);
    b.pressed(true, 30_000_000 + 46_799_999);
    assert!(!b.long_press);
    b.pressed(true, 30_000_000 + 46_800_000);
    assert!(b.long_press);
}

#[test]
fn consecutive_presses_count_and_reset() {
    let mut b = Button::new();
    assert!(b.pressed(true, 4_000_000));
    assert_eq!(b.consecutive_presses, 1);
    assert!(b.pressed(true, 8_000_000));
    assert_eq!(b.consecutive_presses, 2);

    // An idle sample a full consecutive window after the last press.
    assert!(!b.pressed(false, 8_000_000 + 10_800_000));
    assert_eq!(b.consecutive_presses, 0);
}
